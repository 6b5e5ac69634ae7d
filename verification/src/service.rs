//! The two managed services and how each is launched.

use vstd::prelude::*;
use crate::text::{
    bind_address, bind_address_of, health_url, health_url_of, upstream_url, upstream_url_of,
};

verus! {

/// One of the two programs that the supervisor runs, in dependency order.
#[derive(Clone, Copy, Debug, PartialEq, Eq)]
pub enum Service {
    /// The model server. It is started first.
    Model,
    /// The API server. It needs the model server's address.
    Api,
}

/// Why a launch did not yield a process.
#[derive(Clone, Copy, Debug, PartialEq, Eq)]
pub enum LaunchFailure {
    /// None of the candidate executables exists.
    BinaryNotFound,
    /// The operating system refused the launch.
    SpawnFailed,
}

/// Where the output of a launched process goes.
#[derive(Clone, Copy, Debug, PartialEq, Eq)]
pub enum StdioPolicy {
    /// To the supervisor's own output, for a verbose run.
    Inherit,
    /// Nowhere.
    Discard,
}

/// The directory that a candidate's path starts from.
#[derive(Clone, Copy, Debug, PartialEq, Eq)]
pub enum PathBase {
    /// The directory of the running executable.
    ExecutableDir,
    /// Three levels above the directory of the running executable, where a
    /// development build keeps the project; the working directory where
    /// there is no such level.
    ProjectRoot,
    /// The working directory.
    WorkingDir,
}

/// One way to launch a service.
#[derive(Clone, Debug, PartialEq, Eq)]
pub struct Candidate {
    pub base: PathBase,
    /// The executable's path below `base`.
    pub relative: String,
    pub args: Vec<String>,
    /// The directory to launch in, where it is not the supervisor's own.
    pub working_dir: Option<PathBase>,
}

/// A variable of the launched process's environment.
#[derive(Clone, Debug, PartialEq, Eq)]
pub struct EnvVar {
    pub name: String,
    pub value: String,
}

/// All that a launch of one service needs. The candidates are in order of
/// preference: the production binary beside the executable first, the
/// development command after it.
#[derive(Clone, Debug, PartialEq, Eq)]
pub struct ServiceSpec {
    pub service: Service,
    pub candidates: Vec<Candidate>,
    pub env: Vec<EnvVar>,
    pub health_url: String,
    pub stdio: StdioPolicy,
}

/// What a [`Candidate`] says.
pub struct CandidateView {
    pub base: PathBase,
    pub relative: Seq<char>,
    pub args: Seq<Seq<char>>,
    pub working_dir: Option<PathBase>,
}

/// What a [`ServiceSpec`] says; a variable is a pair of name and value.
pub struct ServiceSpecView {
    pub service: Service,
    pub candidates: Seq<CandidateView>,
    pub env: Seq<(Seq<char>, Seq<char>)>,
    pub health_url: Seq<char>,
    pub stdio: StdioPolicy,
}

impl View for Candidate {
    type V = CandidateView;

    open spec fn view(&self) -> CandidateView {
        CandidateView {
            base: self.base,
            relative: self.relative@,
            args: self.args@.map_values(|arg: String| arg@),
            working_dir: self.working_dir,
        }
    }
}

impl View for EnvVar {
    type V = (Seq<char>, Seq<char>);

    open spec fn view(&self) -> (Seq<char>, Seq<char>) {
        (self.name@, self.value@)
    }
}

impl View for ServiceSpec {
    type V = ServiceSpecView;

    open spec fn view(&self) -> ServiceSpecView {
        ServiceSpecView {
            service: self.service,
            candidates: self.candidates@.map_values(|c: Candidate| c@),
            env: self.env@.map_values(|v: EnvVar| v@),
            health_url: self.health_url@,
            stdio: self.stdio,
        }
    }
}

/// The launch of the model service on `port`, with its models in `models_dir`.
///
/// It runs `ollama serve`, from beside the executable or else from the
/// development tree, and is told where to listen and where its models are.
pub open spec fn model_service_of(port: u16, models_dir: Seq<char>, stdio: StdioPolicy) -> ServiceSpecView {
    ServiceSpecView {
        service: Service::Model,
        candidates: seq![
            CandidateView {
                base: PathBase::ExecutableDir,
                relative: "ollama"@,
                args: seq!["serve"@],
                working_dir: None,
            },
            CandidateView {
                base: PathBase::WorkingDir,
                relative: "src-tauri/binaries/ollama"@,
                args: seq!["serve"@],
                working_dir: None,
            },
        ],
        env: seq![("OLLAMA_HOST"@, bind_address_of(port)), ("OLLAMA_MODELS"@, models_dir)],
        health_url: health_url_of(Service::Model, port),
        stdio,
    }
}

/// The launch of the API service, whose model service listens on
/// `upstream_port`.
///
/// It runs the bundled backend, or else the development server from the
/// project's virtual environment, and is told the model service's address.
/// Its own port is `api_port`.
pub open spec fn api_service_of(upstream_port: u16, api_port: u16, stdio: StdioPolicy) -> ServiceSpecView {
    ServiceSpecView {
        service: Service::Api,
        candidates: seq![
            CandidateView {
                base: PathBase::ExecutableDir,
                relative: "../Resources/_up_/dist/babyai-backend/babyai-backend"@,
                args: Seq::empty(),
                working_dir: None,
            },
            CandidateView {
                base: PathBase::ProjectRoot,
                relative: "venv/bin/python"@,
                args: seq![
                    "-m"@,
                    "uvicorn"@,
                    "src.main:app"@,
                    "--host"@,
                    "127.0.0.1"@,
                    "--port"@,
                    crate::text::decimal(api_port as nat),
                ],
                working_dir: Some(PathBase::ProjectRoot),
            },
        ],
        env: seq![("OLLAMA_API_BASE"@, upstream_url_of(upstream_port))],
        health_url: health_url_of(Service::Api, api_port),
        stdio,
    }
}

/// Describes the launch of the model service. See [`model_service_of`].
pub fn model_service(port: u16, models_dir: String, stdio: StdioPolicy) -> (spec: ServiceSpec)
    ensures
        spec@ == model_service_of(port, models_dir@, stdio),
{
    let bundled = Candidate {
        base: PathBase::ExecutableDir,
        relative: String::from_str("ollama"),
        args: vec![String::from_str("serve")],
        working_dir: None,
    };
    let development = Candidate {
        base: PathBase::WorkingDir,
        relative: String::from_str("src-tauri/binaries/ollama"),
        args: vec![String::from_str("serve")],
        working_dir: None,
    };
    let host = EnvVar { name: String::from_str("OLLAMA_HOST"), value: bind_address(port) };
    let models = EnvVar { name: String::from_str("OLLAMA_MODELS"), value: models_dir };
    let spec = ServiceSpec {
        service: Service::Model,
        candidates: vec![bundled, development],
        env: vec![host, models],
        health_url: health_url(Service::Model, port),
        stdio,
    };
    proof {
        let want = model_service_of(port, models_dir@, stdio);
        assert(bundled.args@.map_values(|arg: String| arg@) =~= seq!["serve"@]);
        assert(development.args@.map_values(|arg: String| arg@) =~= seq!["serve"@]);
        assert(spec@.candidates =~= want.candidates);
        assert(spec@.env =~= want.env);
    }
    spec
}

/// Describes the launch of the API service. See [`api_service_of`].
pub fn api_service(upstream_port: u16, api_port: u16, stdio: StdioPolicy) -> (spec: ServiceSpec)
    ensures
        spec@ == api_service_of(upstream_port, api_port, stdio),
{
    let bundled = Candidate {
        base: PathBase::ExecutableDir,
        relative: String::from_str("../Resources/_up_/dist/babyai-backend/babyai-backend"),
        args: Vec::new(),
        working_dir: None,
    };
    let development = Candidate {
        base: PathBase::ProjectRoot,
        relative: String::from_str("venv/bin/python"),
        args: vec![
            String::from_str("-m"),
            String::from_str("uvicorn"),
            String::from_str("src.main:app"),
            String::from_str("--host"),
            String::from_str("127.0.0.1"),
            String::from_str("--port"),
            crate::text::decimal_text(api_port),
        ],
        working_dir: Some(PathBase::ProjectRoot),
    };
    let upstream = EnvVar {
        name: String::from_str("OLLAMA_API_BASE"),
        value: upstream_url(upstream_port),
    };
    let spec = ServiceSpec {
        service: Service::Api,
        candidates: vec![bundled, development],
        env: vec![upstream],
        health_url: health_url(Service::Api, api_port),
        stdio,
    };
    proof {
        let want = api_service_of(upstream_port, api_port, stdio);
        assert(bundled.args@.map_values(|arg: String| arg@) =~= Seq::<Seq<char>>::empty());
        assert(development.args@.map_values(|arg: String| arg@) =~= want.candidates[1].args);
        assert(spec@.candidates =~= want.candidates);
        assert(spec@.env =~= want.env);
    }
    spec
}

/// Candidate number `i` is the first that exists. A candidate without an
/// entry in `exists` counts as missing.
pub open spec fn is_first_existing(i: int, candidates: int, exists: Seq<bool>) -> bool {
    &&& 0 <= i < candidates
    &&& i < exists.len()
    &&& exists[i]
    &&& forall|j: int| 0 <= j < i ==> !exists[j]
}

/// No candidate exists.
pub open spec fn none_exists(candidates: int, exists: Seq<bool>) -> bool {
    forall|j: int| 0 <= j < candidates && j < exists.len() ==> !exists[j]
}

/// Picks the executable to launch: the first candidate of `spec` that
/// exists wins, `exists[i]` saying whether candidate number `i` does.
///
/// Fails with [`LaunchFailure::BinaryNotFound`] exactly when none exists.
pub fn resolve_executable(spec: &ServiceSpec, exists: &Vec<bool>) -> (choice: Result<
    usize,
    LaunchFailure,
>)
    ensures
        match choice {
            Ok(i) => is_first_existing(i as int, spec.candidates@.len() as int, exists@),
            Err(reason) => reason == LaunchFailure::BinaryNotFound && none_exists(
                spec.candidates@.len() as int,
                exists@,
            ),
        },
{
    let mut i: usize = 0;
    while i < spec.candidates.len() && i < exists.len()
        invariant
            forall|j: int| 0 <= j < i ==> !exists@[j],
        decreases exists.len() - i,
    {
        if exists[i] {
            return Ok(i);
        }
        i += 1;
    }
    Err(LaunchFailure::BinaryNotFound)
}

} // verus!
