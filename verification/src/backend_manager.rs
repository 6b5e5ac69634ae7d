//! The supervisor: a state machine over the two services.
//!
//! The caller starts an operation, carries out the [`Action`] it is handed,
//! and reports what happened as an [`Event`]; that yields the next action,
//! until one says [`Action::Done`]. Shutting down yields a list of processes to
//! terminate instead, since no decision depends on how a termination went.
//!
//! The caller must keep one manager behind one lock and hold that lock for a
//! whole start or stop, so that the two never interleave.

use vstd::prelude::*;
use crate::error::StartError;
use crate::port::{scan_step, scan_step_of, ScanStep, LAST_PORT, PREFERRED_PORT};
use crate::probe::{
    notice_of, probe_step, probe_step_of, progress_notice, ProbeStep, POLL_ATTEMPTS,
    POLL_INTERVAL_MS,
};
use crate::service::{LaunchFailure, Service};

verus! {

/// The well-known port of the API service's health endpoint.
pub const API_PORT: u16 = 8000;

/// Where one service stands in its life.
#[derive(Clone, Copy, Debug, PartialEq, Eq)]
pub enum ServiceState {
    NotStarted,
    /// Start-up has begun and no health check has succeeded yet.
    Starting,
    /// A health check of the service has succeeded.
    Ready,
    /// Its process is on the list of terminations that the caller is working off.
    Stopping,
    Stopped,
}

/// The run-time record of one service.
#[derive(Clone, Copy, Debug, PartialEq, Eq)]
pub struct ProcessRecord {
    /// The process that the supervisor launched and has not yet given up, if any.
    pub handle: Option<u32>,
    /// The port on which the service is checked.
    pub port: u16,
    pub state: ServiceState,
}

/// Where the supervisor as a whole stands.
#[derive(Clone, Copy, Debug, PartialEq, Eq)]
pub enum Phase {
    Uninitialized,
    Starting,
    /// Both services are ready.
    Running,
    Stopping,
    Stopped,
}

/// The outcome that the supervisor is waiting for.
#[derive(Clone, Copy, Debug, PartialEq, Eq)]
pub enum Stage {
    /// Nothing is in flight.
    Idle,
    /// The health check that tells whether a model service already runs on the preferred port.
    Attaching,
    /// The bind probe of `port`.
    Scanning { port: u16 },
    /// The launch of `service`.
    Launching { service: Service },
    /// Health check number `attempt`, counted from zero, of `service`.
    Polling { service: Service, attempt: u32 },
}

/// All that the supervisor knows: the two records in dependency order, its
/// phase, and what it waits for. The model record's port is the negotiated one.
#[derive(Clone, Copy, Debug, PartialEq, Eq)]
pub struct ManagerState {
    pub model: ProcessRecord,
    pub api: ProcessRecord,
    pub phase: Phase,
    pub stage: Stage,
}

/// What the caller reports after it has carried out an action.
#[derive(Clone, Copy, Debug, PartialEq, Eq)]
pub enum Event {
    /// A health check was made; `ok` says whether the answer counted as success.
    Health { ok: bool },
    /// A port was bound and released again; `in_use` says whether the bind failed.
    PortProbe { in_use: bool },
    /// A process was launched; `handle` names it.
    Spawned { handle: u32 },
    LaunchFailed { reason: LaunchFailure },
}

/// What the caller is to do next.
#[derive(Clone, Copy, Debug, PartialEq, Eq)]
pub enum Action {
    /// Report `notice` seconds of waiting if there is one, wait `delay_ms`,
    /// then check the health endpoint of `service` on `port` and answer with
    /// [`Event::Health`].
    CheckHealth { service: Service, port: u16, delay_ms: u64, notice: Option<u32> },
    /// Bind `port`, release it at once, and answer with [`Event::PortProbe`].
    ProbePort { port: u16 },
    /// Launch `service` and answer with [`Event::Spawned`] or
    /// [`Event::LaunchFailed`]. The model service is to listen on `port`;
    /// the API service is to be told that the model service is on `port`.
    Spawn { service: Service, port: u16 },
    /// The operation has ended with `result`.
    Done { result: Result<(), StartError> },
    /// The event answers nothing that the supervisor waits for. Nothing changed.
    Ignored,
}

/// A process to kill and then to wait for.
#[derive(Clone, Copy, Debug, PartialEq, Eq)]
pub struct Termination {
    pub service: Service,
    pub handle: u32,
}

/// The state of a supervisor that has done nothing yet.
pub open spec fn initial() -> ManagerState {
    ManagerState {
        model: ProcessRecord { handle: None, port: PREFERRED_PORT, state: ServiceState::NotStarted },
        api: ProcessRecord { handle: None, port: API_PORT, state: ServiceState::NotStarted },
        phase: Phase::Uninitialized,
        stage: Stage::Idle,
    }
}

/// The record of `service` in `s`.
pub open spec fn record_of(s: ManagerState, service: Service) -> ProcessRecord {
    match service {
        Service::Model => s.model,
        Service::Api => s.api,
    }
}

/// `s` with `record` in the place of the record of `service`.
pub open spec fn with_record(s: ManagerState, service: Service, record: ProcessRecord) -> ManagerState {
    match service {
        Service::Model => ManagerState { model: record, ..s },
        Service::Api => ManagerState { api: record, ..s },
    }
}

/// The error that a failed launch of `service` stands for.
pub open spec fn launch_error(service: Service, reason: LaunchFailure) -> StartError {
    match reason {
        LaunchFailure::BinaryNotFound => StartError::BinaryNotFound { service },
        LaunchFailure::SpawnFailed => StartError::SpawnFailed { service },
    }
}

/// Starting the model service: allowed once, on a fresh supervisor. It
/// opens with the check whether a model service already answers on the
/// preferred port.
pub open spec fn begin_model(s: ManagerState) -> (ManagerState, Action) {
    if s.phase == Phase::Uninitialized {
        (
            ManagerState {
                model: ProcessRecord { state: ServiceState::Starting, ..s.model },
                phase: Phase::Starting,
                stage: Stage::Attaching,
                ..s
            },
            Action::CheckHealth {
                service: Service::Model,
                port: PREFERRED_PORT,
                delay_ms: 0,
                notice: None,
            },
        )
    } else {
        (s, Action::Done { result: Err(StartError::OutOfOrder) })
    }
}

/// Starting the API service: allowed once, when the model service is ready
/// and nothing is in flight. The launch is told the model service's port.
pub open spec fn begin_api(s: ManagerState) -> (ManagerState, Action) {
    if s.phase == Phase::Starting && s.stage == Stage::Idle && s.model.state == ServiceState::Ready
        && s.api.state == ServiceState::NotStarted {
        (
            ManagerState {
                api: ProcessRecord { state: ServiceState::Starting, ..s.api },
                stage: Stage::Launching { service: Service::Api },
                ..s
            },
            Action::Spawn { service: Service::Api, port: s.model.port },
        )
    } else {
        (s, Action::Done { result: Err(StartError::OutOfOrder) })
    }
}

/// What an event does to the supervisor, and the action that follows.
///
/// An event that does not answer what the supervisor waits for changes
/// nothing. A failure ends the operation and leaves what was started as it
/// is: cleaning up is the business of a later stop.
pub open spec fn react(s: ManagerState, event: Event) -> (ManagerState, Action) {
    match (s.stage, event) {
        (Stage::Attaching, Event::Health { ok }) => if ok {
            (
                ManagerState {
                    model: ProcessRecord { state: ServiceState::Ready, ..s.model },
                    stage: Stage::Idle,
                    ..s
                },
                Action::Done { result: Ok(()) },
            )
        } else {
            (
                ManagerState { stage: Stage::Scanning { port: PREFERRED_PORT }, ..s },
                Action::ProbePort { port: PREFERRED_PORT },
            )
        },
        (Stage::Scanning { port }, Event::PortProbe { in_use }) => match scan_step_of(
            port,
            LAST_PORT,
            in_use,
        ) {
            ScanStep::Found(found) => (
                ManagerState {
                    model: ProcessRecord { port: found, ..s.model },
                    stage: Stage::Launching { service: Service::Model },
                    ..s
                },
                Action::Spawn { service: Service::Model, port: found },
            ),
            ScanStep::Next(next) => (
                ManagerState { stage: Stage::Scanning { port: next }, ..s },
                Action::ProbePort { port: next },
            ),
            ScanStep::Exhausted => (
                ManagerState { stage: Stage::Idle, ..s },
                Action::Done {
                    result: Err(StartError::PortExhausted { start: PREFERRED_PORT, end: LAST_PORT }),
                },
            ),
        },
        (Stage::Launching { service }, Event::Spawned { handle }) => (
            ManagerState {
                stage: Stage::Polling { service, attempt: 0 },
                ..with_record(
                    s,
                    service,
                    ProcessRecord { handle: Some(handle), ..record_of(s, service) },
                )
            },
            Action::CheckHealth {
                service,
                port: record_of(s, service).port,
                delay_ms: POLL_INTERVAL_MS,
                notice: None,
            },
        ),
        (Stage::Launching { service }, Event::LaunchFailed { reason }) => (
            ManagerState { stage: Stage::Idle, ..s },
            Action::Done { result: Err(launch_error(service, reason)) },
        ),
        (Stage::Polling { service, attempt }, Event::Health { ok }) => match probe_step_of(
            attempt,
            POLL_ATTEMPTS,
            ok,
        ) {
            ProbeStep::Ready => (
                ManagerState {
                    stage: Stage::Idle,
                    phase: if service == Service::Api {
                        Phase::Running
                    } else {
                        s.phase
                    },
                    ..with_record(
                        s,
                        service,
                        ProcessRecord { state: ServiceState::Ready, ..record_of(s, service) },
                    )
                },
                Action::Done { result: Ok(()) },
            ),
            ProbeStep::Retry => (
                ManagerState {
                    stage: Stage::Polling { service, attempt: (attempt + 1) as u32 },
                    ..s
                },
                Action::CheckHealth {
                    service,
                    port: record_of(s, service).port,
                    delay_ms: POLL_INTERVAL_MS,
                    notice: notice_of(attempt),
                },
            ),
            ProbeStep::TimedOut => (
                ManagerState { stage: Stage::Idle, ..s },
                Action::Done {
                    result: Err(
                        StartError::ReadinessTimeout { service, port: record_of(s, service).port },
                    ),
                },
            ),
        },
        _ => (s, Action::Ignored),
    }
}

/// The termination that gives up the process of `record`, if it holds one.
pub open spec fn termination_of(service: Service, record: ProcessRecord) -> Seq<Termination> {
    match record.handle {
        Some(handle) => seq![Termination { service, handle }],
        None => Seq::empty(),
    }
}

/// `record` once the supervisor has given up its process: waiting for the
/// termination where there was one, stopped where there was none.
pub open spec fn released(record: ProcessRecord) -> ProcessRecord {
    ProcessRecord {
        handle: None,
        state: if record.handle is Some {
            ServiceState::Stopping
        } else {
            ServiceState::Stopped
        },
        ..record
    }
}

/// Shutting down: from any phase but the two of a shutdown, the supervisor
/// drops whatever it waits for and gives up both processes, the dependent
/// API service first. During or after a shutdown nothing is left to do.
pub open spec fn begin_stop(s: ManagerState) -> (ManagerState, Seq<Termination>) {
    if s.phase == Phase::Stopping || s.phase == Phase::Stopped {
        (s, Seq::empty())
    } else {
        (
            ManagerState {
                model: released(s.model),
                api: released(s.api),
                phase: Phase::Stopping,
                stage: Stage::Idle,
            },
            termination_of(Service::Api, s.api) + termination_of(Service::Model, s.model),
        )
    }
}

/// The caller has worked off the terminations: both services are stopped.
/// Outside a shutdown nothing changes.
pub open spec fn end_stop(s: ManagerState) -> ManagerState {
    if s.phase == Phase::Stopping {
        ManagerState {
            model: ProcessRecord { state: ServiceState::Stopped, ..s.model },
            api: ProcessRecord { state: ServiceState::Stopped, ..s.api },
            phase: Phase::Stopped,
            ..s
        }
    } else {
        s
    }
}

/// A record that holds no process while its service is not running.
pub open spec fn record_consistent(record: ProcessRecord) -> bool {
    (record.state is NotStarted || record.state is Stopping || record.state is Stopped)
        ==> record.handle is None
}

/// What holds of the state of every supervisor: the ports are in their
/// ranges, a record without a running service holds no process, the API
/// service has begun only once the model service was ready, and the stage fits
/// the phase and the records.
pub open spec fn well_formed(s: ManagerState) -> bool {
    &&& s.api.port == API_PORT
    &&& PREFERRED_PORT <= s.model.port <= LAST_PORT
    &&& record_consistent(s.model)
    &&& record_consistent(s.api)
    &&& match s.phase {
        Phase::Uninitialized => s == initial(),
        Phase::Starting => {
            &&& s.model.state is Starting || s.model.state is Ready
            &&& s.api.state is NotStarted || s.api.state is Starting
            &&& s.api.state is Starting ==> s.model.state is Ready
        },
        Phase::Running => s.model.state is Ready && s.api.state is Ready && s.stage is Idle,
        Phase::Stopping => {
            &&& s.stage is Idle
            &&& s.model.handle is None && s.api.handle is None
            &&& s.model.state is Stopping || s.model.state is Stopped
            &&& s.api.state is Stopping || s.api.state is Stopped
        },
        Phase::Stopped => {
            &&& s.stage is Idle
            &&& s.model.handle is None && s.api.handle is None
            &&& s.model.state is Stopped && s.api.state is Stopped
        },
    }
    &&& match s.stage {
        Stage::Idle => true,
        Stage::Attaching => {
            &&& s.phase is Starting && s.model.state is Starting && s.api.state is NotStarted
            &&& s.model.handle is None && s.model.port == PREFERRED_PORT
        },
        Stage::Scanning { port } => {
            &&& s.phase is Starting && s.model.state is Starting && s.api.state is NotStarted
            &&& s.model.handle is None && s.model.port == PREFERRED_PORT
            &&& PREFERRED_PORT <= port <= LAST_PORT
        },
        Stage::Launching { service } => {
            &&& s.phase is Starting
            &&& record_of(s, service).state is Starting
            &&& record_of(s, service).handle is None
            &&& service == Service::Model ==> s.api.state is NotStarted
        },
        Stage::Polling { service, attempt } => {
            &&& s.phase is Starting
            &&& record_of(s, service).state is Starting
            &&& record_of(s, service).handle is Some
            &&& service == Service::Model ==> s.api.state is NotStarted
            &&& attempt < POLL_ATTEMPTS
        },
    }
}

/// The supervisor of the two backend services.
pub struct BackendManager {
    state: ManagerState,
}

impl View for BackendManager {
    type V = ManagerState;

    closed spec fn view(&self) -> ManagerState {
        self.state
    }
}

impl BackendManager {
    #[verifier::type_invariant]
    spec fn inv(self) -> bool {
        well_formed(self.state)
    }

    /// A supervisor that has started nothing, with the preferred port as
    /// the model service's port.
    pub fn new() -> (manager: Self)
        ensures
            manager@ == initial(),
    {
        BackendManager {
            state: ManagerState {
                model: ProcessRecord {
                    handle: None,
                    port: PREFERRED_PORT,
                    state: ServiceState::NotStarted,
                },
                api: ProcessRecord { handle: None, port: API_PORT, state: ServiceState::NotStarted },
                phase: Phase::Uninitialized,
                stage: Stage::Idle,
            },
        }
    }

    /// A copy of the supervisor's state, which is always well formed.
    pub fn snapshot(&self) -> (state: ManagerState)
        ensures
            state == self@,
            well_formed(state),
    {
        proof {
            use_type_invariant(self);
        }
        self.state
    }

    /// Begins the start-up of the model service and returns its first action.
    /// See [`begin_model`].
    pub fn start_ollama(&mut self) -> (action: Action)
        ensures
            final(self)@ == begin_model(old(self)@).0,
            action == begin_model(old(self)@).1,
    {
        proof {
            use_type_invariant(&*self);
        }
        let mut s = self.state;
        match s.phase {
            Phase::Uninitialized => {
                s.model.state = ServiceState::Starting;
                s.phase = Phase::Starting;
                s.stage = Stage::Attaching;
                self.state = s;
                Action::CheckHealth {
                    service: Service::Model,
                    port: PREFERRED_PORT,
                    delay_ms: 0,
                    notice: None,
                }
            },
            _ => Action::Done { result: Err(StartError::OutOfOrder) },
        }
    }

    /// Begins the start-up of the API service and returns its first action.
    /// See [`begin_api`].
    pub fn start_python_backend(&mut self) -> (action: Action)
        ensures
            final(self)@ == begin_api(old(self)@).0,
            action == begin_api(old(self)@).1,
    {
        proof {
            use_type_invariant(&*self);
        }
        let mut s = self.state;
        let allowed = matches!(s.phase, Phase::Starting) && matches!(s.stage, Stage::Idle)
            && matches!(s.model.state, ServiceState::Ready) && matches!(
            s.api.state,
            ServiceState::NotStarted
        );
        if allowed {
            s.api.state = ServiceState::Starting;
            s.stage = Stage::Launching { service: Service::Api };
            self.state = s;
            Action::Spawn { service: Service::Api, port: s.model.port }
        } else {
            Action::Done { result: Err(StartError::OutOfOrder) }
        }
    }

    /// Takes in the outcome of the last action and returns the next one.
    /// See [`react`].
    pub fn advance(&mut self, event: Event) -> (action: Action)
        ensures
            final(self)@ == react(old(self)@, event).0,
            action == react(old(self)@, event).1,
    {
        proof {
            use_type_invariant(&*self);
        }
        let mut s = self.state;
        let action = match (s.stage, event) {
            (Stage::Attaching, Event::Health { ok }) => {
                if ok {
                    s.model.state = ServiceState::Ready;
                    s.stage = Stage::Idle;
                    Action::Done { result: Ok(()) }
                } else {
                    s.stage = Stage::Scanning { port: PREFERRED_PORT };
                    Action::ProbePort { port: PREFERRED_PORT }
                }
            },
            (Stage::Scanning { port }, Event::PortProbe { in_use }) => {
                match scan_step(port, LAST_PORT, in_use) {
                    ScanStep::Found(found) => {
                        s.model.port = found;
                        s.stage = Stage::Launching { service: Service::Model };
                        Action::Spawn { service: Service::Model, port: found }
                    },
                    ScanStep::Next(next) => {
                        s.stage = Stage::Scanning { port: next };
                        Action::ProbePort { port: next }
                    },
                    ScanStep::Exhausted => {
                        s.stage = Stage::Idle;
                        Action::Done {
                            result: Err(
                                StartError::PortExhausted { start: PREFERRED_PORT, end: LAST_PORT },
                            ),
                        }
                    },
                }
            },
            (Stage::Launching { service }, Event::Spawned { handle }) => {
                s.stage = Stage::Polling { service, attempt: 0 };
                let port = match service {
                    Service::Model => {
                        s.model.handle = Some(handle);
                        s.model.port
                    },
                    Service::Api => {
                        s.api.handle = Some(handle);
                        s.api.port
                    },
                };
                Action::CheckHealth { service, port, delay_ms: POLL_INTERVAL_MS, notice: None }
            },
            (Stage::Launching { service }, Event::LaunchFailed { reason }) => {
                s.stage = Stage::Idle;
                let error = match reason {
                    LaunchFailure::BinaryNotFound => StartError::BinaryNotFound { service },
                    LaunchFailure::SpawnFailed => StartError::SpawnFailed { service },
                };
                Action::Done { result: Err(error) }
            },
            (Stage::Polling { service, attempt }, Event::Health { ok }) => {
                let port = match service {
                    Service::Model => s.model.port,
                    Service::Api => s.api.port,
                };
                match probe_step(attempt, POLL_ATTEMPTS, ok) {
                    ProbeStep::Ready => {
                        s.stage = Stage::Idle;
                        match service {
                            Service::Model => {
                                s.model.state = ServiceState::Ready;
                            },
                            Service::Api => {
                                s.api.state = ServiceState::Ready;
                                s.phase = Phase::Running;
                            },
                        }
                        Action::Done { result: Ok(()) }
                    },
                    ProbeStep::Retry => {
                        s.stage = Stage::Polling { service, attempt: attempt + 1 };
                        Action::CheckHealth {
                            service,
                            port,
                            delay_ms: POLL_INTERVAL_MS,
                            notice: progress_notice(attempt),
                        }
                    },
                    ProbeStep::TimedOut => {
                        s.stage = Stage::Idle;
                        Action::Done {
                            result: Err(StartError::ReadinessTimeout { service, port }),
                        }
                    },
                }
            },
            _ => Action::Ignored,
        };
        self.state = s;
        action
    }

    /// Begins a shutdown and returns the processes to terminate, in order:
    /// each is to be killed and then waited for, and a failure of either is
    /// to be noted and passed over. See [`begin_stop`].
    pub fn stop_all(&mut self) -> (plan: Vec<Termination>)
        ensures
            final(self)@ == begin_stop(old(self)@).0,
            plan@ == begin_stop(old(self)@).1,
    {
        proof {
            use_type_invariant(&*self);
        }
        let mut s = self.state;
        let mut plan: Vec<Termination> = Vec::new();
        match s.phase {
            Phase::Stopping | Phase::Stopped => {},
            _ => {
                match s.api.handle {
                    Some(handle) => {
                        plan.push(Termination { service: Service::Api, handle });
                        s.api.state = ServiceState::Stopping;
                    },
                    None => {
                        s.api.state = ServiceState::Stopped;
                    },
                }
                s.api.handle = None;
                match s.model.handle {
                    Some(handle) => {
                        plan.push(Termination { service: Service::Model, handle });
                        s.model.state = ServiceState::Stopping;
                    },
                    None => {
                        s.model.state = ServiceState::Stopped;
                    },
                }
                s.model.handle = None;
                s.phase = Phase::Stopping;
                s.stage = Stage::Idle;
                self.state = s;
            },
        }
        plan
    }

    /// Ends the shutdown once the terminations have been worked off.
    /// See [`end_stop`].
    pub fn finish_stop(&mut self)
        ensures
            final(self)@ == end_stop(old(self)@),
    {
        proof {
            use_type_invariant(&*self);
        }
        let mut s = self.state;
        match s.phase {
            Phase::Stopping => {
                s.model.state = ServiceState::Stopped;
                s.api.state = ServiceState::Stopped;
                s.phase = Phase::Stopped;
                self.state = s;
            },
            _ => {},
        }
    }
}

} // verus!
