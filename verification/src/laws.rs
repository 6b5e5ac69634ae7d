//! What holds of every run of the supervisor, whatever the caller reports.
//!
//! A run is a sequence of calls on a fresh supervisor. The laws below speak
//! of the state before each call and of the action that each call hands out.

use vstd::prelude::*;
use crate::backend_manager::{
    begin_api, begin_model, begin_stop, end_stop, initial, react, record_of, well_formed, Action,
    Event, ManagerState, Stage, Termination,
};
use crate::error::StartError;
use crate::port::{all_taken, is_first_free, LAST_PORT, PREFERRED_PORT};
use crate::probe::POLL_ATTEMPTS;
use crate::service::Service;

verus! {

/// One call on a supervisor.
pub enum Input {
    /// `start_ollama`.
    StartModel,
    /// `start_python_backend`.
    StartApi,
    /// `advance` with this event.
    Report { event: Event },
    /// `stop_all`.
    StopAll,
    /// `finish_stop`.
    FinishStop,
}

/// The state that a call leaves behind.
pub open spec fn step(s: ManagerState, input: Input) -> ManagerState {
    match input {
        Input::StartModel => begin_model(s).0,
        Input::StartApi => begin_api(s).0,
        Input::Report { event } => react(s, event).0,
        Input::StopAll => begin_stop(s).0,
        Input::FinishStop => end_stop(s),
    }
}

/// The action that a call hands out, if it is one that hands out actions.
pub open spec fn emitted(s: ManagerState, input: Input) -> Option<Action> {
    match input {
        Input::StartModel => Some(begin_model(s).1),
        Input::StartApi => Some(begin_api(s).1),
        Input::Report { event } => Some(react(s, event).1),
        Input::StopAll => None,
        Input::FinishStop => None,
    }
}

/// The terminations that a call hands out.
pub open spec fn terminations(s: ManagerState, input: Input) -> Seq<Termination> {
    match input {
        Input::StopAll => begin_stop(s).1,
        _ => Seq::empty(),
    }
}

/// The state of a fresh supervisor after the first `k` calls of `inputs`.
pub open spec fn state_before(inputs: Seq<Input>, k: int) -> ManagerState
    decreases k,
{
    if k <= 0 {
        initial()
    } else {
        step(state_before(inputs, k - 1), inputs[k - 1])
    }
}

/// The supervisor waits for a health check of `service`.
pub open spec fn awaits_health(s: ManagerState, service: Service) -> bool {
    match s.stage {
        Stage::Attaching => service == Service::Model,
        Stage::Polling { service: polled, attempt } => polled == service,
        _ => false,
    }
}

/// Call number `i` reports a successful health check that the supervisor
/// was waiting for from `service`.
pub open spec fn probe_succeeds_at(inputs: Seq<Input>, i: int, service: Service) -> bool {
    &&& 0 <= i < inputs.len()
    &&& inputs[i] == (Input::Report { event: Event::Health { ok: true } })
    &&& awaits_health(state_before(inputs, i), service)
}

/// Call number `i` settles the model service's port on `port`: either the
/// service was found running on the preferred port, or the scan's probe of
/// `port` found it free.
pub open spec fn negotiated_at(inputs: Seq<Input>, i: int, port: u16) -> bool {
    &&& 0 <= i < inputs.len()
    &&& {
        ||| {
            &&& state_before(inputs, i).stage is Attaching
            &&& inputs[i] == (Input::Report { event: Event::Health { ok: true } })
            &&& port == PREFERRED_PORT
        }
        ||| {
            &&& state_before(inputs, i).stage == (Stage::Scanning { port })
            &&& inputs[i] == (Input::Report { event: Event::PortProbe { in_use: false } })
        }
    }
}

/// Call number `i`, if it answers a bind probe of the scan, tells the truth
/// about `occupied`.
pub open spec fn answer_matches(inputs: Seq<Input>, i: int, occupied: Set<u16>) -> bool {
    match (state_before(inputs, i).stage, inputs[i]) {
        (Stage::Scanning { port }, Input::Report { event: Event::PortProbe { in_use } }) => in_use
            == occupied.contains(port),
        _ => true,
    }
}

/// A call keeps a well-formed state well formed.
pub proof fn lemma_step_keeps_well_formed(s: ManagerState, input: Input)
    requires
        well_formed(s),
    ensures
        well_formed(step(s, input)),
{
}

/// Every state of every run is well formed. In particular a supervisor is
/// running only while both services are ready, and once stopped it holds
/// no process.
pub proof fn lemma_always_well_formed(inputs: Seq<Input>, k: int)
    requires
        0 <= k <= inputs.len(),
    ensures
        well_formed(state_before(inputs, k)),
    decreases k,
{
    if k > 0 {
        lemma_always_well_formed(inputs, k - 1);
        lemma_step_keeps_well_formed(state_before(inputs, k - 1), inputs[k - 1]);
    }
}

/// A service is ready only after a health check of that very service has
/// succeeded.
pub proof fn lemma_ready_after_probe(inputs: Seq<Input>, k: int, service: Service)
    requires
        0 <= k <= inputs.len(),
        record_of(state_before(inputs, k), service).state is Ready,
    ensures
        exists|i: int| 0 <= i < k && probe_succeeds_at(inputs, i, service),
    decreases k,
{
    if k > 0 {
        let s = state_before(inputs, k - 1);
        lemma_always_well_formed(inputs, k - 1);
        if record_of(s, service).state is Ready {
            lemma_ready_after_probe(inputs, k - 1, service);
            let i = choose|i: int| 0 <= i < k - 1 && probe_succeeds_at(inputs, i, service);
            assert(0 <= i < k && probe_succeeds_at(inputs, i, service));
        } else {
            assert(probe_succeeds_at(inputs, k - 1, service));
        }
    }
}

/// The supervisor is running only after a health check of the model
/// service has succeeded and, later, one of the API service.
pub proof fn lemma_running_after_both_probes(inputs: Seq<Input>, k: int)
    requires
        0 <= k <= inputs.len(),
        state_before(inputs, k).phase is Running,
    ensures
        exists|i: int, j: int|
            0 <= i < j < k && probe_succeeds_at(inputs, i, Service::Model) && probe_succeeds_at(
                inputs,
                j,
                Service::Api,
            ),
    decreases k,
{
    if k > 0 {
        let s = state_before(inputs, k - 1);
        lemma_always_well_formed(inputs, k - 1);
        if s.phase is Running {
            lemma_running_after_both_probes(inputs, k - 1);
            let (i, j) = choose|i: int, j: int|
                0 <= i < j < k - 1 && probe_succeeds_at(inputs, i, Service::Model)
                    && probe_succeeds_at(inputs, j, Service::Api);
            assert(0 <= i < j < k && probe_succeeds_at(inputs, i, Service::Model)
                && probe_succeeds_at(inputs, j, Service::Api));
        } else {
            assert(probe_succeeds_at(inputs, k - 1, Service::Api));
            lemma_ready_after_probe(inputs, k - 1, Service::Model);
            let i = choose|i: int| 0 <= i < k - 1 && probe_succeeds_at(inputs, i, Service::Model);
            assert(0 <= i < k - 1 < k && probe_succeeds_at(inputs, i, Service::Model)
                && probe_succeeds_at(inputs, k - 1, Service::Api));
        }
    }
}

/// A start-up reports success only on a successful health check: that of
/// the model service where its start-up ends, and that of the API service,
/// with one of the model service before it, where the whole start-up ends.
pub proof fn lemma_success_after_probes(inputs: Seq<Input>, k: int)
    requires
        0 <= k < inputs.len(),
        emitted(state_before(inputs, k), inputs[k]) == Some(Action::Done { result: Ok(()) }),
    ensures
        exists|i: int| 0 <= i <= k && probe_succeeds_at(inputs, i, Service::Model),
        probe_succeeds_at(inputs, k, Service::Model) || probe_succeeds_at(inputs, k, Service::Api),
        probe_succeeds_at(inputs, k, Service::Api) ==> state_before(inputs, k + 1).phase is Running
            && exists|i: int| 0 <= i < k && probe_succeeds_at(inputs, i, Service::Model),
{
    lemma_always_well_formed(inputs, k);
    if probe_succeeds_at(inputs, k, Service::Api) {
        lemma_ready_after_probe(inputs, k, Service::Model);
        let i = choose|i: int| 0 <= i < k && probe_succeeds_at(inputs, i, Service::Model);
        assert(0 <= i <= k && probe_succeeds_at(inputs, i, Service::Model));
    } else {
        assert(probe_succeeds_at(inputs, k, Service::Model));
    }
}

/// The API service is launched only after a health check of the model
/// service has succeeded: where none ever does, it is never launched.
pub proof fn lemma_api_spawn_after_model_probe(inputs: Seq<Input>, k: int, port: u16)
    requires
        0 <= k < inputs.len(),
        emitted(state_before(inputs, k), inputs[k]) == Some(
            Action::Spawn { service: Service::Api, port },
        ),
    ensures
        exists|i: int| 0 <= i < k && probe_succeeds_at(inputs, i, Service::Model),
{
    lemma_always_well_formed(inputs, k);
    lemma_ready_after_probe(inputs, k, Service::Model);
}

/// While the model service is being launched or polled, and once it is
/// ready, its port is one that an earlier call settled.
pub proof fn lemma_port_was_negotiated(inputs: Seq<Input>, k: int)
    requires
        0 <= k <= inputs.len(),
        ({
            let s = state_before(inputs, k);
            ||| s.model.state is Ready
            ||| s.stage == (Stage::Launching { service: Service::Model })
            ||| exists|attempt: u32| s.stage == (Stage::Polling { service: Service::Model, attempt })
        }),
    ensures
        exists|i: int| 0 <= i < k && negotiated_at(inputs, i, state_before(inputs, k).model.port),
    decreases k,
{
    if k > 0 {
        let s = state_before(inputs, k - 1);
        let port = state_before(inputs, k).model.port;
        lemma_always_well_formed(inputs, k - 1);
        if negotiated_at(inputs, k - 1, port) {
        } else {
            assert(s.model.port == port);
            lemma_port_was_negotiated(inputs, k - 1);
            let i = choose|i: int| 0 <= i < k - 1 && negotiated_at(inputs, i, port);
            assert(0 <= i < k && negotiated_at(inputs, i, port));
        }
    }
}

/// The address handed to the API service is the model service's port as it
/// stands, and that port was settled by the negotiation.
pub proof fn lemma_upstream_is_negotiated_port(inputs: Seq<Input>, k: int, port: u16)
    requires
        0 <= k < inputs.len(),
        emitted(state_before(inputs, k), inputs[k]) == Some(
            Action::Spawn { service: Service::Api, port },
        ),
    ensures
        port == state_before(inputs, k).model.port,
        exists|i: int| 0 <= i < k && negotiated_at(inputs, i, port),
{
    lemma_always_well_formed(inputs, k);
    lemma_port_was_negotiated(inputs, k);
}

/// Once settled, the model service's port stays what it is for the rest
/// of the run.
pub proof fn lemma_port_stays(inputs: Seq<Input>, i: int, k: int, port: u16)
    requires
        negotiated_at(inputs, i, port),
        i < k <= inputs.len(),
    ensures
        state_before(inputs, k).model.port == port,
        !(state_before(inputs, k).phase is Uninitialized),
        !(state_before(inputs, k).stage is Attaching),
        !(state_before(inputs, k).stage is Scanning),
    decreases k,
{
    lemma_always_well_formed(inputs, k - 1);
    if k > i + 1 {
        lemma_port_stays(inputs, i, k - 1, port);
    }
}

/// Where the bind probes tell the truth about the ports in `occupied`, a
/// scan that has come to `port` has found every port below it taken.
pub proof fn lemma_scan_below_taken(inputs: Seq<Input>, occupied: Set<u16>, k: int, port: u16)
    requires
        0 <= k <= inputs.len(),
        forall|i: int| 0 <= i < k ==> answer_matches(inputs, i, occupied),
        state_before(inputs, k).stage == (Stage::Scanning { port }),
    ensures
        forall|q: u16| PREFERRED_PORT <= q < port ==> occupied.contains(q),
    decreases k,
{
    if k > 0 {
        let s = state_before(inputs, k - 1);
        lemma_always_well_formed(inputs, k - 1);
        assert(answer_matches(inputs, k - 1, occupied));
        match s.stage {
            Stage::Scanning { port: before } => {
                lemma_scan_below_taken(inputs, occupied, k - 1, before);
            },
            _ => {},
        }
    }
}

/// Where the bind probes tell the truth about the ports in `occupied`, the
/// model service is launched on the first free port of the range.
pub proof fn lemma_scan_finds_first_free(
    inputs: Seq<Input>,
    occupied: Set<u16>,
    k: int,
    port: u16,
)
    requires
        0 <= k < inputs.len(),
        forall|i: int| 0 <= i <= k ==> answer_matches(inputs, i, occupied),
        emitted(state_before(inputs, k), inputs[k]) == Some(
            Action::Spawn { service: Service::Model, port },
        ),
    ensures
        is_first_free(port, PREFERRED_PORT, LAST_PORT, occupied),
{
    lemma_always_well_formed(inputs, k);
    assert(answer_matches(inputs, k, occupied));
    lemma_scan_below_taken(inputs, occupied, k, port);
}

/// Where the bind probes tell the truth about the ports in `occupied`, the
/// start-up fails for want of a port only when the whole range is taken.
pub proof fn lemma_scan_fails_when_all_taken(inputs: Seq<Input>, occupied: Set<u16>, k: int)
    requires
        0 <= k < inputs.len(),
        forall|i: int| 0 <= i <= k ==> answer_matches(inputs, i, occupied),
        emitted(state_before(inputs, k), inputs[k]) == Some(
            Action::Done {
                result: Err(StartError::PortExhausted { start: PREFERRED_PORT, end: LAST_PORT }),
            },
        ),
    ensures
        all_taken(PREFERRED_PORT, LAST_PORT, occupied),
{
    lemma_always_well_formed(inputs, k);
    assert(answer_matches(inputs, k, occupied));
    lemma_scan_below_taken(inputs, occupied, k, LAST_PORT);
}

/// The state after `n` failed health checks in a row.
pub open spec fn after_failed_checks(s: ManagerState, n: nat) -> ManagerState
    decreases n,
{
    if n == 0 {
        s
    } else {
        react(after_failed_checks(s, (n - 1) as nat), Event::Health { ok: false }).0
    }
}

/// A service that fails every health check of its budget is given up at
/// the last one: until then the supervisor asks for the next check, and
/// then the start-up ends with a timeout that names the service and its
/// port, with nothing else changed.
pub proof fn lemma_timeout_after_budget(s: ManagerState, service: Service, n: nat)
    requires
        s.stage == (Stage::Polling { service, attempt: 0 }),
        n < POLL_ATTEMPTS,
    ensures
        after_failed_checks(s, n) == (ManagerState {
            stage: Stage::Polling { service, attempt: n as u32 },
            ..s
        }),
        n + 1 < POLL_ATTEMPTS ==> react(after_failed_checks(s, n), Event::Health { ok: false }).1
            is CheckHealth,
        n + 1 == POLL_ATTEMPTS ==> react(after_failed_checks(s, n), Event::Health { ok: false })
            == (
            ManagerState { stage: Stage::Idle, ..s },
            Action::Done {
                result: Err(
                    StartError::ReadinessTimeout { service, port: record_of(s, service).port },
                ),
            },
        ),
    decreases n,
{
    if n > 0 {
        lemma_timeout_after_budget(s, service, (n - 1) as nat);
    }
}

/// Once the model service has timed out, the API service cannot be started.
pub proof fn lemma_no_api_after_model_timeout(s: ManagerState)
    requires
        well_formed(s),
        s.stage == (Stage::Polling { service: Service::Model, attempt: 0 }),
    ensures
        ({
            let failed = react(
                after_failed_checks(s, (POLL_ATTEMPTS - 1) as nat),
                Event::Health { ok: false },
            ).0;
            begin_api(failed) == (failed, Action::Done { result: Err(StartError::OutOfOrder) })
        }),
{
    lemma_timeout_after_budget(s, Service::Model, (POLL_ATTEMPTS - 1) as nat);
}

/// The state after a whole shutdown: `stop_all`, then `finish_stop`.
pub open spec fn stopped(s: ManagerState) -> ManagerState {
    end_stop(begin_stop(s).0)
}

/// Shutting down is idempotent. A whole shutdown leaves both services
/// stopped and no process held; a second one changes nothing and hands out
/// no termination; and a `stop_all` that follows another, before or after
/// `finish_stop`, hands out none either.
pub proof fn lemma_stop_is_idempotent(s: ManagerState)
    requires
        well_formed(s),
    ensures
        stopped(s).phase is Stopped,
        stopped(s).model.state is Stopped && stopped(s).api.state is Stopped,
        stopped(s).model.handle is None && stopped(s).api.handle is None,
        begin_stop(stopped(s)) == (stopped(s), Seq::<Termination>::empty()),
        stopped(stopped(s)) == stopped(s),
        begin_stop(begin_stop(s).0).1 == Seq::<Termination>::empty(),
{
}

/// A shutdown terminates the API service before the model service, and
/// only processes that the supervisor holds.
pub proof fn lemma_stop_order(s: ManagerState)
    requires
        !(s.phase is Stopping),
        !(s.phase is Stopped),
    ensures
        begin_stop(s).1.len() == (if s.api.handle is Some { 1int } else { 0int }) + (
        if s.model.handle is Some { 1int } else { 0int }),
        forall|i: int, j: int|
            0 <= i < j < begin_stop(s).1.len() ==> begin_stop(s).1[i].service == Service::Api
                && begin_stop(s).1[j].service == Service::Model,
        forall|i: int|
            0 <= i < begin_stop(s).1.len() ==> Some(begin_stop(s).1[i].handle) == record_of(
                s,
                begin_stop(s).1[i].service,
            ).handle,
{
}

/// A shutdown is final: once begun, the supervisor stays in its two last
/// phases and holds no process, whatever is called on it.
pub proof fn lemma_shutdown_is_final(inputs: Seq<Input>, i: int, k: int)
    requires
        0 <= i <= k <= inputs.len(),
        state_before(inputs, i).phase is Stopping || state_before(inputs, i).phase is Stopped,
    ensures
        state_before(inputs, k).phase is Stopping || state_before(inputs, k).phase is Stopped,
        state_before(inputs, k).model.handle is None,
        state_before(inputs, k).api.handle is None,
    decreases k,
{
    lemma_always_well_formed(inputs, k);
    if k > i {
        lemma_shutdown_is_final(inputs, i, k - 1);
        lemma_always_well_formed(inputs, k - 1);
    }
}

/// No run terminates anything twice: after a first `stop_all`, no later
/// call hands out a termination.
pub proof fn lemma_only_first_stop_terminates(inputs: Seq<Input>, i: int, j: int)
    requires
        0 <= i < j < inputs.len(),
        inputs[i] == Input::StopAll,
    ensures
        terminations(state_before(inputs, j), inputs[j]) == Seq::<Termination>::empty(),
{
    lemma_shutdown_is_final(inputs, i + 1, j);
}

} // verus!
