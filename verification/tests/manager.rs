use baby_ai::backend_manager::{
    Action, BackendManager, Event, ManagerState, Phase, ProcessRecord, ServiceState, Stage,
    Termination, API_PORT,
};
use baby_ai::error::StartError;
use baby_ai::service::{api_service, LaunchFailure, Service, StdioPolicy};
use baby_ai::text::upstream_url;

fn ok() -> Action {
    Action::Done { result: Ok(()) }
}

fn failed(error: StartError) -> Action {
    Action::Done { result: Err(error) }
}

fn poll(service: Service, port: u16, notice: Option<u32>) -> Action {
    Action::CheckHealth { service, port, delay_ms: 500, notice }
}

/// Brings the model service up on its own process: `taken` ports are
/// reported in use, then the launch succeeds and the first check does too.
fn model_ready_after_scan(taken: u16, handle: u32) -> BackendManager {
    let mut manager = BackendManager::new();
    manager.start_ollama();
    manager.advance(Event::Health { ok: false });
    for _ in 0..taken {
        manager.advance(Event::PortProbe { in_use: true });
    }
    manager.advance(Event::PortProbe { in_use: false });
    manager.advance(Event::Spawned { handle });
    assert_eq!(manager.advance(Event::Health { ok: true }), ok());
    manager
}

fn running(model: u32, api: u32) -> BackendManager {
    let mut manager = model_ready_after_scan(0, model);
    manager.start_python_backend();
    manager.advance(Event::Spawned { handle: api });
    assert_eq!(manager.advance(Event::Health { ok: true }), ok());
    manager
}

#[test]
fn new_manager_has_started_nothing() {
    let manager = BackendManager::new();
    assert_eq!(
        manager.snapshot(),
        ManagerState {
            model: ProcessRecord { handle: None, port: 11434, state: ServiceState::NotStarted },
            api: ProcessRecord { handle: None, port: 8000, state: ServiceState::NotStarted },
            phase: Phase::Uninitialized,
            stage: Stage::Idle,
        }
    );
    assert_eq!(API_PORT, 8000);
}

#[test]
fn full_start_and_stop_on_the_preferred_port() {
    let mut manager = BackendManager::new();
    assert_eq!(
        manager.start_ollama(),
        Action::CheckHealth { service: Service::Model, port: 11434, delay_ms: 0, notice: None }
    );
    assert_eq!(manager.snapshot().phase, Phase::Starting);
    assert_eq!(manager.snapshot().model.state, ServiceState::Starting);
    assert_eq!(manager.advance(Event::Health { ok: false }), Action::ProbePort { port: 11434 });
    assert_eq!(
        manager.advance(Event::PortProbe { in_use: false }),
        Action::Spawn { service: Service::Model, port: 11434 }
    );
    assert_eq!(manager.advance(Event::Spawned { handle: 101 }), poll(Service::Model, 11434, None));
    assert_eq!(manager.advance(Event::Health { ok: false }), poll(Service::Model, 11434, Some(0)));
    assert_eq!(manager.advance(Event::Health { ok: true }), ok());
    assert_eq!(manager.snapshot().model.state, ServiceState::Ready);
    assert_eq!(manager.snapshot().phase, Phase::Starting);

    let spawn = manager.start_python_backend();
    assert_eq!(spawn, Action::Spawn { service: Service::Api, port: 11434 });
    assert_eq!(upstream_url(11434), "http://127.0.0.1:11434");
    let spec = api_service(11434, API_PORT, StdioPolicy::Discard);
    assert_eq!(spec.env[0].name, "OLLAMA_API_BASE");
    assert_eq!(spec.env[0].value, "http://127.0.0.1:11434");
    assert_eq!(manager.advance(Event::Spawned { handle: 202 }), poll(Service::Api, 8000, None));
    assert_eq!(manager.advance(Event::Health { ok: true }), ok());
    assert_eq!(manager.snapshot().phase, Phase::Running);
    assert_eq!(manager.snapshot().api.state, ServiceState::Ready);

    assert_eq!(
        manager.stop_all(),
        vec![
            Termination { service: Service::Api, handle: 202 },
            Termination { service: Service::Model, handle: 101 },
        ]
    );
    assert_eq!(manager.snapshot().phase, Phase::Stopping);
    assert_eq!(manager.snapshot().model.state, ServiceState::Stopping);
    assert_eq!(manager.snapshot().api.state, ServiceState::Stopping);
    manager.finish_stop();
    assert_eq!(
        manager.snapshot(),
        ManagerState {
            model: ProcessRecord { handle: None, port: 11434, state: ServiceState::Stopped },
            api: ProcessRecord { handle: None, port: 8000, state: ServiceState::Stopped },
            phase: Phase::Stopped,
            stage: Stage::Idle,
        }
    );
}

#[test]
fn running_instance_is_attached_to_and_not_launched() {
    let mut manager = BackendManager::new();
    manager.start_ollama();
    assert_eq!(manager.advance(Event::Health { ok: true }), ok());
    let state = manager.snapshot();
    assert_eq!(state.model, ProcessRecord { handle: None, port: 11434, state: ServiceState::Ready });
    assert_eq!(state.stage, Stage::Idle);
    assert_eq!(
        manager.start_python_backend(),
        Action::Spawn { service: Service::Api, port: 11434 }
    );
    manager.advance(Event::Spawned { handle: 9 });
    manager.advance(Event::Health { ok: true });
    assert_eq!(manager.stop_all(), vec![Termination { service: Service::Api, handle: 9 }]);
}

#[test]
fn scan_walks_up_to_the_first_free_port() {
    for taken in 0..7u16 {
        let mut manager = BackendManager::new();
        manager.start_ollama();
        let mut action = manager.advance(Event::Health { ok: false });
        for step in 0..taken {
            assert_eq!(action, Action::ProbePort { port: 11434 + step });
            action = manager.advance(Event::PortProbe { in_use: true });
        }
        assert_eq!(action, Action::ProbePort { port: 11434 + taken });
        assert_eq!(
            manager.advance(Event::PortProbe { in_use: false }),
            Action::Spawn { service: Service::Model, port: 11434 + taken }
        );
        assert_eq!(manager.snapshot().model.port, 11434 + taken);
    }
}

#[test]
fn scan_fails_when_the_whole_range_is_taken() {
    let mut manager = BackendManager::new();
    manager.start_ollama();
    manager.advance(Event::Health { ok: false });
    for port in 11435..=11440u16 {
        assert_eq!(manager.advance(Event::PortProbe { in_use: true }), Action::ProbePort { port });
    }
    assert_eq!(
        manager.advance(Event::PortProbe { in_use: true }),
        failed(StartError::PortExhausted { start: 11434, end: 11440 })
    );
    let state = manager.snapshot();
    assert_eq!(state.stage, Stage::Idle);
    assert_eq!(state.model, ProcessRecord { handle: None, port: 11434, state: ServiceState::Starting });
    assert_eq!(manager.stop_all(), Vec::new());
}

#[test]
fn upstream_address_follows_the_fallback_port() {
    let mut manager = model_ready_after_scan(3, 55);
    assert_eq!(manager.snapshot().model.port, 11437);
    assert_eq!(
        manager.start_python_backend(),
        Action::Spawn { service: Service::Api, port: 11437 }
    );
    assert_eq!(upstream_url(11437), "http://127.0.0.1:11437");
    assert_eq!(manager.advance(Event::Spawned { handle: 56 }), poll(Service::Api, 8000, None));
    manager.advance(Event::Health { ok: true });
    assert_eq!(manager.snapshot().model.port, 11437);
    manager.stop_all();
    manager.finish_stop();
    assert_eq!(manager.snapshot().model.port, 11437);
}

#[test]
fn model_timeout_keeps_the_api_service_from_starting() {
    let mut manager = BackendManager::new();
    manager.start_ollama();
    manager.advance(Event::Health { ok: false });
    manager.advance(Event::PortProbe { in_use: true });
    manager.advance(Event::PortProbe { in_use: false });
    manager.advance(Event::Spawned { handle: 7 });
    for attempt in 0..19u32 {
        let notice = if attempt % 4 == 0 { Some(attempt / 2) } else { None };
        assert_eq!(
            manager.advance(Event::Health { ok: false }),
            poll(Service::Model, 11435, notice)
        );
        assert_eq!(
            manager.snapshot().stage,
            Stage::Polling { service: Service::Model, attempt: attempt + 1 }
        );
    }
    assert_eq!(
        manager.advance(Event::Health { ok: false }),
        failed(StartError::ReadinessTimeout { service: Service::Model, port: 11435 })
    );
    assert_eq!(manager.snapshot().model.state, ServiceState::Starting);
    assert_eq!(manager.start_python_backend(), failed(StartError::OutOfOrder));
    assert_eq!(manager.snapshot().api.state, ServiceState::NotStarted);
    assert_eq!(manager.advance(Event::Health { ok: true }), Action::Ignored);
    assert_eq!(manager.snapshot().model.state, ServiceState::Starting);
    assert_eq!(manager.stop_all(), vec![Termination { service: Service::Model, handle: 7 }]);
}

#[test]
fn api_timeout_names_the_api_service() {
    let mut manager = model_ready_after_scan(0, 1);
    manager.start_python_backend();
    manager.advance(Event::Spawned { handle: 2 });
    for _ in 0..19 {
        manager.advance(Event::Health { ok: false });
    }
    assert_eq!(
        manager.advance(Event::Health { ok: false }),
        failed(StartError::ReadinessTimeout { service: Service::Api, port: 8000 })
    );
    assert_eq!(manager.snapshot().phase, Phase::Starting);
    assert_eq!(manager.snapshot().api.state, ServiceState::Starting);
    assert_eq!(
        manager.stop_all(),
        vec![
            Termination { service: Service::Api, handle: 2 },
            Termination { service: Service::Model, handle: 1 },
        ]
    );
}

#[test]
fn last_check_of_the_budget_still_counts() {
    let mut manager = BackendManager::new();
    manager.start_ollama();
    manager.advance(Event::Health { ok: false });
    manager.advance(Event::PortProbe { in_use: false });
    manager.advance(Event::Spawned { handle: 7 });
    for _ in 0..19 {
        manager.advance(Event::Health { ok: false });
    }
    assert_eq!(manager.advance(Event::Health { ok: true }), ok());
    assert_eq!(manager.snapshot().model.state, ServiceState::Ready);
}

#[test]
fn failed_launch_is_reported_by_its_kind() {
    let mut manager = BackendManager::new();
    manager.start_ollama();
    manager.advance(Event::Health { ok: false });
    manager.advance(Event::PortProbe { in_use: false });
    assert_eq!(
        manager.advance(Event::LaunchFailed { reason: LaunchFailure::BinaryNotFound }),
        failed(StartError::BinaryNotFound { service: Service::Model })
    );
    assert_eq!(manager.snapshot().stage, Stage::Idle);
    assert_eq!(manager.snapshot().model.handle, None);

    let mut manager = model_ready_after_scan(0, 1);
    manager.start_python_backend();
    assert_eq!(
        manager.advance(Event::LaunchFailed { reason: LaunchFailure::SpawnFailed }),
        failed(StartError::SpawnFailed { service: Service::Api })
    );
    assert_eq!(manager.snapshot().api.handle, None);
    assert_eq!(manager.snapshot().model.state, ServiceState::Ready);
}

#[test]
fn failure_does_not_stop_what_was_started() {
    let mut manager = model_ready_after_scan(0, 31);
    manager.start_python_backend();
    manager.advance(Event::LaunchFailed { reason: LaunchFailure::BinaryNotFound });
    let state = manager.snapshot();
    assert_eq!(state.model, ProcessRecord { handle: Some(31), port: 11434, state: ServiceState::Ready });
    assert_eq!(manager.stop_all(), vec![Termination { service: Service::Model, handle: 31 }]);
}

#[test]
fn starts_out_of_order_change_nothing() {
    let mut manager = BackendManager::new();
    assert_eq!(manager.start_python_backend(), failed(StartError::OutOfOrder));
    assert_eq!(manager.snapshot(), BackendManager::new().snapshot());

    manager.start_ollama();
    let before = manager.snapshot();
    assert_eq!(manager.start_ollama(), failed(StartError::OutOfOrder));
    assert_eq!(manager.start_python_backend(), failed(StartError::OutOfOrder));
    assert_eq!(manager.snapshot(), before);

    let mut manager = running(1, 2);
    let before = manager.snapshot();
    assert_eq!(manager.start_ollama(), failed(StartError::OutOfOrder));
    assert_eq!(manager.start_python_backend(), failed(StartError::OutOfOrder));
    assert_eq!(manager.snapshot(), before);
}

#[test]
fn events_that_answer_nothing_are_ignored() {
    let mut manager = BackendManager::new();
    assert_eq!(manager.advance(Event::Health { ok: true }), Action::Ignored);
    assert_eq!(manager.advance(Event::Spawned { handle: 3 }), Action::Ignored);
    assert_eq!(manager.snapshot(), BackendManager::new().snapshot());

    manager.start_ollama();
    let before = manager.snapshot();
    assert_eq!(manager.advance(Event::PortProbe { in_use: false }), Action::Ignored);
    assert_eq!(
        manager.advance(Event::LaunchFailed { reason: LaunchFailure::SpawnFailed }),
        Action::Ignored
    );
    assert_eq!(manager.snapshot(), before);
}

#[test]
fn stop_twice_does_nothing_the_second_time() {
    let mut manager = running(11, 12);
    assert_eq!(manager.stop_all().len(), 2);
    manager.finish_stop();
    let stopped = manager.snapshot();
    assert_eq!(stopped.phase, Phase::Stopped);
    assert_eq!(manager.stop_all(), Vec::new());
    manager.finish_stop();
    assert_eq!(manager.snapshot(), stopped);
}

#[test]
fn second_stop_during_a_shutdown_terminates_nothing() {
    let mut manager = running(11, 12);
    assert_eq!(manager.stop_all().len(), 2);
    let stopping = manager.snapshot();
    assert_eq!(manager.stop_all(), Vec::new());
    assert_eq!(manager.snapshot(), stopping);
}

#[test]
fn stop_of_a_fresh_manager_terminates_nothing() {
    let mut manager = BackendManager::new();
    assert_eq!(manager.stop_all(), Vec::new());
    assert_eq!(manager.snapshot().phase, Phase::Stopping);
    assert_eq!(manager.snapshot().model.state, ServiceState::Stopped);
    manager.finish_stop();
    assert_eq!(manager.snapshot().phase, Phase::Stopped);
    assert_eq!(manager.start_ollama(), failed(StartError::OutOfOrder));
}

#[test]
fn stop_in_the_middle_of_polling_drops_the_wait() {
    let mut manager = BackendManager::new();
    manager.start_ollama();
    manager.advance(Event::Health { ok: false });
    manager.advance(Event::PortProbe { in_use: false });
    manager.advance(Event::Spawned { handle: 77 });
    manager.advance(Event::Health { ok: false });
    assert_eq!(manager.stop_all(), vec![Termination { service: Service::Model, handle: 77 }]);
    assert_eq!(manager.snapshot().stage, Stage::Idle);
    assert_eq!(manager.advance(Event::Health { ok: true }), Action::Ignored);
    manager.finish_stop();
    assert_eq!(manager.snapshot().model.state, ServiceState::Stopped);
    assert_eq!(manager.snapshot().api.state, ServiceState::Stopped);
}

#[test]
fn finish_stop_outside_a_shutdown_changes_nothing() {
    let mut manager = running(1, 2);
    let before = manager.snapshot();
    manager.finish_stop();
    assert_eq!(manager.snapshot(), before);
}
