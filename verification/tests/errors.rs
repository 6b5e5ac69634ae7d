use baby_ai::error::StartError;
use baby_ai::service::Service;

#[test]
fn message_of_a_missing_binary() {
    assert_eq!(
        StartError::BinaryNotFound { service: Service::Model }.message(),
        "Bundled Ollama binary not found"
    );
    assert_eq!(
        StartError::BinaryNotFound { service: Service::Api }.message(),
        "Bundled backend not found"
    );
}

#[test]
fn message_of_an_exhausted_range() {
    assert_eq!(
        StartError::PortExhausted { start: 11434, end: 11440 }.message(),
        "No free ports found between 11434 and 11440"
    );
}

#[test]
fn message_of_a_failed_launch() {
    assert_eq!(StartError::SpawnFailed { service: Service::Model }.message(), "Failed to start Ollama");
    assert_eq!(
        StartError::SpawnFailed { service: Service::Api }.message(),
        "Failed to start Python backend"
    );
}

#[test]
fn message_of_a_timeout() {
    assert_eq!(
        StartError::ReadinessTimeout { service: Service::Model, port: 11435 }.message(),
        "Ollama failed to start within 10 seconds on port 11435"
    );
    assert_eq!(
        StartError::ReadinessTimeout { service: Service::Api, port: 8000 }.message(),
        "Python backend failed to start within 10 seconds"
    );
}

#[test]
fn message_of_a_call_out_of_order() {
    assert_eq!(StartError::OutOfOrder.message(), "Operation not allowed in the current phase");
}
