//! Why a start-up did not succeed.

use vstd::prelude::*;
use crate::service::Service;
use crate::text::{decimal, decimal_text};

verus! {

/// A failure of the start-up sequence. Each one is fatal to the launch.
#[derive(Clone, Copy, Debug, PartialEq, Eq)]
pub enum StartError {
    /// None of the candidate executables of the service exists.
    BinaryNotFound { service: Service },
    /// Every port from `start` to `end`, both included, is taken.
    PortExhausted { start: u16, end: u16 },
    /// The operating system refused to launch the service.
    SpawnFailed { service: Service },
    /// The service answered none of its health checks; `port` is where they went.
    ReadinessTimeout { service: Service, port: u16 },
    /// The operation is not allowed in the supervisor's current phase.
    OutOfOrder,
}

/// The line that tells a person about `error`.
pub open spec fn message_of(error: StartError) -> Seq<char> {
    match error {
        StartError::BinaryNotFound { service: Service::Model } => "Bundled Ollama binary not found"@,
        StartError::BinaryNotFound { service: Service::Api } => "Bundled backend not found"@,
        StartError::PortExhausted { start, end } => "No free ports found between "@ + decimal(
            start as nat,
        ) + " and "@ + decimal(end as nat),
        StartError::SpawnFailed { service: Service::Model } => "Failed to start Ollama"@,
        StartError::SpawnFailed { service: Service::Api } => "Failed to start Python backend"@,
        StartError::ReadinessTimeout { service: Service::Model, port } =>
            "Ollama failed to start within 10 seconds on port "@ + decimal(port as nat),
        StartError::ReadinessTimeout { service: Service::Api, port } =>
            "Python backend failed to start within 10 seconds"@,
        StartError::OutOfOrder => "Operation not allowed in the current phase"@,
    }
}

impl StartError {
    /// Renders the error as one line of text. See [`message_of`].
    pub fn message(&self) -> (text: String)
        ensures
            text@ == message_of(*self),
    {
        match *self {
            StartError::BinaryNotFound { service: Service::Model } => String::from_str(
                "Bundled Ollama binary not found",
            ),
            StartError::BinaryNotFound { service: Service::Api } => String::from_str(
                "Bundled backend not found",
            ),
            StartError::PortExhausted { start, end } => {
                let mut text = String::from_str("No free ports found between ");
                text.append(decimal_text(start).as_str());
                text.append(" and ");
                text.append(decimal_text(end).as_str());
                text
            },
            StartError::SpawnFailed { service: Service::Model } => String::from_str(
                "Failed to start Ollama",
            ),
            StartError::SpawnFailed { service: Service::Api } => String::from_str(
                "Failed to start Python backend",
            ),
            StartError::ReadinessTimeout { service: Service::Model, port } => {
                let mut text = String::from_str(
                    "Ollama failed to start within 10 seconds on port ",
                );
                text.append(decimal_text(port).as_str());
                text
            },
            StartError::ReadinessTimeout { service: Service::Api, port } => String::from_str(
                "Python backend failed to start within 10 seconds",
            ),
            StartError::OutOfOrder => String::from_str("Operation not allowed in the current phase"),
        }
    }
}

} // verus!
