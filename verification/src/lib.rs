//! A supervisor core for the two backend services of a desktop application:
//! a model server and the API server that depends on it.
//!
//! The crate performs no input or output. Every operation that touches the
//! outside world is handed to the caller as an [`backend_manager::Action`],
//! and its outcome comes back as an [`backend_manager::Event`]. What the
//! supervisor decides in between is verified.
//!
//! - [`port`]: the first free port of a bounded range.
//! - [`probe`]: a bounded number of health checks.
//! - [`service`]: how each service is launched.
//! - [`text`]: the addresses and paths handed to the services.
//! - [`error`]: why a start-up fails.
//! - [`backend_manager`]: the supervisor's state machine.
//! - [`laws`]: what holds of every run of it.

pub mod backend_manager;
pub mod error;
pub mod laws;
pub mod port;
pub mod probe;
pub mod service;
pub mod text;
