//! Telemetry bootstrap and graceful-shutdown coordination for a small HTTP
//! service.
//!
//! The library holds the decisions the service makes: encoding collector
//! credentials into a Basic-auth header, validating the settings read from the
//! environment, assembling the trace-pipeline configuration, choosing the
//! verbosity filter, guarding the one-time subscriber installation, and the
//! shutdown state machine that drains the server and flushes the trace
//! pipeline before the process may exit.

pub mod auth;
pub mod handler;
pub mod settings;
pub mod shutdown;
pub mod startup;
pub mod subscriber;
pub mod telemetry;
