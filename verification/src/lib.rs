//! A verified request handler that reads three named configuration values
//! (a log level, a platform name, a secret), prepares one log line for each,
//! and builds a fixed-format plain-text response embedding the platform name.
//!
//! The host environment owns the configuration store and performs all I/O;
//! this library holds the handler's decision logic, verified end to end.

pub mod config;
pub mod handler;

pub use config::{ConfigError, ConfigStore};
pub use handler::{format_log_line, handle, HandlerOutput, Request, Response};
