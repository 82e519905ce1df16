//! Control-plane policy of the reference daemon: request admission,
//! authentication, failure classification, fault injection, logging and
//! telemetry configuration, and the offline reference workload's configuration.
pub mod text;
pub mod admission;
pub mod auth;
pub mod fault;
pub mod logging;
pub mod telemetry;
pub mod errors;
pub mod simulation;
