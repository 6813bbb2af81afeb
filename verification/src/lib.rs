//! A small network service process that exposes one persisted counter through
//! two concurrent protocol surfaces: an HTTP health endpoint and an RPC
//! service. This crate holds the verified core of that process: the pure
//! request/response logic, the configuration and connection-string rules, and
//! the lifecycle state machines (bounded connect retry, graceful RPC drain,
//! and the supervisor that starts two servers, races them, and tears the
//! process down closing the connection pool exactly once).
//!
//! The I/O shell (sockets, database driver, signal handling) lives outside
//! this crate and drives these state machines event by event.

pub mod config;
pub mod connect;
pub mod counter;
pub mod errors;
pub mod messages;
pub mod process;
pub mod rpc;
pub mod supervisor;
