//! Process-creation and lifecycle core of an OCI-style container runtime.
//!
//! The crate models the pieces an orchestrator depends on: resolving a
//! container specification into a typed execution context, the message
//! protocol between the managing process and its forked descendants, the
//! ordered setup sequence run by the init process, and the externally
//! observable container lifecycle state machine with its exact legality
//! rules for create, start, kill and delete.

pub mod channel;
pub mod config;
pub mod container;
pub mod context;
pub mod env;
pub mod error;
pub mod init;
pub mod main_process;
pub mod namespaces;
pub mod notify;
pub mod paths;
