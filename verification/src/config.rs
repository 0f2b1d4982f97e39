//! The typed image of the specification document.
//!
//! The document is externally supplied and immutable; these types hold,
//! as plain values, exactly what the creation path reads from it. The
//! process, root and Linux blocks are each optional in the document,
//! and their absence is a fatal configuration error on the init path,
//! not a retryable one.

use vstd::prelude::*;

use crate::namespaces::LinuxNamespace;

verus! {

/// Root filesystem descriptor.
#[derive(Debug)]
pub struct Root {
    pub path: String,
    pub readonly: Option<bool>,
}

/// One POSIX resource limit for the container process.
#[derive(Debug)]
pub struct Rlimit {
    pub typ: String,
    pub soft: u64,
    pub hard: u64,
}

/// Process descriptor: what to execute, with which environment, where.
#[derive(Debug)]
pub struct Process {
    pub args: Vec<String>,
    /// `KEY=VALUE` entries; absence resolves to an empty environment.
    pub env: Option<Vec<String>>,
    pub cwd: String,
    pub terminal: Option<bool>,
    pub rlimits: Vec<Rlimit>,
}

/// One lifecycle hook: a program run synchronously at its designated
/// point, fatal on failure.
#[derive(Debug)]
pub struct Hook {
    pub path: String,
    pub args: Vec<String>,
    pub env: Vec<String>,
    pub timeout: Option<i64>,
}

/// The hook lists run around container creation and start.
#[derive(Debug)]
pub struct Hooks {
    pub create_runtime: Vec<Hook>,
    pub create_container: Vec<Hook>,
    pub start_container: Vec<Hook>,
}

/// Linux-specific block: namespaces, path masking and kernel tunables.
#[derive(Debug)]
pub struct Linux {
    pub namespaces: Option<Vec<LinuxNamespace>>,
    pub masked_paths: Option<Vec<String>>,
    pub readonly_paths: Option<Vec<String>>,
    pub sysctl: Vec<(String, String)>,
    pub rootfs_propagation: Option<String>,
}

/// The specification document, as far as the creation path reads it.
#[derive(Debug)]
pub struct Spec {
    pub process: Option<Process>,
    pub root: Option<Root>,
    pub linux: Option<Linux>,
    pub hooks: Option<Hooks>,
    pub hostname: Option<String>,
    pub domainname: Option<String>,
}

} // verus!
