//! Error taxonomy of the runtime core, kept as closed sum types per
//! subsystem and composed into one top-level error so that callers can
//! always tell which subsystem failed.
//!
//! Kernel and I/O failures are carried as the raw `errno` value the
//! failing call reported; configuration failures carry the offending
//! value itself.

use vstd::prelude::*;

verus! {

/// A mandatory section of the specification document was absent.
#[derive(Debug, Clone, Copy, PartialEq, Eq, Structural)]
pub enum MissingSpecError {
    Linux,
    Process,
    Root,
}

/// A namespace entry in the specification could not be resolved.
#[derive(Debug, Clone, Copy, PartialEq, Eq, Structural)]
pub enum NamespaceError {
    /// A namespace asked to join an existing path, but the path was not
    /// absolute (or was empty); no kernel call is attempted from such
    /// an entry.
    MalformedPath,
}

/// A raw kernel call failed; `errno` is the error number it reported.
#[derive(Debug, Clone, Copy, PartialEq, Eq, Structural)]
pub struct SyscallError {
    pub errno: i32,
}

/// Failure configuring the controlling terminal.
#[derive(Debug, Clone, Copy, PartialEq, Eq, Structural)]
pub struct TtyError {
    pub errno: i32,
}

/// A lifecycle hook exited with a non-zero status.
#[derive(Debug, Clone, Copy, PartialEq, Eq, Structural)]
pub struct HookError {
    pub exit_code: i32,
}

/// Failure preparing the root filesystem (bind or pivot).
#[derive(Debug, Clone, Copy, PartialEq, Eq, Structural)]
pub struct RootfsError {
    pub errno: i32,
}

/// Failure applying the mandatory-access-control label.
#[derive(Debug, Clone, Copy, PartialEq, Eq, Structural)]
pub struct AppArmorError {
    pub errno: i32,
}

/// Failure on the notify rendezvous socket.
#[derive(Debug, Clone, Copy, PartialEq, Eq, Structural)]
pub struct NotifyListenerError {
    pub errno: i32,
}

/// Failure on the synchronization channel between two processes.
#[derive(Debug, Clone, Copy, PartialEq, Eq, Structural)]
pub enum ChannelError {
    /// The peer exited without sending a final message; distinguishable
    /// from an explicit error report, and itself a protocol failure.
    BrokenChannel,
    /// The peer sent a message that the protocol does not allow at the
    /// current handshake step.
    UnexpectedMessage,
}

/// Everything that can go wrong on the init process's setup path.
///
/// Each variant names the step or subsystem that failed, so the managing
/// process can frame the user-visible failure without losing the cause.
#[derive(Debug, Clone, PartialEq, Eq)]
pub enum InitProcessError {
    /// A sysctl write was rejected; distinct from other I/O failures so
    /// callers can tell an unsupported kernel surface apart.
    Sysctl(i32),
    /// A readonly-path remount failed.
    MountPathReadonly(SyscallError),
    /// A masked-path mount failed, or the path was rejected before any
    /// mount was attempted.
    MountPathMasked(SyscallError),
    Namespaces(NamespaceError),
    SetHostname(SyscallError),
    SetDomainname(SyscallError),
    ReopenDevNull(i32),
    /// A kernel call outside the named categories failed.
    NixOther(i32),
    MissingSpec(MissingSpecError),
    Tty(TtyError),
    Hooks(HookError),
    RootFS(RootfsError),
    SyscallOther(SyscallError),
    AppArmor(AppArmorError),
    InvalidUmask(u32),
    /// The target binary could not be located or executed.
    InvalidExecutable(String),
    Io(i32),
    Channel(ChannelError),
    SetGroupDisabled,
    NotifyListener(NotifyListenerError),
    /// A requested rlimit was out of the kernel's configured range.
    InvalidRlimit(i32),
    IoPriorityClass(String),
    SchedSetattr(String),
    InvalidCwd(i32),
    NoLinux,
    NoProcess,
}

} // verus!
