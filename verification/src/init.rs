//! The init sequencer: the ordered setup run inside the final container
//! process.
//!
//! Kernel operations on this path are not transactional, so the order
//! is fixed and each step runs exactly once: namespaces, root
//! filesystem (with masked and readonly paths), hostname and sysctls,
//! standard streams, creation hooks, resource limits, the security
//! policy, the start barrier, and finally the irreversible in-place
//! replacement. Any failure is terminal: it is reported over the
//! channel and no later step is offered. The sequencer here decides;
//! the process around it performs each step and reports the outcome.

use vstd::prelude::*;

use vstd::string::StringExecFns;

use crate::config::{Linux, Rlimit};
use crate::error::{InitProcessError, RootfsError, SyscallError};
use crate::paths::{all_absolute, validate_masked_paths, validate_readonly_paths, EINVAL};

verus! {

/// Every masked path of the block is absolute (an absent list is
/// trivially fine).
pub open spec fn masked_paths_ok(l: Linux) -> bool {
    match l.masked_paths {
        Some(v) => all_absolute(v@.map_values(|p: String| p@)),
        None => true,
    }
}

/// Every readonly path of the block is absolute.
pub open spec fn readonly_paths_ok(l: Linux) -> bool {
    match l.readonly_paths {
        Some(v) => all_absolute(v@.map_values(|p: String| p@)),
        None => true,
    }
}

/// Validates the masked- and readonly-path configuration before any
/// mount is attempted: one relative entry in either list makes the
/// whole creation fail. This is a security boundary, not a
/// convenience feature.
pub fn validate_rootfs_paths(l: &Linux) -> (r: Result<(), InitProcessError>)
    ensures
        r is Ok <==> masked_paths_ok(*l) && readonly_paths_ok(*l),
        !masked_paths_ok(*l) ==> r == Err::<(), InitProcessError>(
            InitProcessError::MountPathMasked(SyscallError { errno: EINVAL }),
        ),
        masked_paths_ok(*l) && !readonly_paths_ok(*l) ==> r == Err::<(), InitProcessError>(
            InitProcessError::MountPathReadonly(SyscallError { errno: EINVAL }),
        ),
{
    if let Some(masked) = &l.masked_paths {
        validate_masked_paths(masked)?;
    }
    if let Some(readonly) = &l.readonly_paths {
        validate_readonly_paths(readonly)?;
    }
    Ok(())
}

/// `errno` value for an operation the caller may not perform, as the
/// kernel reports for a limit above its configured ceiling.
pub const EPERM: i32 = 1;

/// Widest permission mask a umask can hold.
pub const UMASK_MAX: u32 = 0o777;

/// The setup steps, in their required order.
#[derive(Debug, Clone, Copy, PartialEq, Eq, Structural)]
pub enum InitStep {
    /// Enter or create the declared namespaces.
    EnterNamespaces,
    /// Bind or pivot to the new root, apply the propagation mode and
    /// the masked and readonly paths.
    PrepareRootfs,
    /// Set hostname and domainname if namespaced; write the declared
    /// sysctls.
    ApplyHostSettings,
    /// Configure the controlling terminal, or reopen the standard
    /// streams against the null device.
    ConfigureIo,
    /// Run the create-runtime and create-container hooks.
    RunCreateHooks,
    /// Apply the declared resource limits.
    ApplyRlimits,
    /// Fix the capability bounding set, then install the security
    /// filter last, so the sequencer's own remaining calls are not
    /// filtered.
    ApplySecurityPolicy,
    /// Block on the start rendezvous until the external start command.
    AwaitStart,
    /// The irreversible in-place replacement into the target
    /// executable.
    ExecTarget,
}

/// How many steps the sequence has.
pub const STEP_COUNT: usize = 9;

/// The step standing at position `i` of the required order.
pub open spec fn step_at(i: int) -> InitStep {
    if i == 0 {
        InitStep::EnterNamespaces
    } else if i == 1 {
        InitStep::PrepareRootfs
    } else if i == 2 {
        InitStep::ApplyHostSettings
    } else if i == 3 {
        InitStep::ConfigureIo
    } else if i == 4 {
        InitStep::RunCreateHooks
    } else if i == 5 {
        InitStep::ApplyRlimits
    } else if i == 6 {
        InitStep::ApplySecurityPolicy
    } else if i == 7 {
        InitStep::AwaitStart
    } else {
        InitStep::ExecTarget
    }
}

/// Position of the security-policy step; from the step after it on,
/// the sequence can no longer be cancelled.
pub const SECURITY_POLICY_INDEX: usize = 6;

/// The sequencer's state: how many steps completed, and the terminal
/// failure if one step failed.
pub struct InitSequencer {
    pub done: usize,
    pub failed: Option<InitProcessError>,
}

impl InitSequencer {
    pub open spec fn wf(&self) -> bool {
        self.done <= STEP_COUNT
    }

    /// The managing process may still abort and reap: nothing ran yet
    /// past the security-policy step, and no step failed (a failed
    /// sequencer is already terminal and reports its error instead).
    pub open spec fn cancellable(&self) -> bool {
        self.failed is None && self.done <= SECURITY_POLICY_INDEX
    }

    pub fn new() -> (r: InitSequencer)
        ensures
            r.wf(),
            r.done == 0,
            r.failed is None,
    {
        InitSequencer { done: 0, failed: None }
    }

    /// The next step owed: exactly the first step not yet completed.
    /// After a failure, or after the final replacement, no step is
    /// offered — no other code path may run.
    pub fn next_step(&self) -> (r: Option<InitStep>)
        requires
            self.wf(),
        ensures
            self.failed is Some || self.done == STEP_COUNT ==> r is None,
            self.failed is None && self.done < STEP_COUNT ==> r == Some(step_at(self.done as int)),
    {
        if self.failed.is_some() || self.done == STEP_COUNT {
            None
        } else {
            let s = match self.done {
                0 => InitStep::EnterNamespaces,
                1 => InitStep::PrepareRootfs,
                2 => InitStep::ApplyHostSettings,
                3 => InitStep::ConfigureIo,
                4 => InitStep::RunCreateHooks,
                5 => InitStep::ApplyRlimits,
                6 => InitStep::ApplySecurityPolicy,
                7 => InitStep::AwaitStart,
                _ => InitStep::ExecTarget,
            };
            Some(s)
        }
    }

    /// Records that the offered step completed.
    pub fn complete_step(&mut self)
        requires
            old(self).wf(),
            old(self).failed is None,
            old(self).done < STEP_COUNT,
        ensures
            final(self).wf(),
            final(self).done == old(self).done + 1,
            final(self).failed is None,
    {
        self.done = self.done + 1;
    }

    /// Records that the offered step failed. The failure is terminal:
    /// the cause is kept for the report over the channel, and no
    /// further step will be offered.
    pub fn fail_step(&mut self, cause: InitProcessError)
        requires
            old(self).wf(),
            old(self).failed is None,
            old(self).done < STEP_COUNT,
        ensures
            final(self).wf(),
            final(self).done == old(self).done,
            final(self).failed == Some(cause),
    {
        self.failed = Some(cause);
    }

    /// The structured cause to report over the channel before exit,
    /// once a step failed.
    pub fn failure(&self) -> (r: Option<&InitProcessError>)
        ensures
            r is Some <==> self.failed is Some,
            r matches Some(e) ==> self.failed == Some(*e),
    {
        self.failed.as_ref()
    }
}

/// Each position of the order names a different step, so completing
/// positions one by one runs every step exactly once, in the required
/// order.
pub proof fn lemma_step_order_injective(i: int, j: int)
    requires
        0 <= i < STEP_COUNT,
        0 <= j < STEP_COUNT,
        i != j,
    ensures
        step_at(i) != step_at(j),
{
}

/// Past the security-policy step the sequence is not cancellable, and
/// it never becomes cancellable again: completing or failing a step
/// preserves that.
pub proof fn lemma_commit_is_terminal(pre: InitSequencer, post: InitSequencer)
    requires
        pre.wf(),
        post.wf(),
        !pre.cancellable(),
        post.done >= pre.done,
        pre.failed is Some ==> post.failed == pre.failed,
    ensures
        !post.cancellable(),
{
}

/// Validates one declared resource limit before the kernel is asked: a
/// soft limit above the hard limit is an invalid value, surfaced as a
/// distinct error rather than a generic I/O failure.
pub fn validate_rlimit(soft: u64, hard: u64) -> (r: Result<(), InitProcessError>)
    ensures
        r is Ok <==> soft <= hard,
        r is Err ==> r == Err::<(), InitProcessError>(
            InitProcessError::InvalidRlimit(crate::paths::EINVAL),
        ),
{
    if soft <= hard {
        Ok(())
    } else {
        Err(InitProcessError::InvalidRlimit(crate::paths::EINVAL))
    }
}

/// How mount events propagate between the new root and the rest of
/// the system.
#[derive(Debug, Clone, Copy, PartialEq, Eq, Structural)]
pub enum RootfsPropagation {
    Shared,
    Private,
    Slave,
    Unbindable,
}

/// The propagation mode a declared name denotes, if any.
pub open spec fn propagation_of(s: Seq<char>) -> Option<RootfsPropagation> {
    if s == "shared"@ {
        Some(RootfsPropagation::Shared)
    } else if s == "private"@ {
        Some(RootfsPropagation::Private)
    } else if s == "slave"@ {
        Some(RootfsPropagation::Slave)
    } else if s == "unbindable"@ {
        Some(RootfsPropagation::Unbindable)
    } else {
        None
    }
}

/// Resolves the declared rootfs propagation mode: an absent entry
/// keeps the kernel's default, and an unknown name is a fatal
/// configuration error before any mount is attempted.
pub fn parse_propagation(declared: &Option<String>) -> (r: Result<
    Option<RootfsPropagation>,
    InitProcessError,
>)
    ensures
        declared is None ==> r == Ok::<Option<RootfsPropagation>, InitProcessError>(None),
        declared matches Some(s) ==> r == (match propagation_of(s@) {
            Some(p) => Ok::<Option<RootfsPropagation>, InitProcessError>(Some(p)),
            None => Err::<Option<RootfsPropagation>, InitProcessError>(
                InitProcessError::RootFS(RootfsError { errno: EINVAL }),
            ),
        }),
{
    let s = match declared {
        None => {
            return Ok(None);
        },
        Some(s) => s,
    };
    if s.eq(&String::from_str("shared")) {
        Ok(Some(RootfsPropagation::Shared))
    } else if s.eq(&String::from_str("private")) {
        Ok(Some(RootfsPropagation::Private))
    } else if s.eq(&String::from_str("slave")) {
        Ok(Some(RootfsPropagation::Slave))
    } else if s.eq(&String::from_str("unbindable")) {
        Ok(Some(RootfsPropagation::Unbindable))
    } else {
        Err(InitProcessError::RootFS(RootfsError { errno: EINVAL }))
    }
}

/// Every declared limit keeps its soft value within its hard value.
pub open spec fn rlimits_ok(rs: Seq<Rlimit>) -> bool {
    forall|i: int| 0 <= i < rs.len() ==> (#[trigger] rs[i]).soft <= rs[i].hard
}

/// Validates the declared resource limits as a whole, before the
/// kernel is asked to apply any of them.
pub fn validate_rlimits(rs: &Vec<Rlimit>) -> (r: Result<(), InitProcessError>)
    ensures
        r is Ok <==> rlimits_ok(rs@),
        r is Err ==> r == Err::<(), InitProcessError>(InitProcessError::InvalidRlimit(EINVAL)),
{
    let n = rs.len();
    for i in 0..n
        invariant
            n == rs.len(),
            forall|j: int| 0 <= j < i ==> (#[trigger] rs@[j]).soft <= rs@[j].hard,
    {
        validate_rlimit(rs[i].soft, rs[i].hard)?;
    }
    Ok(())
}

/// Classifies the kernel's answer to one rlimit application: a
/// permission error means the requested limit exceeded the kernel's
/// configured ceiling and surfaces as the distinct out-of-range error;
/// any other error number is a plain kernel failure.
pub fn classify_rlimit_outcome(outcome: Option<i32>) -> (r: Result<(), InitProcessError>)
    ensures
        r is Ok <==> outcome is None,
        outcome matches Some(e) ==> r == (if e == EPERM {
            Err::<(), InitProcessError>(InitProcessError::InvalidRlimit(EPERM))
        } else {
            Err::<(), InitProcessError>(InitProcessError::SyscallOther(SyscallError { errno: e }))
        }),
{
    match outcome {
        None => Ok(()),
        Some(e) => {
            if e == EPERM {
                Err(InitProcessError::InvalidRlimit(EPERM))
            } else {
                Err(InitProcessError::SyscallOther(SyscallError { errno: e }))
            }
        },
    }
}

/// Classifies the kernel's answer to one sysctl write: a rejected
/// write surfaces as the distinct sysctl error, so callers can tell an
/// unsupported kernel surface from other I/O failures.
pub fn classify_sysctl_outcome(outcome: Option<i32>) -> (r: Result<(), InitProcessError>)
    ensures
        r is Ok <==> outcome is None,
        outcome matches Some(e) ==> r == Err::<(), InitProcessError>(InitProcessError::Sysctl(e)),
{
    match outcome {
        None => Ok(()),
        Some(e) => Err(InitProcessError::Sysctl(e)),
    }
}

/// Validates a declared umask: only the permission bits may be set.
pub fn validate_umask(umask: u32) -> (r: Result<(), InitProcessError>)
    ensures
        r is Ok <==> umask <= UMASK_MAX,
        r is Err ==> r == Err::<(), InitProcessError>(InitProcessError::InvalidUmask(umask)),
{
    if umask <= UMASK_MAX {
        Ok(())
    } else {
        Err(InitProcessError::InvalidUmask(umask))
    }
}

/// The error for a target executable that could not be located or
/// executed: an invalid-executable condition naming the program,
/// distinct from the other fatal categories. The replacement already
/// failed at this point, so the process must exit non-zero — this
/// value is what it reports first.
pub fn exec_failure(program: &String) -> (r: InitProcessError)
    ensures
        r matches InitProcessError::InvalidExecutable(p) && p@ == program@,
{
    InitProcessError::InvalidExecutable(program.clone())
}

} // verus!
