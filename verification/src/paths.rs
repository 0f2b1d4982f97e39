//! Path checks used by the init sequencer's filesystem steps.
//!
//! Masked and readonly paths are a security boundary: a relative entry is
//! rejected before any mount is attempted, and a path whose target turns
//! out not to exist when the kernel resolves it surfaces as a mount
//! failure carrying the kernel's "not found" error number.

use vstd::prelude::*;

use crate::error::{InitProcessError, SyscallError};

verus! {

/// `errno` value for an invalid argument, reported for entries rejected
/// before any kernel call is made.
pub const EINVAL: i32 = 22;

/// A path is absolute when it is non-empty and starts at the filesystem
/// root.
pub open spec fn is_absolute(p: Seq<char>) -> bool {
    p.len() > 0 && p[0] == '/'
}

/// Every path in the sequence is absolute.
pub open spec fn all_absolute(ps: Seq<Seq<char>>) -> bool {
    forall|i: int| 0 <= i < ps.len() ==> is_absolute(#[trigger] ps[i])
}

/// Decides whether `p` is an absolute path.
pub fn check_absolute(p: &String) -> (r: bool)
    ensures
        r == is_absolute(p@),
{
    let s = p.as_str();
    if s.unicode_len() == 0 {
        return false;
    }
    s.get_char(0) == '/'
}

/// Validates the masked-path list before any mount is attempted: a
/// relative entry is a fatal configuration error, reported as a masked
/// path failure with an invalid-argument error number.
pub fn validate_masked_paths(ps: &Vec<String>) -> (r: Result<(), InitProcessError>)
    ensures
        r is Ok <==> all_absolute(ps@.map_values(|p: String| p@)),
        r is Err ==> r == Err::<(), InitProcessError>(
            InitProcessError::MountPathMasked(SyscallError { errno: EINVAL }),
        ),
{
    let ghost views = ps@.map_values(|p: String| p@);
    for i in 0..ps.len()
        invariant
            views == ps@.map_values(|p: String| p@),
            forall|j: int| 0 <= j < i ==> is_absolute(#[trigger] views[j]),
    {
        if !check_absolute(&ps[i]) {
            assert(!is_absolute(views[i as int]));
            return Err(InitProcessError::MountPathMasked(SyscallError { errno: EINVAL }));
        }
    }
    Ok(())
}

/// Validates the readonly-path list the same way; a relative entry is
/// reported as a readonly remount failure.
pub fn validate_readonly_paths(ps: &Vec<String>) -> (r: Result<(), InitProcessError>)
    ensures
        r is Ok <==> all_absolute(ps@.map_values(|p: String| p@)),
        r is Err ==> r == Err::<(), InitProcessError>(
            InitProcessError::MountPathReadonly(SyscallError { errno: EINVAL }),
        ),
{
    let ghost views = ps@.map_values(|p: String| p@);
    for i in 0..ps.len()
        invariant
            views == ps@.map_values(|p: String| p@),
            forall|j: int| 0 <= j < i ==> is_absolute(#[trigger] views[j]),
    {
        if !check_absolute(&ps[i]) {
            assert(!is_absolute(views[i as int]));
            return Err(InitProcessError::MountPathReadonly(SyscallError { errno: EINVAL }));
        }
    }
    Ok(())
}

/// Classifies the outcome the kernel reported for one masked-path mount:
/// success masks the path, and any error number is surfaced unmodified
/// as a masked path failure, so that a dangling target keeps its "not
/// found" error number.
pub fn classify_masked_mount(outcome: Option<i32>) -> (r: Result<(), InitProcessError>)
    ensures
        outcome is None <==> r is Ok,
        outcome matches Some(e) ==> r == Err::<(), InitProcessError>(
            InitProcessError::MountPathMasked(SyscallError { errno: e }),
        ),
{
    match outcome {
        None => Ok(()),
        Some(e) => Err(InitProcessError::MountPathMasked(SyscallError { errno: e })),
    }
}

} // verus!
