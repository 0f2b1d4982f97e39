//! Derivation of the execution context for one creation attempt.
//!
//! Given the specification and the already-computed root filesystem
//! path, produce the typed context the init sequencer works from, or
//! fail with a named configuration error identifying exactly which
//! mandatory section is missing. The context is owned for the lifetime
//! of one attempt and never shared across containers.

use vstd::prelude::*;

use crate::config::{Hooks, Linux, Process, Spec};
use crate::container::Container;
use crate::env::{env_entry_views, env_map_of, parse_env, EnvMap};
use crate::error::{InitProcessError, MissingSpecError, NamespaceError, RootfsError, SyscallError};
use crate::init::{
    masked_paths_ok, parse_propagation, propagation_of, readonly_paths_ok, rlimits_ok,
    validate_rlimits, validate_rootfs_paths,
};
use crate::namespaces::{all_ns_valid, ns_map_of, LinuxNamespace, NamespaceType, Namespaces};
use crate::notify::NotifyBarrier;
use crate::paths::EINVAL;

verus! {

/// Everything one container-creation attempt hands to the init path.
pub struct ContainerArgs {
    /// The specification document.
    pub container_spec: Spec,
    /// The resolved root filesystem path.
    pub rootfs: String,
    /// The start rendezvous, bound before any descendant is spawned.
    pub notify_listener: NotifyBarrier,
    /// The in-memory record of the container being created, when one
    /// exists already.
    pub container: Option<Container>,
}

/// The declared namespace entries, or nothing when the block lists
/// none.
pub open spec fn spec_ns_list(l: Linux) -> Option<Seq<LinuxNamespace>> {
    match l.namespaces {
        Some(v) => Some(v@),
        None => None,
    }
}

/// The env entries the context resolves: the process's list, or empty.
pub open spec fn spec_env_list(p: Process) -> Seq<String> {
    match p.env {
        Some(es) => es@,
        None => Seq::empty(),
    }
}

/// The effective readonly flag of the root filesystem.
pub open spec fn spec_rootfs_ro(r: crate::config::Root) -> bool {
    match r.readonly {
        Some(b) => b,
        None => false,
    }
}

/// The namespace entries of the document are all well formed.
pub open spec fn spec_ns_ok(l: Linux) -> bool {
    match l.namespaces {
        Some(v) => all_ns_valid(v@),
        None => true,
    }
}

/// The typed execution context derived from the specification.
pub struct InitContext<'a> {
    pub container_spec: &'a Spec,
    pub linux: &'a Linux,
    pub process: &'a Process,
    pub rootfs: &'a String,
    /// Resolved environment: keys unique, last write wins.
    pub envs: EnvMap,
    /// Resolved namespace set.
    pub ns: Namespaces,
    pub notify_listener: &'a NotifyBarrier,
    pub hooks: Option<&'a Hooks>,
    pub container: Option<&'a Container>,
    /// Effective readonly flag of the root filesystem.
    pub rootfs_ro: bool,
}

impl<'a> InitContext<'a> {
    /// Derives the execution context, or fails with the name of
    /// exactly the first mandatory section that is missing (Linux,
    /// then process, then root), or with a namespace error when an
    /// entry is malformed — before any kernel call is made.
    pub fn try_from(args: &'a ContainerArgs) -> (r: Result<InitContext<'a>, InitProcessError>)
        ensures
            args.container_spec.linux is None ==> r == Err::<InitContext<'a>, InitProcessError>(
                InitProcessError::MissingSpec(MissingSpecError::Linux),
            ),
            args.container_spec.linux is Some && args.container_spec.process is None ==> r
                == Err::<InitContext<'a>, InitProcessError>(
                InitProcessError::MissingSpec(MissingSpecError::Process),
            ),
            args.container_spec.linux is Some && args.container_spec.process is Some
                && args.container_spec.root is None ==> r == Err::<
                InitContext<'a>,
                InitProcessError,
            >(InitProcessError::MissingSpec(MissingSpecError::Root)),
            args.container_spec.linux is Some && args.container_spec.process is Some
                && args.container_spec.root is Some ==> {
                &&& r is Ok <==> spec_ns_ok(args.container_spec.linux->0)
                &&& r is Err ==> r == Err::<InitContext<'a>, InitProcessError>(
                    InitProcessError::Namespaces(NamespaceError::MalformedPath),
                )
            },
            r matches Ok(ctx) ==> {
                &&& *ctx.container_spec == args.container_spec
                &&& *ctx.linux == args.container_spec.linux->0
                &&& *ctx.process == args.container_spec.process->0
                &&& *ctx.rootfs == args.rootfs
                &&& ctx.envs.wf()
                &&& ctx.envs@ == env_map_of(
                    env_entry_views(spec_env_list(args.container_spec.process->0)),
                )
                &&& ctx.ns.wf()
                &&& ctx.ns@ == (match spec_ns_list(args.container_spec.linux->0) {
                    Some(v) => ns_map_of(v),
                    None => Map::<NamespaceType, Option<Seq<char>>>::empty(),
                })
                &&& *ctx.notify_listener == args.notify_listener
                &&& (ctx.hooks is Some <==> args.container_spec.hooks is Some)
                &&& (ctx.hooks matches Some(h) ==> *h == args.container_spec.hooks->0)
                &&& (ctx.container is Some <==> args.container is Some)
                &&& (ctx.container matches Some(c) ==> *c == args.container->0)
                &&& ctx.rootfs_ro == spec_rootfs_ro(args.container_spec.root->0)
            },
    {
        let linux = match &args.container_spec.linux {
            Some(l) => l,
            None => {
                return Err(InitProcessError::MissingSpec(MissingSpecError::Linux));
            },
        };
        let process = match &args.container_spec.process {
            Some(p) => p,
            None => {
                return Err(InitProcessError::MissingSpec(MissingSpecError::Process));
            },
        };
        let root = match &args.container_spec.root {
            Some(rt) => rt,
            None => {
                return Err(InitProcessError::MissingSpec(MissingSpecError::Root));
            },
        };
        let empty_env: Vec<String> = Vec::new();
        let env_list: &Vec<String> = match &process.env {
            Some(es) => es,
            None => &empty_env,
        };
        proof {
            if process.env is None {
                assert(empty_env@ =~= spec_env_list(*process));
            }
        }
        let envs = parse_env(env_list);
        let ns = match Namespaces::try_from(
            match &linux.namespaces {
                Some(v) => Some(v),
                None => None,
            },
        ) {
            Ok(ns) => ns,
            Err(_) => {
                return Err(InitProcessError::Namespaces(NamespaceError::MalformedPath));
            },
        };
        let rootfs_ro = match root.readonly {
            Some(b) => b,
            None => false,
        };
        Ok(
            InitContext {
                container_spec: &args.container_spec,
                linux,
                process,
                rootfs: &args.rootfs,
                envs,
                ns,
                notify_listener: &args.notify_listener,
                hooks: match &args.container_spec.hooks {
                    Some(h) => Some(h),
                    None => None,
                },
                container: match &args.container {
                    Some(c) => Some(c),
                    None => None,
                },
                rootfs_ro,
            },
        )
    }

    /// The declared rootfs propagation mode resolves to a known name,
    /// or is absent.
    pub open spec fn propagation_known(&self) -> bool {
        match self.linux.rootfs_propagation {
            Some(s) => propagation_of(s@) is Some,
            None => true,
        }
    }

    /// Everything the document alone decides is checked here, before
    /// any fork or kernel call: masked and readonly paths, resource
    /// limits, and the rootfs propagation name. A failure here leaves
    /// no partial container state behind, because nothing was started.
    pub fn validate(&self) -> (r: Result<(), InitProcessError>)
        ensures
            r is Ok <==> masked_paths_ok(*self.linux) && readonly_paths_ok(*self.linux)
                && rlimits_ok(self.process.rlimits@) && self.propagation_known(),
            !masked_paths_ok(*self.linux) ==> r == Err::<(), InitProcessError>(
                InitProcessError::MountPathMasked(SyscallError { errno: EINVAL }),
            ),
            masked_paths_ok(*self.linux) && !readonly_paths_ok(*self.linux) ==> r == Err::<
                (),
                InitProcessError,
            >(InitProcessError::MountPathReadonly(SyscallError { errno: EINVAL })),
            masked_paths_ok(*self.linux) && readonly_paths_ok(*self.linux) && !rlimits_ok(
                self.process.rlimits@,
            ) ==> r == Err::<(), InitProcessError>(InitProcessError::InvalidRlimit(EINVAL)),
            masked_paths_ok(*self.linux) && readonly_paths_ok(*self.linux) && rlimits_ok(
                self.process.rlimits@,
            ) && !self.propagation_known() ==> r == Err::<(), InitProcessError>(
                InitProcessError::RootFS(RootfsError { errno: EINVAL }),
            ),
    {
        validate_rootfs_paths(self.linux)?;
        validate_rlimits(&self.process.rlimits)?;
        match parse_propagation(&self.linux.rootfs_propagation) {
            Ok(_) => Ok(()),
            Err(e) => Err(e),
        }
    }
}

} // verus!
