use libcontainer::config::{Linux, Rlimit};
use libcontainer::error::{InitProcessError, RootfsError, SyscallError};
use libcontainer::init::{
    classify_rlimit_outcome, classify_sysctl_outcome, exec_failure, parse_propagation,
    validate_rlimit, validate_rlimits, validate_rootfs_paths, validate_umask, InitSequencer,
    InitStep, RootfsPropagation, EPERM,
};
use libcontainer::paths::{check_absolute, classify_masked_mount, validate_masked_paths, EINVAL};

fn linux_with_paths(masked: Option<Vec<String>>, readonly: Option<Vec<String>>) -> Linux {
    Linux {
        namespaces: None,
        masked_paths: masked,
        readonly_paths: readonly,
        sysctl: vec![],
        rootfs_propagation: None,
    }
}

#[test]
fn sequencer_offers_every_step_once_in_the_required_order() {
    let expected = [
        InitStep::EnterNamespaces,
        InitStep::PrepareRootfs,
        InitStep::ApplyHostSettings,
        InitStep::ConfigureIo,
        InitStep::RunCreateHooks,
        InitStep::ApplyRlimits,
        InitStep::ApplySecurityPolicy,
        InitStep::AwaitStart,
        InitStep::ExecTarget,
    ];
    let mut seq = InitSequencer::new();
    for step in expected {
        assert_eq!(seq.next_step(), Some(step));
        seq.complete_step();
    }
    // after the final replacement no other code path may run
    assert_eq!(seq.next_step(), None);
}

#[test]
fn sequencer_failure_is_terminal_and_keeps_its_cause() {
    let mut seq = InitSequencer::new();
    seq.complete_step();
    let cause = InitProcessError::Sysctl(22);
    seq.fail_step(cause.clone());
    assert_eq!(seq.next_step(), None);
    assert_eq!(seq.failure(), Some(&cause));
}

#[test]
fn relative_masked_path_fails_creation() {
    let l = linux_with_paths(Some(vec!["proc/kcore".to_string()]), None);
    assert_eq!(
        validate_rootfs_paths(&l),
        Err(InitProcessError::MountPathMasked(SyscallError { errno: EINVAL }))
    );
    // a single relative entry among absolute ones is still fatal
    let l2 = linux_with_paths(
        Some(vec!["/proc/kcore".to_string(), "sys/firmware".to_string()]),
        None,
    );
    assert_eq!(
        validate_rootfs_paths(&l2),
        Err(InitProcessError::MountPathMasked(SyscallError { errno: EINVAL }))
    );
}

#[test]
fn relative_readonly_path_fails_creation() {
    let l = linux_with_paths(None, Some(vec!["proc/sys".to_string()]));
    assert_eq!(
        validate_rootfs_paths(&l),
        Err(InitProcessError::MountPathReadonly(SyscallError { errno: EINVAL }))
    );
}

#[test]
fn absolute_masked_and_readonly_paths_are_accepted() {
    let l = linux_with_paths(
        Some(vec!["/proc/kcore".to_string(), "/sys/firmware".to_string()]),
        Some(vec!["/proc/sys".to_string()]),
    );
    assert_eq!(validate_rootfs_paths(&l), Ok(()));
    // absent lists are trivially fine
    assert_eq!(validate_rootfs_paths(&linux_with_paths(None, None)), Ok(()));
}

#[test]
fn dangling_masked_target_surfaces_not_found() {
    // the kernel resolves the path later; a dangling target keeps the
    // "not found" error number
    let enoent = 2;
    assert_eq!(
        classify_masked_mount(Some(enoent)),
        Err(InitProcessError::MountPathMasked(SyscallError { errno: enoent }))
    );
    assert_eq!(classify_masked_mount(None), Ok(()));
}

#[test]
fn masked_path_list_validation_is_exact() {
    assert_eq!(validate_masked_paths(&vec![]), Ok(()));
    assert_eq!(
        validate_masked_paths(&vec!["/a".to_string(), "/b/c".to_string()]),
        Ok(())
    );
    assert!(validate_masked_paths(&vec!["".to_string()]).is_err());
    assert!(check_absolute(&"/x".to_string()));
    assert!(!check_absolute(&"x".to_string()));
    assert!(!check_absolute(&"".to_string()));
}

#[test]
fn rlimit_soft_above_hard_is_a_distinct_invalid_value() {
    assert_eq!(validate_rlimit(100, 50), Err(InitProcessError::InvalidRlimit(EINVAL)));
    assert_eq!(validate_rlimit(50, 100), Ok(()));
    assert_eq!(validate_rlimit(64, 64), Ok(()));
}

#[test]
fn rlimit_list_is_validated_before_any_kernel_call() {
    let nofile = "RlimitNofile".to_string();
    let good = vec![
        Rlimit { typ: nofile.clone(), soft: 1024, hard: 4096 },
        Rlimit { typ: "RlimitNproc".to_string(), soft: 10, hard: 10 },
    ];
    assert_eq!(validate_rlimits(&good), Ok(()));
    let bad = vec![
        Rlimit { typ: nofile.clone(), soft: 1024, hard: 4096 },
        Rlimit { typ: nofile, soft: 4096, hard: 1024 },
    ];
    assert_eq!(
        validate_rlimits(&bad),
        Err(InitProcessError::InvalidRlimit(EINVAL))
    );
    assert_eq!(validate_rlimits(&vec![]), Ok(()));
}

#[test]
fn rlimit_above_kernel_ceiling_is_distinct_from_other_failures() {
    assert_eq!(
        classify_rlimit_outcome(Some(EPERM)),
        Err(InitProcessError::InvalidRlimit(EPERM))
    );
    let eio = 5;
    assert_eq!(
        classify_rlimit_outcome(Some(eio)),
        Err(InitProcessError::SyscallOther(SyscallError { errno: eio }))
    );
    assert_eq!(classify_rlimit_outcome(None), Ok(()));
}

#[test]
fn rejected_sysctl_write_is_a_distinct_error() {
    assert_eq!(classify_sysctl_outcome(Some(22)), Err(InitProcessError::Sysctl(22)));
    assert_eq!(classify_sysctl_outcome(None), Ok(()));
}

#[test]
fn umask_outside_permission_bits_is_invalid() {
    assert_eq!(validate_umask(0o022), Ok(()));
    assert_eq!(validate_umask(0o777), Ok(()));
    assert_eq!(validate_umask(0o1000), Err(InitProcessError::InvalidUmask(0o1000)));
}

#[test]
fn rootfs_propagation_names_resolve_exactly() {
    assert_eq!(parse_propagation(&None), Ok(None));
    assert_eq!(
        parse_propagation(&Some("shared".to_string())),
        Ok(Some(RootfsPropagation::Shared))
    );
    assert_eq!(
        parse_propagation(&Some("private".to_string())),
        Ok(Some(RootfsPropagation::Private))
    );
    assert_eq!(
        parse_propagation(&Some("slave".to_string())),
        Ok(Some(RootfsPropagation::Slave))
    );
    assert_eq!(
        parse_propagation(&Some("unbindable".to_string())),
        Ok(Some(RootfsPropagation::Unbindable))
    );
    assert_eq!(
        parse_propagation(&Some("sideways".to_string())),
        Err(InitProcessError::RootFS(RootfsError { errno: EINVAL }))
    );
}

#[test]
fn exec_failure_names_the_invalid_executable() {
    let e = exec_failure(&"/no/such/bin".to_string());
    assert_eq!(
        e,
        InitProcessError::InvalidExecutable("/no/such/bin".to_string())
    );
}
