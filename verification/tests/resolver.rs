use libcontainer::config::{Linux, Process, Rlimit, Root, Spec};
use libcontainer::container::{Container, ContainerStatus};
use libcontainer::context::{ContainerArgs, InitContext};
use libcontainer::env::{parse_env, parse_env_entry};
use libcontainer::error::{
    InitProcessError, MissingSpecError, NamespaceError, RootfsError, SyscallError,
};
use libcontainer::namespaces::{LinuxNamespace, NamespaceType, Namespaces};
use libcontainer::notify::NotifyBarrier;

fn sample_process(env: Option<Vec<String>>) -> Process {
    Process {
        args: vec!["/bin/sh".to_string()],
        env,
        cwd: "/".to_string(),
        terminal: None,
        rlimits: vec![],
    }
}

fn sample_linux(namespaces: Option<Vec<LinuxNamespace>>) -> Linux {
    Linux {
        namespaces,
        masked_paths: None,
        readonly_paths: None,
        sysctl: vec![],
        rootfs_propagation: None,
    }
}

fn sample_root(readonly: Option<bool>) -> Root {
    Root { path: "/run/c/rootfs".to_string(), readonly }
}

fn sample_args(spec: Spec) -> ContainerArgs {
    ContainerArgs {
        container_spec: spec,
        rootfs: "/run/c/rootfs".to_string(),
        notify_listener: NotifyBarrier::bind(),
        container: None,
    }
}

#[test]
fn env_entry_splits_at_first_equals() {
    assert_eq!(
        parse_env_entry(&"FOO=bar".to_string()),
        Some(("FOO".to_string(), "bar".to_string()))
    );
    assert_eq!(
        parse_env_entry(&"A=b=c".to_string()),
        Some(("A".to_string(), "b=c".to_string()))
    );
    assert_eq!(
        parse_env_entry(&"KEY=".to_string()),
        Some(("KEY".to_string(), "".to_string()))
    );
    assert_eq!(
        parse_env_entry(&"=v".to_string()),
        Some(("".to_string(), "v".to_string()))
    );
    assert_eq!(parse_env_entry(&"no-equals".to_string()), None);
    assert_eq!(parse_env_entry(&"".to_string()), None);
}

#[test]
fn env_duplicate_key_keeps_exactly_one_entry_with_last_value() {
    let entries = vec![
        "PATH=/usr/bin".to_string(),
        "HOME=/root".to_string(),
        "PATH=/usr/local/bin".to_string(),
    ];
    let m = parse_env(&entries);
    // exactly one entry per key
    assert_eq!(m.len(), 2);
    // the last-seen value won
    assert_eq!(m.get(&"PATH".to_string()), Some(&"/usr/local/bin".to_string()));
    assert_eq!(m.get(&"HOME".to_string()), Some(&"/root".to_string()));
}

#[test]
fn env_entries_without_equals_are_ignored() {
    let entries = vec!["junk".to_string(), "GOOD=1".to_string()];
    let m = parse_env(&entries);
    assert_eq!(m.len(), 1);
    assert_eq!(m.get(&"GOOD".to_string()), Some(&"1".to_string()));
    assert_eq!(m.get(&"junk".to_string()), None);
}

#[test]
fn env_entries_can_be_handed_over_in_list_form() {
    let m = parse_env(&vec!["A=1".to_string(), "B=2".to_string()]);
    let mut seen = vec![m.entry_at(0), m.entry_at(1)];
    seen.sort();
    assert_eq!(
        seen,
        vec![
            ("A".to_string(), "1".to_string()),
            ("B".to_string(), "2".to_string())
        ]
    );
}

#[test]
fn env_set_var_overwrites_in_place() {
    let mut m = parse_env(&vec!["A=1".to_string()]);
    m.set_var("A".to_string(), "2".to_string());
    assert_eq!(m.len(), 1);
    assert_eq!(m.get(&"A".to_string()), Some(&"2".to_string()));
}

#[test]
fn try_from_names_the_missing_linux_section() {
    let spec = Spec {
        process: Some(sample_process(None)),
        root: Some(sample_root(None)),
        linux: None,
        hooks: None,
        hostname: None,
        domainname: None,
    };
    let args = sample_args(spec);
    match InitContext::try_from(&args) {
        Err(InitProcessError::MissingSpec(MissingSpecError::Linux)) => {},
        other => panic!("expected missing linux, got {:?}", other.is_ok()),
    }
}

#[test]
fn try_from_names_the_missing_process_section() {
    let spec = Spec {
        process: None,
        root: Some(sample_root(None)),
        linux: Some(sample_linux(None)),
        hooks: None,
        hostname: None,
        domainname: None,
    };
    let args = sample_args(spec);
    match InitContext::try_from(&args) {
        Err(InitProcessError::MissingSpec(MissingSpecError::Process)) => {},
        other => panic!("expected missing process, got {:?}", other.is_ok()),
    }
}

#[test]
fn try_from_names_the_missing_root_section() {
    let spec = Spec {
        process: Some(sample_process(None)),
        root: None,
        linux: Some(sample_linux(None)),
        hooks: None,
        hostname: None,
        domainname: None,
    };
    let args = sample_args(spec);
    match InitContext::try_from(&args) {
        Err(InitProcessError::MissingSpec(MissingSpecError::Root)) => {},
        other => panic!("expected missing root, got {:?}", other.is_ok()),
    }
}

#[test]
fn try_from_resolves_env_namespaces_and_readonly_flag() {
    let nss = vec![
        LinuxNamespace { typ: NamespaceType::Pid, path: None },
        LinuxNamespace {
            typ: NamespaceType::Network,
            path: Some("/proc/1/ns/net".to_string()),
        },
    ];
    let spec = Spec {
        process: Some(sample_process(Some(vec![
            "A=1".to_string(),
            "A=2".to_string(),
        ]))),
        root: Some(sample_root(Some(true))),
        linux: Some(sample_linux(Some(nss))),
        hooks: None,
        hostname: None,
        domainname: None,
    };
    let args = sample_args(spec);
    let ctx = match InitContext::try_from(&args) {
        Ok(ctx) => ctx,
        Err(_) => panic!("expected a context"),
    };
    assert!(ctx.rootfs_ro);
    assert_eq!(ctx.rootfs, "/run/c/rootfs");
    assert_eq!(ctx.envs.len(), 1);
    assert_eq!(ctx.envs.get(&"A".to_string()), Some(&"2".to_string()));
    assert_eq!(ctx.ns.get(NamespaceType::Pid), Some(None));
    assert_eq!(
        ctx.ns.get(NamespaceType::Network),
        Some(Some("/proc/1/ns/net".to_string()))
    );
    assert_eq!(ctx.ns.get(NamespaceType::Uts), None);
    assert!(ctx.hooks.is_none());
    assert!(ctx.container.is_none());
}

#[test]
fn try_from_rejects_a_malformed_namespace_entry() {
    let nss = vec![LinuxNamespace {
        typ: NamespaceType::Network,
        path: Some("proc/1/ns/net".to_string()),
    }];
    let spec = Spec {
        process: Some(sample_process(None)),
        root: Some(sample_root(None)),
        linux: Some(sample_linux(Some(nss))),
        hooks: None,
        hostname: None,
        domainname: None,
    };
    let args = sample_args(spec);
    match InitContext::try_from(&args) {
        Err(InitProcessError::Namespaces(NamespaceError::MalformedPath)) => {},
        other => panic!("expected a namespace error, got {:?}", other.is_ok()),
    }
}

#[test]
fn try_from_keeps_the_container_back_reference() {
    let spec = Spec {
        process: Some(sample_process(None)),
        root: Some(sample_root(None)),
        linux: Some(sample_linux(None)),
        hooks: None,
        hostname: None,
        domainname: None,
    };
    let mut args = sample_args(spec);
    args.container = Some(Container {
        id: "c1".to_string(),
        status: ContainerStatus::Creating,
        pid: None,
        bundle: "/bundle".to_string(),
    });
    let ctx = InitContext::try_from(&args).ok().unwrap();
    assert_eq!(ctx.container.unwrap().id, "c1");
}

#[test]
fn context_validate_rejects_bad_configuration_before_any_kernel_call() {
    // a relative masked path fails first
    let mut linux = sample_linux(None);
    linux.masked_paths = Some(vec!["proc/kcore".to_string()]);
    let spec = Spec {
        process: Some(sample_process(None)),
        root: Some(sample_root(None)),
        linux: Some(linux),
        hooks: None,
        hostname: None,
        domainname: None,
    };
    let args = sample_args(spec);
    let ctx = InitContext::try_from(&args).ok().unwrap();
    assert_eq!(
        ctx.validate(),
        Err(InitProcessError::MountPathMasked(SyscallError { errno: 22 }))
    );

    // an inverted rlimit fails once the paths are fine
    let mut process = sample_process(None);
    process.rlimits = vec![Rlimit { typ: "RlimitNofile".to_string(), soft: 9, hard: 3 }];
    let spec2 = Spec {
        process: Some(process),
        root: Some(sample_root(None)),
        linux: Some(sample_linux(None)),
        hooks: None,
        hostname: None,
        domainname: None,
    };
    let args2 = sample_args(spec2);
    let ctx2 = InitContext::try_from(&args2).ok().unwrap();
    assert_eq!(ctx2.validate(), Err(InitProcessError::InvalidRlimit(22)));

    // an unknown propagation name fails last
    let mut linux3 = sample_linux(None);
    linux3.rootfs_propagation = Some("sideways".to_string());
    let spec3 = Spec {
        process: Some(sample_process(None)),
        root: Some(sample_root(None)),
        linux: Some(linux3),
        hooks: None,
        hostname: None,
        domainname: None,
    };
    let args3 = sample_args(spec3);
    let ctx3 = InitContext::try_from(&args3).ok().unwrap();
    assert_eq!(
        ctx3.validate(),
        Err(InitProcessError::RootFS(RootfsError { errno: 22 }))
    );

    // a clean document passes
    let spec4 = Spec {
        process: Some(sample_process(None)),
        root: Some(sample_root(None)),
        linux: Some(sample_linux(None)),
        hooks: None,
        hostname: None,
        domainname: None,
    };
    let args4 = sample_args(spec4);
    let ctx4 = InitContext::try_from(&args4).ok().unwrap();
    assert_eq!(ctx4.validate(), Ok(()));
}

#[test]
fn namespace_resolution_is_declarative() {
    let nss = vec![
        LinuxNamespace { typ: NamespaceType::Mount, path: None },
        LinuxNamespace { typ: NamespaceType::Uts, path: None },
    ];
    let ns = Namespaces::try_from(Some(&nss)).unwrap();
    // declared without a path: create new
    assert_eq!(ns.get(NamespaceType::Mount), Some(None));
    assert_eq!(ns.get(NamespaceType::Uts), Some(None));
    // not declared: inherit
    assert!(!ns.is_declared(NamespaceType::User));
    assert_eq!(ns.get(NamespaceType::User), None);
}

#[test]
fn namespace_duplicate_type_resolves_to_the_last_entry() {
    let nss = vec![
        LinuxNamespace { typ: NamespaceType::Pid, path: None },
        LinuxNamespace {
            typ: NamespaceType::Pid,
            path: Some("/proc/9/ns/pid".to_string()),
        },
    ];
    let ns = Namespaces::try_from(Some(&nss)).unwrap();
    assert_eq!(
        ns.get(NamespaceType::Pid),
        Some(Some("/proc/9/ns/pid".to_string()))
    );
}

#[test]
fn namespace_list_absent_resolves_to_inherit_everything() {
    let ns = Namespaces::try_from(None).unwrap();
    assert!(!ns.is_declared(NamespaceType::Pid));
    assert!(!ns.is_declared(NamespaceType::Mount));
}

#[test]
fn namespace_relative_join_path_is_fatal_before_any_kernel_call() {
    let nss = vec![LinuxNamespace {
        typ: NamespaceType::Ipc,
        path: Some("relative/ns".to_string()),
    }];
    assert_eq!(
        Namespaces::try_from(Some(&nss)).err(),
        Some(NamespaceError::MalformedPath)
    );
    let empty = vec![LinuxNamespace {
        typ: NamespaceType::Ipc,
        path: Some("".to_string()),
    }];
    assert_eq!(
        Namespaces::try_from(Some(&empty)).err(),
        Some(NamespaceError::MalformedPath)
    );
}
