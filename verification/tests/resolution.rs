use seele::entities::{
    default_container_gid, default_container_uid, default_cwd, CommandConfig, Config, LimitsConfig,
    MountConfig, OciImage, ResolveError, UserNamespaceBase,
};
use seele::runj;

fn sample_image() -> OciImage {
    OciImage {
        registry: "registry.example.com".to_string(),
        name: "library/alpine".to_string(),
        tag: "latest".to_string(),
    }
}

fn sample_overlayfs() -> runj::OverlayfsConfig {
    runj::OverlayfsConfig {
        lower_dir: "/images/alpine/lower".to_string(),
        upper_dir: "/run/box/upper".to_string(),
        work_dir: "/run/box/work".to_string(),
        merged_dir: "/run/box/merged".to_string(),
    }
}

fn sample_config(command: CommandConfig, mounts: Vec<MountConfig>, limits: LimitsConfig) -> Config {
    Config {
        image: sample_image(),
        cwd: None,
        command,
        fd: None,
        paths: None,
        mounts,
        limits,
        container_uid: None,
        container_gid: None,
    }
}

fn empty_limits() -> LimitsConfig {
    LimitsConfig {
        time_ms: None,
        memory_kib: None,
        pids_count: None,
        fsize_kib: None,
        no_file: None,
    }
}

#[test]
fn command_simple_posix_tokenization() {
    let cmd = CommandConfig::Simple("echo 'a b' c".to_string());
    let args = cmd.resolve().unwrap();
    assert_eq!(args, vec!["echo".to_string(), "a b".to_string(), "c".to_string()]);
}

#[test]
fn command_full_passes_through() {
    let cmd = CommandConfig::Full(vec!["gcc".to_string(), "-O2".to_string(), "a.c".to_string()]);
    let args = cmd.resolve().unwrap();
    assert_eq!(args, vec!["gcc".to_string(), "-O2".to_string(), "a.c".to_string()]);
}

#[test]
fn command_unterminated_quote_fails() {
    let cmd = CommandConfig::Simple("echo 'oops".to_string());
    match cmd.resolve() {
        Err(ResolveError::CommandParse(s)) => assert_eq!(s, "echo 'oops"),
        other => panic!("expected a command parse error, got {:?}", other),
    }
}

#[test]
fn command_display_forms() {
    let simple = CommandConfig::Simple("echo 'a b' c".to_string());
    assert_eq!(simple.display_string(), "echo 'a b' c");
    let full = CommandConfig::Full(vec!["echo".to_string(), "a b".to_string(), "c".to_string()]);
    assert_eq!(full.display_string(), "echo a b c");
}

#[test]
fn limits_all_absent_give_default_table() {
    let resolved = empty_limits().into_runj_limits();
    assert_eq!(resolved.time_ms, 10000);
    assert_eq!(resolved.cgroup.memory, 268435456);
    assert_eq!(resolved.cgroup.pids_limit, 32);
    assert!(resolved.cgroup.cpu_shares.is_none());
    assert!(resolved.cgroup.cpu_quota.is_none());
    assert!(resolved.cgroup.cpuset_cpus.is_none());
    assert!(resolved.cgroup.cpuset_mems.is_none());
    assert_eq!(resolved.rlimit.fsize.hard(), 67108864);
    assert_eq!(resolved.rlimit.fsize.soft(), 67108864);
    assert_eq!(resolved.rlimit.no_file.hard(), 1000000);
    assert_eq!(resolved.rlimit.no_file.soft(), 1000000);
    assert_eq!(resolved.rlimit.core.hard(), 0);
    assert_eq!(resolved.rlimit.core.soft(), 0);
}

#[test]
fn limits_memory_kib_scaled_to_bytes() {
    let mut limits = empty_limits();
    limits.memory_kib = Some(100);
    let resolved = limits.into_runj_limits();
    assert_eq!(resolved.cgroup.memory, 102400);
}

#[test]
fn limits_present_fields_kept() {
    let limits = LimitsConfig {
        time_ms: Some(2500),
        memory_kib: Some(1024),
        pids_count: Some(7),
        fsize_kib: Some(16),
        no_file: Some(64),
    };
    let resolved = limits.into_runj_limits();
    assert_eq!(resolved.time_ms, 2500);
    assert_eq!(resolved.cgroup.memory, 1024 * 1024);
    assert_eq!(resolved.cgroup.pids_limit, 7);
    assert_eq!(resolved.rlimit.fsize.hard(), 16 * 1024);
    assert_eq!(resolved.rlimit.no_file.hard(), 64);
}

#[test]
fn core_dump_disabled_for_every_input() {
    let attempts = vec![
        empty_limits(),
        LimitsConfig {
            time_ms: Some(1),
            memory_kib: Some(1),
            pids_count: Some(1),
            fsize_kib: Some(1),
            no_file: Some(1),
        },
        LimitsConfig {
            time_ms: Some(u64::MAX),
            memory_kib: Some(-5),
            pids_count: Some(i64::MAX),
            fsize_kib: None,
            no_file: Some(u64::MAX),
        },
    ];
    for limits in attempts {
        let resolved = limits.into_runj_limits();
        assert_eq!(resolved.rlimit.core.hard(), 0);
        assert_eq!(resolved.rlimit.core.soft(), 0);
    }
}

#[test]
fn mount_shorthand_one_part() {
    let m = MountConfig::Simple("data".to_string());
    let r = m.into_runj_mount("/work").unwrap();
    assert_eq!(r.from, "/work/data");
    assert_eq!(r.to, "/data");
    assert!(r.options.is_none());
}

#[test]
fn mount_shorthand_two_parts() {
    let m = MountConfig::Simple("input.txt:input.txt".to_string());
    let r = m.into_runj_mount("/submission").unwrap();
    assert_eq!(r.from, "/submission/input.txt");
    assert_eq!(r.to, "/input.txt");
    assert!(r.options.is_none());
}

#[test]
fn mount_shorthand_three_parts_with_options() {
    let m = MountConfig::Simple("src:dst:ro,nosuid".to_string());
    let r = m.into_runj_mount("/work").unwrap();
    assert_eq!(r.from, "/work/src");
    assert_eq!(r.to, "/dst");
    assert_eq!(r.options, Some(vec!["ro".to_string(), "nosuid".to_string()]));
}

#[test]
fn mount_shorthand_four_parts_fails() {
    let m = MountConfig::Simple("a:b:c:d".to_string());
    match m.into_runj_mount("/work") {
        Err(ResolveError::MountFormat(s)) => assert_eq!(s, "a:b:c:d"),
        other => panic!("expected a mount format error, got {:?}", other),
    }
}

#[test]
fn mount_absolute_source_stands_alone() {
    let m = MountConfig::Simple("/etc/hosts:hosts:ro".to_string());
    let r = m.into_runj_mount("/work").unwrap();
    assert_eq!(r.from, "/etc/hosts");
    assert_eq!(r.to, "/hosts");
    assert_eq!(r.options, Some(vec!["ro".to_string()]));
}

#[test]
fn mount_full_passes_through() {
    let m = MountConfig::Full(runj::MountConfig {
        from: "/var/cache".to_string(),
        to: "/cache".to_string(),
        options: Some(vec!["rw".to_string()]),
    });
    let r = m.into_runj_mount("/work").unwrap();
    assert_eq!(r.from, "/var/cache");
    assert_eq!(r.to, "/cache");
    assert_eq!(r.options, Some(vec!["rw".to_string()]));
}

#[test]
fn defaults_are_fixed() {
    assert_eq!(default_cwd(), "/seele");
    assert_eq!(default_container_uid(), 1000);
    assert_eq!(default_container_gid(), 1000);
}

#[test]
fn rlimit_single_value_pair() {
    let item = runj::RlimitItem::new_single(42);
    assert_eq!(item.hard(), 42);
    assert_eq!(item.soft(), 42);
}

#[test]
fn full_request_resolves_to_descriptor() {
    let config = Config {
        image: sample_image(),
        cwd: Some("/judge".to_string()),
        command: CommandConfig::Simple("./main < in".to_string()),
        fd: Some(runj::FdConfig {
            stdin: Some("/work/in.txt".to_string()),
            stdout: Some("/work/out.txt".to_string()),
            stderr: None,
            stdout_to_stderr: false,
            stderr_to_stdout: false,
        }),
        paths: Some(vec!["/usr/bin".to_string(), "/bin".to_string()]),
        mounts: vec![
            MountConfig::Simple("data".to_string()),
            MountConfig::Simple("src:dst:ro".to_string()),
        ],
        limits: empty_limits(),
        container_uid: Some(1234),
        container_gid: None,
    };
    let ns = UserNamespaceBase {
        enabled: true,
        root_uid: 0,
        uid_map_begin: 100000,
        uid_map_count: 65536,
        root_gid: 0,
        gid_map_begin: 100000,
        gid_map_count: 65536,
    };
    let rc = config
        .into_runj_config(
            sample_overlayfs(),
            "/sys/fs/cgroup/box".to_string(),
            Some(ns),
            "/work",
            true,
        )
        .unwrap();
    assert_eq!(rc.cwd, "/judge");
    assert_eq!(rc.command, vec!["./main".to_string(), "<".to_string(), "in".to_string()]);
    assert_eq!(rc.cgroup_path, "/sys/fs/cgroup/box");
    assert_eq!(rc.paths, Some(vec!["/usr/bin".to_string(), "/bin".to_string()]));
    assert!(rc.no_new_keyring);
    let ns = rc.user_namespace.unwrap();
    assert!(ns.enabled);
    assert_eq!(ns.container_uid, 1234);
    assert_eq!(ns.container_gid, 1000);
    assert_eq!(ns.uid_map_begin, 100000);
    assert_eq!(rc.mounts.len(), 2);
    assert_eq!(rc.mounts[0].from, "/work/data");
    assert_eq!(rc.mounts[0].to, "/data");
    assert_eq!(rc.mounts[1].from, "/work/src");
    assert_eq!(rc.mounts[1].to, "/dst");
    assert_eq!(rc.mounts[1].options, Some(vec!["ro".to_string()]));
    assert_eq!(rc.limits.time_ms, 10000);
    assert_eq!(rc.limits.cgroup.memory, 268435456);
    assert_eq!(rc.limits.rlimit.core.hard(), 0);
    let fd = rc.fd.unwrap();
    assert_eq!(fd.stdin, Some("/work/in.txt".to_string()));
}

#[test]
fn empty_command_string_is_rejected() {
    let config = sample_config(
        CommandConfig::Simple("".to_string()),
        Vec::new(),
        empty_limits(),
    );
    match config.into_runj_config(
        sample_overlayfs(),
        "/sys/fs/cgroup/box".to_string(),
        None,
        "/work",
        false,
    ) {
        Err(ResolveError::EmptyCommand) => {},
        other => panic!("expected an empty command error, got {:?}", other),
    }
}

#[test]
fn empty_argument_list_is_rejected() {
    let config = sample_config(CommandConfig::Full(Vec::new()), Vec::new(), empty_limits());
    match config.into_runj_config(
        sample_overlayfs(),
        "/sys/fs/cgroup/box".to_string(),
        None,
        "/work",
        false,
    ) {
        Err(ResolveError::EmptyCommand) => {},
        other => panic!("expected an empty command error, got {:?}", other),
    }
}

#[test]
fn bad_mount_fails_whole_resolution() {
    let config = sample_config(
        CommandConfig::Simple("true".to_string()),
        vec![
            MountConfig::Simple("data".to_string()),
            MountConfig::Simple("a:b:c:d".to_string()),
        ],
        empty_limits(),
    );
    match config.into_runj_config(
        sample_overlayfs(),
        "/sys/fs/cgroup/box".to_string(),
        None,
        "/work",
        false,
    ) {
        Err(ResolveError::MountFormat(s)) => assert_eq!(s, "a:b:c:d"),
        other => panic!("expected a mount format error, got {:?}", other),
    }
}

#[test]
fn malformed_command_reported_before_mounts() {
    let config = sample_config(
        CommandConfig::Simple("echo 'oops".to_string()),
        vec![MountConfig::Simple("a:b:c:d".to_string())],
        empty_limits(),
    );
    match config.into_runj_config(
        sample_overlayfs(),
        "/sys/fs/cgroup/box".to_string(),
        None,
        "/work",
        false,
    ) {
        Err(ResolveError::CommandParse(s)) => assert_eq!(s, "echo 'oops"),
        other => panic!("expected a command parse error, got {:?}", other),
    }
}

#[test]
fn default_limits_spec_is_fully_absent() {
    let limits = <LimitsConfig as Default>::default();
    assert!(limits.time_ms.is_none());
    assert!(limits.memory_kib.is_none());
    assert!(limits.pids_count.is_none());
    assert!(limits.fsize_kib.is_none());
    assert!(limits.no_file.is_none());
    let resolved = limits.into_runj_limits();
    assert_eq!(resolved.time_ms, 10000);
    assert_eq!(resolved.cgroup.memory, 268435456);
}

#[test]
fn default_cgroup_has_no_cpu_tuning() {
    let cgroup = <seele::runj::CgroupConfig as Default>::default();
    assert!(cgroup.cpu_shares.is_none());
    assert!(cgroup.cpu_quota.is_none());
    assert!(cgroup.cpuset_cpus.is_none());
    assert!(cgroup.cpuset_mems.is_none());
    assert_eq!(cgroup.memory, 0);
    assert_eq!(cgroup.pids_limit, 0);
}

#[test]
fn display_of_empty_argument_list_is_empty() {
    let cmd = CommandConfig::Full(Vec::new());
    assert_eq!(cmd.display_string(), "");
}

#[test]
fn mount_shorthand_empty_string_has_one_empty_part() {
    let m = MountConfig::Simple("".to_string());
    let r = m.into_runj_mount("/work").unwrap();
    assert_eq!(r.from, "/work/");
    assert_eq!(r.to, "/");
    assert!(r.options.is_none());
}
