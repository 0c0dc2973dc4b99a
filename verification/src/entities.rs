//! The user-facing execution request and its resolution: shell-style command
//! strings, colon-delimited mount shorthand and partial limits are expanded,
//! with deterministic defaulting, into the runner-facing descriptor.
use vstd::prelude::*;

use crate::runj;
use crate::runj::MountModel;
use crate::text::join_path;
use crate::text::join_path_spec;
use crate::text::join_space;
use crate::text::join_str;
use crate::text::split_on;
use crate::text::split_str;

verus! {

/// The runner's execution outcome, re-exported under the request-side name.
pub type ExecutionReport = runj::ContainerExecutionReport;

/// The runner's termination status, re-exported under the request-side name.
pub type ExecutionStatus = runj::ContainerExecutionStatus;

/// A reference to a prepared root-filesystem image. Acquiring and laying out
/// the image is a collaborator's concern; this core only carries the
/// reference through.
#[derive(Debug, Clone)]
pub struct OciImage {
    pub registry: String,
    pub name: String,
    pub tag: String,
}

/// An error raised while resolving a request into a descriptor, or while
/// reading a report. Resolution is fail-fast: no partial descriptor is ever
/// produced alongside one of these.
#[derive(Debug, Clone)]
pub enum ResolveError {
    /// A malformed shell-style command string; carries the offending input.
    CommandParse(String),
    /// The resolved command is an empty argument sequence: nothing to run.
    EmptyCommand,
    /// A shorthand mount string with an invalid number of colon-separated
    /// parts; carries the offending literal string.
    MountFormat(String),
}

/// The default working directory inside the sandbox.
pub fn default_cwd() -> (r: String)
    ensures
        r@ == "/seele"@,
{
    "/seele".to_owned()
}

/// The default numeric user id the process runs as inside the sandbox.
pub fn default_container_uid() -> (r: u32)
    ensures
        r == 1000,
{
    1000
}

/// The default numeric group id the process runs as inside the sandbox.
pub fn default_container_gid() -> (r: u32)
    ensures
        r == 1000,
{
    1000
}

/// What POSIX shell word-splitting makes of `s`: the argument words, or
/// nothing where the input is malformed. The tokenization is a function of
/// the input characters alone.
pub uninterp spec fn shell_tokens(s: Seq<char>) -> Option<Seq<Seq<char>>>;

#[verifier::external_type_specification]
#[verifier::external_body]
pub struct ExParseError(shell_words::ParseError);

/// Relies on shell_words::split: POSIX shell word-splitting with expansion
/// limited to quote removal. Its result depends on the input characters
/// alone, its only error is an unmatched quote, and empty input yields no
/// words.
#[verifier::external_body]
fn shell_split(s: &str) -> (r: Result<Vec<String>, shell_words::ParseError>)
    ensures
        match r {
            Ok(v) => shell_tokens(s@) == Some(v.deep_view()) && (s@.len() == 0 ==> v@.len() == 0),
            Err(_) => shell_tokens(s@) is None && s@.len() > 0,
        },
{
    shell_words::split(s)
}

/// A command: either a shell-style string to be word-split, or an explicit
/// argument list taken as it stands.
#[derive(Debug, Clone)]
pub enum CommandConfig {
    Simple(String),
    Full(Vec<String>),
}

/// The argument words a command resolves to, or nothing where a shell-style
/// string is malformed.
pub open spec fn command_tokens(c: CommandConfig) -> Option<Seq<Seq<char>>> {
    match c {
        CommandConfig::Simple(s) => shell_tokens(s@),
        CommandConfig::Full(v) => Some(v.deep_view()),
    }
}

impl CommandConfig {
    /// Resolves the command into an explicit argument list: a `Full` command
    /// passes through unchanged, a `Simple` one is word-split by POSIX shell
    /// rules. A malformed shell string fails, naming the offending input.
    pub fn resolve(self) -> (r: Result<Vec<String>, ResolveError>)
        ensures
            match self {
                CommandConfig::Full(v) => r matches Ok(w) && w == v,
                CommandConfig::Simple(s) => match shell_tokens(s@) {
                    Some(toks) => r matches Ok(w) && w.deep_view() == toks,
                    None => r matches Err(ResolveError::CommandParse(u)) && u@ == s@,
                },
            },
    {
        match self {
            CommandConfig::Full(v) => Ok(v),
            CommandConfig::Simple(s) => match shell_split(s.as_str()) {
                Ok(v) => Ok(v),
                Err(_) => Err(ResolveError::CommandParse(s)),
            },
        }
    }

    /// The human-readable rendering: a `Simple` command verbatim, a `Full`
    /// one with its arguments joined by single spaces.
    pub fn display_string(&self) -> (r: String)
        ensures
            r@ == (match self {
                CommandConfig::Simple(s) => s@,
                CommandConfig::Full(v) => join_str(v.deep_view(), ' '),
            }),
    {
        match self {
            CommandConfig::Simple(s) => s.clone(),
            CommandConfig::Full(v) => join_space(v),
        }
    }
}

/// A mount: either a colon-delimited shorthand string, or a fully-resolved
/// entry that passes through unchanged.
#[derive(Debug, Clone)]
pub enum MountConfig {
    Simple(String),
    Full(runj::MountConfig),
}

/// What a shorthand mount string resolves to under `parent`: split on `:`
/// into one part (`item`), two (`from:to`) or three (`from:to:options`,
/// options split further on `,`); any other arity is invalid. The source is
/// anchored under `parent` and the destination is forced absolute under `/`.
pub open spec fn simple_mount_model(s: Seq<char>, parent: Seq<char>) -> Option<MountModel> {
    let parts = split_str(s, ':');
    if parts.len() == 1 {
        Some(
            (MountModel {
                from: join_path_spec(parent, parts[0]),
                to: join_path_spec(seq!['/'], parts[0]),
                options: None,
            }),
        )
    } else if parts.len() == 2 {
        Some(
            (MountModel {
                from: join_path_spec(parent, parts[0]),
                to: join_path_spec(seq!['/'], parts[1]),
                options: None,
            }),
        )
    } else if parts.len() == 3 {
        Some(
            (MountModel {
                from: join_path_spec(parent, parts[0]),
                to: join_path_spec(seq!['/'], parts[1]),
                options: Some(split_str(parts[2], ',')),
            }),
        )
    } else {
        None
    }
}

/// What a mount resolves to under `parent`: a `Full` entry passes through,
/// a `Simple` one follows `simple_mount_model`.
pub open spec fn mount_model_of(m: MountConfig, parent: Seq<char>) -> Option<MountModel> {
    match m {
        MountConfig::Full(f) => Some(f@),
        MountConfig::Simple(s) => simple_mount_model(s@, parent),
    }
}

impl MountConfig {
    /// Resolves this mount against the absolute parent directory that
    /// anchors relative shorthand sources. A shorthand whose part count is
    /// outside 1 to 3 fails, naming the offending string; no partial mount
    /// is emitted.
    ///
    /// The shorthand source is joined under `parent_path_absolute` with no
    /// traversal check: a `..` segment names a path outside the parent
    /// directory. A caller that does not intend that must reject such
    /// segments itself before mounting.
    pub fn into_runj_mount(self, parent_path_absolute: &str) -> (r: Result<
        runj::MountConfig,
        ResolveError,
    >)
        ensures
            match mount_model_of(self, parent_path_absolute@) {
                Some(mm) => r matches Ok(m) && m@ == mm,
                None => r matches Err(ResolveError::MountFormat(u)) && self matches
                    MountConfig::Simple(s) && u@ == s@,
            },
    {
        match self {
            MountConfig::Full(f) => Ok(f),
            MountConfig::Simple(s) => {
                proof {
                    reveal_strlit("/");
                    assert("/"@ =~= seq!['/']);
                }
                let parts = split_on(s.as_str(), ':');
                if parts.len() == 1 {
                    Ok(
                        runj::MountConfig {
                            from: join_path(parent_path_absolute, parts[0].as_str()),
                            to: join_path("/", parts[0].as_str()),
                            options: None,
                        },
                    )
                } else if parts.len() == 2 {
                    Ok(
                        runj::MountConfig {
                            from: join_path(parent_path_absolute, parts[0].as_str()),
                            to: join_path("/", parts[1].as_str()),
                            options: None,
                        },
                    )
                } else if parts.len() == 3 {
                    let options = split_on(parts[2].as_str(), ',');
                    Ok(
                        runj::MountConfig {
                            from: join_path(parent_path_absolute, parts[0].as_str()),
                            to: join_path("/", parts[1].as_str()),
                            options: Some(options),
                        },
                    )
                } else {
                    Err(ResolveError::MountFormat(s))
                }
            },
        }
    }
}

/// A partial limits specification: every field optional, every absent field
/// replaced by the default table during resolution.
#[derive(Debug, Clone)]
pub struct LimitsConfig {
    pub time_ms: Option<u64>,
    pub memory_kib: Option<i64>,
    pub pids_count: Option<i64>,
    pub fsize_kib: Option<u64>,
    pub no_file: Option<u64>,
}

impl Default for LimitsConfig {
    /// Every field absent: resolution fills the whole default table.
    fn default() -> (r: Self)
        ensures
            r.time_ms is None,
            r.memory_kib is None,
            r.pids_count is None,
            r.fsize_kib is None,
            r.no_file is None,
    {
        LimitsConfig {
            time_ms: None,
            memory_kib: None,
            pids_count: None,
            fsize_kib: None,
            no_file: None,
        }
    }
}

/// Default wall-clock budget: ten seconds.
pub const DEFAULT_TIME_MS: u64 = 10 * 1000;

/// Default memory limit: 256 MiB, in bytes.
pub const DEFAULT_MEMORY_LIMIT_BYTES: i64 = 256 * 1024 * 1024;

/// Default process-count cap.
pub const DEFAULT_PIDS_LIMIT: i64 = 32;

/// Core dumps are disabled: forced for every input, not user-settable.
pub const DEFAULT_CORE: u64 = 0;

/// Default open-file-descriptor cap.
pub const DEFAULT_NO_FILE: u64 = 1000000;

/// Default file-size limit: 64 MiB, in bytes.
pub const DEFAULT_FSIZE_BYTES: u64 = 64 * 1024 * 1024;

/// The resolved wall-clock budget in milliseconds.
pub open spec fn resolved_time_ms(l: LimitsConfig) -> u64 {
    match l.time_ms {
        Some(t) => t,
        None => DEFAULT_TIME_MS,
    }
}

/// The resolved memory limit in bytes: the user's KiB value scaled by 1024,
/// or the default.
pub open spec fn resolved_memory_bytes(l: LimitsConfig) -> int {
    match l.memory_kib {
        Some(k) => k * 1024,
        None => DEFAULT_MEMORY_LIMIT_BYTES as int,
    }
}

/// The resolved process-count cap.
pub open spec fn resolved_pids_limit(l: LimitsConfig) -> i64 {
    match l.pids_count {
        Some(p) => p,
        None => DEFAULT_PIDS_LIMIT,
    }
}

/// The resolved file-size limit in bytes: the user's KiB value scaled by
/// 1024, or the default.
pub open spec fn resolved_fsize_bytes(l: LimitsConfig) -> int {
    match l.fsize_kib {
        Some(k) => k * 1024,
        None => DEFAULT_FSIZE_BYTES as int,
    }
}

/// The resolved open-file-descriptor cap.
pub open spec fn resolved_no_file(l: LimitsConfig) -> u64 {
    match l.no_file {
        Some(n) => n,
        None => DEFAULT_NO_FILE,
    }
}

impl LimitsConfig {
    /// Resolves the partial specification into complete limits: absent
    /// fields take the default table, KiB inputs are converted to bytes,
    /// and the core dump limit is unconditionally forced to zero — a hard
    /// security default no input can influence.
    pub fn into_runj_limits(self) -> (r: runj::LimitsConfig)
        requires
            self.memory_kib matches Some(k) ==> i64::MIN <= k * 1024 <= i64::MAX,
            self.fsize_kib matches Some(k) ==> k * 1024 <= u64::MAX,
        ensures
            r.time_ms == resolved_time_ms(self),
            r.cgroup.memory == resolved_memory_bytes(self),
            r.cgroup.pids_limit == resolved_pids_limit(self),
            r.cgroup.cpu_shares is None,
            r.cgroup.cpu_quota is None,
            r.cgroup.cpuset_cpus is None,
            r.cgroup.cpuset_mems is None,
            r.rlimit.core.spec_hard() == 0,
            r.rlimit.core.spec_soft() == 0,
            r.rlimit.fsize.spec_hard() == resolved_fsize_bytes(self),
            r.rlimit.fsize.spec_soft() == resolved_fsize_bytes(self),
            r.rlimit.no_file.spec_hard() == resolved_no_file(self),
            r.rlimit.no_file.spec_soft() == resolved_no_file(self),
    {
        let memory: i64 = match self.memory_kib {
            Some(k) => k * 1024,
            None => DEFAULT_MEMORY_LIMIT_BYTES,
        };
        let fsize: u64 = match self.fsize_kib {
            Some(k) => k * 1024,
            None => DEFAULT_FSIZE_BYTES,
        };
        runj::LimitsConfig {
            time_ms: match self.time_ms {
                Some(t) => t,
                None => DEFAULT_TIME_MS,
            },
            cgroup: runj::CgroupConfig {
                cpu_shares: None,
                cpu_quota: None,
                cpuset_cpus: None,
                cpuset_mems: None,
                memory,
                pids_limit: match self.pids_count {
                    Some(p) => p,
                    None => DEFAULT_PIDS_LIMIT,
                },
            },
            rlimit: runj::RlimitConfig {
                core: runj::RlimitItem::new_single(DEFAULT_CORE),
                fsize: runj::RlimitItem::new_single(fsize),
                no_file: runj::RlimitItem::new_single(match self.no_file {
                    Some(n) => n,
                    None => DEFAULT_NO_FILE,
                }),
            },
        }
    }
}

/// With every field absent, the resolved limits are exactly the default
/// table: ten seconds, 256 MiB of memory, 32 processes, a 64 MiB file-size
/// limit and a million open files.
pub proof fn lemma_limits_all_absent_give_defaults(l: LimitsConfig)
    requires
        l.time_ms is None,
        l.memory_kib is None,
        l.pids_count is None,
        l.fsize_kib is None,
        l.no_file is None,
    ensures
        resolved_time_ms(l) == 10000,
        resolved_memory_bytes(l) == 268435456,
        resolved_pids_limit(l) == 32,
        resolved_fsize_bytes(l) == 67108864,
        resolved_no_file(l) == 1000000,
{
}

/// A present memory limit is converted from KiB to bytes by a factor of
/// exactly 1024, whatever the other fields hold.
pub proof fn lemma_memory_kib_converted(l: LimitsConfig, k: i64)
    requires
        l.memory_kib == Some(k),
    ensures
        resolved_memory_bytes(l) == k * 1024,
{
}

/// The namespace mapping a caller asks for: everything of
/// `runj::UserNamespaceConfig` except the container identity, which descriptor
/// assembly fills in from the request.
#[derive(Debug, Clone, PartialEq, Eq, Structural)]
pub struct UserNamespaceBase {
    pub enabled: bool,
    pub root_uid: u32,
    pub uid_map_begin: u32,
    pub uid_map_count: u32,
    pub root_gid: u32,
    pub gid_map_begin: u32,
    pub gid_map_count: u32,
}

/// A user-facing execution request: an image, a command, and otherwise
/// loosely-specified fields that resolution completes with defaults.
#[derive(Debug, Clone)]
pub struct Config {
    pub image: OciImage,
    pub cwd: Option<String>,
    pub command: CommandConfig,
    pub fd: Option<runj::FdConfig>,
    pub paths: Option<Vec<String>>,
    pub mounts: Vec<MountConfig>,
    pub limits: LimitsConfig,
    pub container_uid: Option<u32>,
    pub container_gid: Option<u32>,
}

/// The working directory the descriptor will carry: the request's, or the
/// fixed sandbox default.
pub open spec fn resolved_cwd(c: Config) -> Seq<char> {
    match c.cwd {
        Some(p) => p@,
        None => "/seele"@,
    }
}

/// The user id the process runs as: the request's, or 1000.
pub open spec fn resolved_container_uid(c: Config) -> u32 {
    match c.container_uid {
        Some(u) => u,
        None => 1000,
    }
}

/// The group id the process runs as: the request's, or 1000.
pub open spec fn resolved_container_gid(c: Config) -> u32 {
    match c.container_gid {
        Some(g) => g,
        None => 1000,
    }
}

impl Config {
    /// Resolves the whole request into the runner-facing descriptor:
    /// the command is expanded and must name at least one argument, each
    /// mount is resolved against `mount_parent`, limits are completed from
    /// the default table with core dumps forced off, and the working
    /// directory and container identity take their defaults where absent.
    /// The overlay directories, cgroup path and namespace mapping are the
    /// caller's to supply; assembly combines them without further decisions.
    /// Errors are fail-fast, in this order: a malformed command, an empty
    /// command, then the first malformed mount.
    #[verifier::loop_isolation(false)]
    pub fn into_runj_config(
        self,
        overlayfs: runj::OverlayfsConfig,
        cgroup_path: String,
        user_namespace: Option<UserNamespaceBase>,
        mount_parent: &str,
        no_new_keyring: bool,
    ) -> (r: Result<runj::RunjConfig, ResolveError>)
        requires
            self.limits.memory_kib matches Some(k) ==> i64::MIN <= k * 1024 <= i64::MAX,
            self.limits.fsize_kib matches Some(k) ==> k * 1024 <= u64::MAX,
        ensures
            match command_tokens(self.command) {
                None => r matches Err(ResolveError::CommandParse(u)) && self.command matches
                    CommandConfig::Simple(s) && u@ == s@,
                Some(toks) => if toks.len() == 0 {
                    r matches Err(ResolveError::EmptyCommand)
                } else if exists|i: int|
                    0 <= i < self.mounts.len() && (#[trigger] mount_model_of(
                        self.mounts[i],
                        mount_parent@,
                    )) is None {
                    r matches Err(ResolveError::MountFormat(u)) && exists|i: int|
                        0 <= i < self.mounts.len() && (#[trigger] mount_model_of(
                            self.mounts[i],
                            mount_parent@,
                        )) is None && (forall|j: int|
                            0 <= j < i ==> (#[trigger] mount_model_of(
                                self.mounts[j],
                                mount_parent@,
                            )) is Some) && (self.mounts[i] matches MountConfig::Simple(s) && u@
                            == s@)
                } else {
                    r matches Ok(rc) && rc.command.deep_view() == toks && rc.cwd@ == resolved_cwd(
                        self,
                    ) && rc.overlayfs == overlayfs && rc.cgroup_path == cgroup_path && rc.paths
                        == self.paths && rc.fd == self.fd && rc.no_new_keyring == no_new_keyring
                        && rc.user_namespace == (match user_namespace {
                        None => None,
                        Some(b) => Some(
                            runj::UserNamespaceConfig {
                                enabled: b.enabled,
                                root_uid: b.root_uid,
                                uid_map_begin: b.uid_map_begin,
                                uid_map_count: b.uid_map_count,
                                root_gid: b.root_gid,
                                gid_map_begin: b.gid_map_begin,
                                gid_map_count: b.gid_map_count,
                                container_uid: resolved_container_uid(self),
                                container_gid: resolved_container_gid(self),
                            },
                        ),
                    }) && rc.mounts.len() == self.mounts.len() && (forall|i: int|
                        0 <= i < self.mounts.len() ==> Some(#[trigger] rc.mounts[i]@)
                            == mount_model_of(self.mounts[i], mount_parent@))
                        && rc.limits.time_ms == resolved_time_ms(self.limits)
                        && rc.limits.cgroup.memory == resolved_memory_bytes(self.limits)
                        && rc.limits.cgroup.pids_limit == resolved_pids_limit(self.limits)
                        && rc.limits.cgroup.cpu_shares is None && rc.limits.cgroup.cpu_quota
                        is None && rc.limits.cgroup.cpuset_cpus is None
                        && rc.limits.cgroup.cpuset_mems is None && rc.limits.rlimit.core.spec_hard()
                        == 0 && rc.limits.rlimit.core.spec_soft() == 0
                        && rc.limits.rlimit.fsize.spec_hard() == resolved_fsize_bytes(self.limits)
                        && rc.limits.rlimit.fsize.spec_soft() == resolved_fsize_bytes(self.limits)
                        && rc.limits.rlimit.no_file.spec_hard() == resolved_no_file(self.limits)
                        && rc.limits.rlimit.no_file.spec_soft() == resolved_no_file(self.limits)
                },
            },
    {
        let ghost orig = self;
        let Config { image: _, cwd, command, fd, paths, mounts, limits, container_uid, container_gid } = self;
        let resolved_command = match command.resolve() {
            Ok(v) => v,
            Err(e) => {
                return Err(e);
            },
        };
        if resolved_command.len() == 0 {
            proof {
                assert(command_tokens(orig.command).unwrap().len() == 0);
            }
            return Err(ResolveError::EmptyCommand);
        }
        let mut remaining = mounts;
        let mut resolved_mounts: Vec<runj::MountConfig> = Vec::new();
        while remaining.len() > 0
            invariant
                resolved_mounts.len() + remaining.len() == orig.mounts@.len(),
                remaining@ == orig.mounts@.skip(resolved_mounts.len() as int),
                forall|j: int|
                    0 <= j < resolved_mounts.len() ==> Some(resolved_mounts[j]@)
                        == #[trigger] mount_model_of(orig.mounts[j], mount_parent@),
            decreases remaining.len(),
        {
            let ghost done: int = resolved_mounts.len() as int;
            let ghost rem_old = remaining@;
            let m = remaining.remove(0);
            proof {
                vstd::seq_lib::lemma_seq_skip_index(orig.mounts@, done, 0);
                assert(m == orig.mounts[done]);
                assert(remaining@ == rem_old.remove(0));
                assert(remaining@ =~= orig.mounts@.skip(done + 1)) by {
                    vstd::seq_lib::lemma_seq_skip_of_skip(orig.mounts@, done, 1);
                    assert(rem_old.remove(0) =~= rem_old.skip(1));
                };
            }
            match m.into_runj_mount(mount_parent) {
                Ok(rm) => {
                    resolved_mounts.push(rm);
                },
                Err(e) => {
                    proof {
                        assert(0 <= done < orig.mounts@.len() && mount_model_of(
                            orig.mounts[done],
                            mount_parent@,
                        ) is None && (forall|j: int|
                            0 <= j < done ==> (#[trigger] mount_model_of(
                                orig.mounts[j],
                                mount_parent@,
                            )) is Some));
                    }
                    return Err(e);
                },
            }
        }
        proof {
            assert(resolved_mounts.len() == orig.mounts@.len());
        }
        let uid = match container_uid {
            Some(u) => u,
            None => default_container_uid(),
        };
        let gid = match container_gid {
            Some(g) => g,
            None => default_container_gid(),
        };
        Ok(
            runj::RunjConfig {
                user_namespace: match user_namespace {
                    None => None,
                    Some(b) => Some(
                        runj::UserNamespaceConfig {
                            enabled: b.enabled,
                            root_uid: b.root_uid,
                            uid_map_begin: b.uid_map_begin,
                            uid_map_count: b.uid_map_count,
                            root_gid: b.root_gid,
                            gid_map_begin: b.gid_map_begin,
                            gid_map_count: b.gid_map_count,
                            container_uid: uid,
                            container_gid: gid,
                        },
                    ),
                },
                overlayfs,
                cgroup_path,
                cwd: match cwd {
                    Some(p) => p,
                    None => default_cwd(),
                },
                paths,
                command: resolved_command,
                fd,
                mounts: resolved_mounts,
                limits: limits.into_runj_limits(),
                no_new_keyring,
            },
        )
    }
}

} // verus!
