//! The runner-facing descriptor model: the exact, fully-resolved schema the
//! privileged sandbox runner accepts, together with the execution report it
//! hands back and the closed vocabulary of termination statuses.
use vstd::prelude::*;

verus! {

/// The fully-resolved execution descriptor. Every field is concrete: paths
/// are absolute, the command is an explicit argument list, limits are
/// complete. No shorthand ever reaches this type.
#[derive(Debug, Clone)]
pub struct RunjConfig {
    pub user_namespace: Option<UserNamespaceConfig>,
    pub overlayfs: OverlayfsConfig,
    pub cgroup_path: String,
    pub cwd: String,
    pub paths: Option<Vec<String>>,
    pub command: Vec<String>,
    pub fd: Option<FdConfig>,
    pub mounts: Vec<MountConfig>,
    pub limits: LimitsConfig,
    pub no_new_keyring: bool,
}

/// User-namespace mapping: root/container identities and the uid/gid ranges
/// mapped into the sandbox.
#[derive(Debug, Clone, PartialEq, Eq, Structural)]
pub struct UserNamespaceConfig {
    pub enabled: bool,
    pub root_uid: u32,
    pub uid_map_begin: u32,
    pub uid_map_count: u32,
    pub root_gid: u32,
    pub gid_map_begin: u32,
    pub gid_map_count: u32,
    pub container_uid: u32,
    pub container_gid: u32,
}

/// The four overlay-filesystem directories, all absolute and all required.
#[derive(Debug, Clone)]
pub struct OverlayfsConfig {
    pub lower_dir: String,
    pub upper_dir: String,
    pub work_dir: String,
    pub merged_dir: String,
}

/// File-descriptor redirection for the sandboxed process.
#[derive(Debug, Clone)]
pub struct FdConfig {
    pub stdin: Option<String>,
    pub stdout: Option<String>,
    pub stderr: Option<String>,
    pub stdout_to_stderr: bool,
    pub stderr_to_stdout: bool,
}

/// A fully-resolved mount entry: absolute source and destination, and an
/// optional ordered option list.
#[derive(Debug, Clone)]
pub struct MountConfig {
    pub from: String,
    pub to: String,
    pub options: Option<Vec<String>>,
}

/// The mathematical content of a resolved mount entry.
pub ghost struct MountModel {
    pub from: Seq<char>,
    pub to: Seq<char>,
    pub options: Option<Seq<Seq<char>>>,
}

impl View for MountConfig {
    type V = MountModel;

    open spec fn view(&self) -> MountModel {
        MountModel {
            from: self.from@,
            to: self.to@,
            options: match self.options {
                Some(opts) => Some(opts.deep_view()),
                None => None,
            },
        }
    }
}

/// Fully-resolved limits: wall-clock budget, cgroup limits and rlimits.
/// Nothing here is optional except the cpu tuning knobs.
#[derive(Debug, Clone)]
pub struct LimitsConfig {
    pub time_ms: u64,
    pub cgroup: CgroupConfig,
    pub rlimit: RlimitConfig,
}

/// Cgroup limits: memory in bytes, a process-count cap, and optional cpu
/// tuning.
#[derive(Debug, Clone)]
pub struct CgroupConfig {
    pub cpu_shares: Option<u64>,
    pub cpu_quota: Option<i64>,
    pub cpuset_cpus: Option<String>,
    pub cpuset_mems: Option<String>,
    pub memory: i64,
    pub pids_limit: i64,
}

impl Default for CgroupConfig {
    /// All cpu knobs unset, memory and pids limits zero.
    fn default() -> (r: Self)
        ensures
            r.cpu_shares is None,
            r.cpu_quota is None,
            r.cpuset_cpus is None,
            r.cpuset_mems is None,
            r.memory == 0,
            r.pids_limit == 0,
    {
        CgroupConfig {
            cpu_shares: None,
            cpu_quota: None,
            cpuset_cpus: None,
            cpuset_mems: None,
            memory: 0,
            pids_limit: 0,
        }
    }
}

/// The rlimit triplet the runner installs.
#[derive(Debug, Clone)]
pub struct RlimitConfig {
    pub core: RlimitItem,
    pub fsize: RlimitItem,
    pub no_file: RlimitItem,
}

/// A hard/soft resource-limit pair, as enforced by the operating system on
/// the sandboxed process.
#[derive(Debug, Clone, PartialEq, Eq, Structural)]
pub struct RlimitItem {
    hard: u64,
    soft: u64,
}

impl RlimitItem {
    pub closed spec fn spec_hard(&self) -> u64 {
        self.hard
    }

    pub closed spec fn spec_soft(&self) -> u64 {
        self.soft
    }

    /// Builds a limit whose hard and soft ceilings are both `value`.
    pub fn new_single(value: u64) -> (r: Self)
        ensures
            r.spec_hard() == value,
            r.spec_soft() == value,
    {
        Self { hard: value, soft: value }
    }

    pub fn hard(&self) -> (r: u64)
        ensures
            r == self.spec_hard(),
    {
        self.hard
    }

    pub fn soft(&self) -> (r: u64)
        ensures
            r == self.spec_soft(),
    {
        self.soft
    }
}

/// The runner's execution outcome: an already-classified status plus exit
/// code, optional terminating signal name and resource usage measurements.
#[derive(Debug, Clone)]
pub struct ContainerExecutionReport {
    pub status: ContainerExecutionStatus,
    pub exit_code: i64,
    pub signal: Option<String>,
    pub wall_time_ms: u64,
    pub cpu_user_time_ms: u64,
    pub cpu_kernel_time_ms: u64,
    pub memory_usage_kib: u64,
}

/// The closed set of termination statuses the runner may report. Only the
/// runner itself may emit `Unknown`; an unrecognized token on the wire is a
/// schema error, never coerced to `Unknown`.
#[derive(Debug, Clone, Copy, PartialEq, Eq, Structural)]
pub enum ContainerExecutionStatus {
    Normal,
    RuntimeError,
    SignalTerminate,
    UserTimeLimitExceeded,
    WallTimeLimitExceeded,
    MemoryLimitExceeded,
    OutputLimitExceeded,
    Unknown,
}

/// A report payload that does not fit the schema: a status token outside the
/// closed set.
#[derive(Debug, Clone)]
pub enum SchemaError {
    UnknownStatus(String),
}

/// The canonical uppercase token of each status, used identically on the
/// wire and for display.
pub open spec fn status_token(s: ContainerExecutionStatus) -> Seq<char> {
    match s {
        ContainerExecutionStatus::Normal => "NORMAL"@,
        ContainerExecutionStatus::RuntimeError => "RUNTIME_ERROR"@,
        ContainerExecutionStatus::SignalTerminate => "SIGNAL_TERMINATE"@,
        ContainerExecutionStatus::UserTimeLimitExceeded => "USER_TIME_LIMIT_EXCEEDED"@,
        ContainerExecutionStatus::WallTimeLimitExceeded => "WALL_TIME_LIMIT_EXCEEDED"@,
        ContainerExecutionStatus::MemoryLimitExceeded => "MEMORY_LIMIT_EXCEEDED"@,
        ContainerExecutionStatus::OutputLimitExceeded => "OUTPUT_LIMIT_EXCEEDED"@,
        ContainerExecutionStatus::Unknown => "UNKNOWN"@,
    }
}

/// The status a token names, if any: the inverse reading of `status_token`.
pub open spec fn status_of_token(t: Seq<char>) -> Option<ContainerExecutionStatus> {
    if t == "NORMAL"@ {
        Some(ContainerExecutionStatus::Normal)
    } else if t == "RUNTIME_ERROR"@ {
        Some(ContainerExecutionStatus::RuntimeError)
    } else if t == "SIGNAL_TERMINATE"@ {
        Some(ContainerExecutionStatus::SignalTerminate)
    } else if t == "USER_TIME_LIMIT_EXCEEDED"@ {
        Some(ContainerExecutionStatus::UserTimeLimitExceeded)
    } else if t == "WALL_TIME_LIMIT_EXCEEDED"@ {
        Some(ContainerExecutionStatus::WallTimeLimitExceeded)
    } else if t == "MEMORY_LIMIT_EXCEEDED"@ {
        Some(ContainerExecutionStatus::MemoryLimitExceeded)
    } else if t == "OUTPUT_LIMIT_EXCEEDED"@ {
        Some(ContainerExecutionStatus::OutputLimitExceeded)
    } else if t == "UNKNOWN"@ {
        Some(ContainerExecutionStatus::Unknown)
    } else {
        None
    }
}

/// The wire token and the display form are one and the same: rendering any
/// status and reading the token back yields that status, so transport over
/// the token loses nothing.
pub proof fn lemma_status_token_round_trip(s: ContainerExecutionStatus)
    ensures
        status_of_token(status_token(s)) == Some(s),
{
    broadcast use vstd::string::group_string_axioms;

    reveal_strlit("NORMAL");
    reveal_strlit("RUNTIME_ERROR");
    reveal_strlit("SIGNAL_TERMINATE");
    reveal_strlit("USER_TIME_LIMIT_EXCEEDED");
    reveal_strlit("WALL_TIME_LIMIT_EXCEEDED");
    reveal_strlit("MEMORY_LIMIT_EXCEEDED");
    reveal_strlit("OUTPUT_LIMIT_EXCEEDED");
    reveal_strlit("UNKNOWN");
    assert("NORMAL"@.len() == 6);
    assert("RUNTIME_ERROR"@.len() == 13);
    assert("SIGNAL_TERMINATE"@.len() == 16);
    assert("USER_TIME_LIMIT_EXCEEDED"@.len() == 24);
    assert("WALL_TIME_LIMIT_EXCEEDED"@.len() == 24);
    assert("MEMORY_LIMIT_EXCEEDED"@.len() == 21);
    assert("OUTPUT_LIMIT_EXCEEDED"@.len() == 21);
    assert("UNKNOWN"@.len() == 7);
    assert("WALL_TIME_LIMIT_EXCEEDED"@[0] != "USER_TIME_LIMIT_EXCEEDED"@[0]);
    assert("OUTPUT_LIMIT_EXCEEDED"@[0] != "MEMORY_LIMIT_EXCEEDED"@[0]);
}

/// Verified string equality, by way of the owned-string comparison that
/// vstd specifies.
fn str_eq(a: &str, b: &str) -> (r: bool)
    ensures
        r == (a@ == b@),
{
    let sa: String = a.to_owned();
    let sb: String = b.to_owned();
    sa == sb
}

impl ContainerExecutionStatus {
    /// The canonical uppercase rendering of this status, identical to its
    /// wire token.
    pub fn to_token(&self) -> (r: String)
        ensures
            r@ == status_token(*self),
    {
        match self {
            ContainerExecutionStatus::Normal => "NORMAL".to_owned(),
            ContainerExecutionStatus::RuntimeError => "RUNTIME_ERROR".to_owned(),
            ContainerExecutionStatus::SignalTerminate => "SIGNAL_TERMINATE".to_owned(),
            ContainerExecutionStatus::UserTimeLimitExceeded => "USER_TIME_LIMIT_EXCEEDED".to_owned(),
            ContainerExecutionStatus::WallTimeLimitExceeded => "WALL_TIME_LIMIT_EXCEEDED".to_owned(),
            ContainerExecutionStatus::MemoryLimitExceeded => "MEMORY_LIMIT_EXCEEDED".to_owned(),
            ContainerExecutionStatus::OutputLimitExceeded => "OUTPUT_LIMIT_EXCEEDED".to_owned(),
            ContainerExecutionStatus::Unknown => "UNKNOWN".to_owned(),
        }
    }

    /// Reads a wire token back into a status. Exactly the eight canonical
    /// tokens are accepted; anything else is a `SchemaError` carrying the
    /// offending token.
    pub fn from_token(t: &str) -> (r: Result<Self, SchemaError>)
        ensures
            match status_of_token(t@) {
                Some(s) => r matches Ok(x) && x == s,
                None => r matches Err(SchemaError::UnknownStatus(u)) && u@ == t@,
            },
    {
        if str_eq(t, "NORMAL") {
            Ok(ContainerExecutionStatus::Normal)
        } else if str_eq(t, "RUNTIME_ERROR") {
            Ok(ContainerExecutionStatus::RuntimeError)
        } else if str_eq(t, "SIGNAL_TERMINATE") {
            Ok(ContainerExecutionStatus::SignalTerminate)
        } else if str_eq(t, "USER_TIME_LIMIT_EXCEEDED") {
            Ok(ContainerExecutionStatus::UserTimeLimitExceeded)
        } else if str_eq(t, "WALL_TIME_LIMIT_EXCEEDED") {
            Ok(ContainerExecutionStatus::WallTimeLimitExceeded)
        } else if str_eq(t, "MEMORY_LIMIT_EXCEEDED") {
            Ok(ContainerExecutionStatus::MemoryLimitExceeded)
        } else if str_eq(t, "OUTPUT_LIMIT_EXCEEDED") {
            Ok(ContainerExecutionStatus::OutputLimitExceeded)
        } else if str_eq(t, "UNKNOWN") {
            Ok(ContainerExecutionStatus::Unknown)
        } else {
            Err(SchemaError::UnknownStatus(t.to_owned()))
        }
    }
}

impl ContainerExecutionReport {
    /// Assembles a report from the runner's wire fields, validating the
    /// status token against the closed set. A token outside the set fails
    /// with `SchemaError` rather than being coerced to any status.
    pub fn from_parts(
        status_token_str: &str,
        exit_code: i64,
        signal: Option<String>,
        wall_time_ms: u64,
        cpu_user_time_ms: u64,
        cpu_kernel_time_ms: u64,
        memory_usage_kib: u64,
    ) -> (r: Result<Self, SchemaError>)
        ensures
            match status_of_token(status_token_str@) {
                Some(s) => r matches Ok(rep) && rep.status == s && rep.exit_code == exit_code
                    && rep.signal == signal && rep.wall_time_ms == wall_time_ms
                    && rep.cpu_user_time_ms == cpu_user_time_ms && rep.cpu_kernel_time_ms
                    == cpu_kernel_time_ms && rep.memory_usage_kib == memory_usage_kib,
                None => r matches Err(SchemaError::UnknownStatus(u)) && u@ == status_token_str@,
            },
    {
        match ContainerExecutionStatus::from_token(status_token_str) {
            Ok(status) => Ok(ContainerExecutionReport {
                status,
                exit_code,
                signal,
                wall_time_ms,
                cpu_user_time_ms,
                cpu_kernel_time_ms,
                memory_usage_kib,
            }),
            Err(e) => Err(e),
        }
    }
}

} // verus!
