//! The server preflight as a sequence of remote commands: after each
//! command's result, [`PreflightRun::advance`] says what the server has shown,
//! which command runs next, or how the preflight ends. A failing check ends
//! the run at once, and the run only succeeds once every check has passed.
use vstd::prelude::*;
use crate::decimal::parse_u64_spec;
use crate::preflight::{
    DEFAULT_SERVER_HTTP_PORT,
    dns_probe_command, dns_probe_command_spec, firewall_check, https_probe_command,
    https_probe_command_spec, https_probe_outcome, installed_version, is_debian_like,
    listener_lines, map_remote_arch, memory_is_low, nonempty_trimmed, optional_sudo_route,
    parse_available_memory, parse_os_release_field, port_probe_commands, remote_arch_spec,
    runtime_settings, check_free_disk, check_init_system, check_kernel, check_port,
    sudo_check_outcome, sudo_check_plan, assess_ufw_status, summarize_spec, ExecResult,
    FirewallCheck, HttpsProbeOutcome, PreflightError, PreflightReport, ServerRuntimePlan,
    SshTarget, SudoCheck, SudoRoute, UfwAssessment, MIN_DISK_KB, sudo_password_text,
    os_release_field_spec, ufw_assessment_spec, lowercase_of, WARN_MEM_KB, login_password,
    password_line, passwordless_probe, port_probe_command_spec,
};
use crate::text::{contains_spec, has_word, lines_spec, trim_spec};

verus! {

/// The remote command of a stage of the preflight.
#[derive(Debug, PartialEq, Eq, Structural, Clone, Copy)]
pub enum PreflightStage {
    Kernel,
    OsRelease,
    AptGet,
    InitSystem,
    Systemctl,
    Sudo,
    Arch,
    Disk,
    Memory,
    /// The DNS probe of the `index`-th host of [`dns_check`].
    Dns { index: usize },
    /// The HTTPS probe of the `index`-th URL of [`https_check`].
    Https { index: usize },
    HasBin,
    HasUnit,
    ServiceActive,
    CredentialsFull,
    Version,
    /// The listener probe on the listen port, as [`optional_sudo_route`] runs it.
    PortProbe,
    /// The fallback listener probe, after the passwordless probe failed.
    PortFallback,
    ProxyBinaries,
    UfwInstalled,
    UfwStatus,
    /// The preflight has ended.
    Stopped,
}

/// What the preflight learns from one remote command, in the order the
/// commands run.
#[derive(Debug, PartialEq, Eq, Structural, Clone, Copy)]
pub enum Check {
    Kernel,
    AptGet,
    InitSystem,
    Systemctl,
    Sudo,
    Arch,
    Disk,
    Memory,
    HasBin,
    HasUnit,
    ServiceActive,
    CredentialsFull,
    Version,
    Port,
}

/// The position of a check in the run.
pub open spec fn check_index(c: Check) -> int {
    match c {
        Check::Kernel => 0,
        Check::AptGet => 1,
        Check::InitSystem => 2,
        Check::Systemctl => 3,
        Check::Sudo => 4,
        Check::Arch => 5,
        Check::Disk => 6,
        Check::Memory => 7,
        Check::HasBin => 8,
        Check::HasUnit => 9,
        Check::ServiceActive => 10,
        Check::CredentialsFull => 11,
        Check::Version => 12,
        Check::Port => 13,
    }
}

/// How many checks are behind a run at `stage`.
pub open spec fn stage_index(stage: PreflightStage) -> int {
    match stage {
        PreflightStage::Kernel => 0,
        PreflightStage::OsRelease => 1,
        PreflightStage::AptGet => 1,
        PreflightStage::InitSystem => 2,
        PreflightStage::Systemctl => 3,
        PreflightStage::Sudo => 4,
        PreflightStage::Arch => 5,
        PreflightStage::Disk => 6,
        PreflightStage::Memory => 7,
        PreflightStage::Dns { .. } => 8,
        PreflightStage::Https { .. } => 8,
        PreflightStage::HasBin => 8,
        PreflightStage::HasUnit => 9,
        PreflightStage::ServiceActive => 10,
        PreflightStage::CredentialsFull => 11,
        PreflightStage::Version => 12,
        PreflightStage::PortProbe => 13,
        PreflightStage::PortFallback => 13,
        PreflightStage::ProxyBinaries => 14,
        PreflightStage::UfwInstalled => 14,
        PreflightStage::UfwStatus => 14,
        PreflightStage::Stopped => 14,
    }
}

/// The checks that stop the preflight when they fail.
pub open spec fn is_gate(c: Check) -> bool {
    match c {
        Check::Kernel | Check::AptGet | Check::InitSystem | Check::Systemctl | Check::Sudo
        | Check::Arch | Check::Disk | Check::Memory | Check::Port => true,
        _ => false,
    }
}

/// What the run observed of one remote command: the command it sent, the
/// command's stdout, and its exit status.
pub type Observed = (Seq<char>, Seq<char>, i32);

/// Whether the listener probe printed a listener.
pub open spec fn port_in_use_spec(stdout: Seq<char>) -> bool {
    nonempty_trimmed(lines_spec(stdout)).len() > 0
}

/// Whether check `c`, having observed `o`, holds of the run `s`: for a gate,
/// that the server passed it; for the others, that `s` recorded what the
/// command showed.
pub open spec fn check_holds(c: Check, o: Observed, s: PreflightRun) -> bool {
    match c {
        Check::Kernel => o.0 == "uname -s"@ && trim_spec(o.1) == "Linux"@,
        Check::AptGet => o.0 == "command -v apt-get >/dev/null 2>&1"@ && o.2 == 0,
        Check::InitSystem => o.0 == "ps -p 1 -o comm= | tr -d '[:space:]'"@ && trim_spec(o.1)
            == "systemd"@,
        Check::Systemctl => o.0 == "command -v systemctl >/dev/null 2>&1"@ && o.2 == 0,
        Check::Sudo => o.0 == s.sudo_cmd@ && o.2 == 0,
        Check::Arch => o.0 == "uname -m"@ && remote_arch_spec(o.1) == Some(s.remote_arch@),
        Check::Disk => o.0 == "df -Pk / | awk 'NR==2 {print $4}'"@ && (parse_u64_spec(
            trim_spec(o.1),
        ) matches Some(kb) && kb >= MIN_DISK_KB),
        Check::Memory => o.0 == "awk '/MemAvailable:/ {print $2}' /proc/meminfo"@ && parse_u64_spec(
            trim_spec(o.1),
        ) is Some,
        Check::HasBin => o.0 == "test -x /opt/secluso/bin/secluso-server"@ && s.remote_has_bin == (
        o.2 == 0),
        Check::HasUnit => o.0
            == "systemctl list-unit-files --type=service | awk '{print $1}' | grep -qx 'secluso-server.service'"@
            && s.remote_has_unit == (o.2 == 0),
        Check::ServiceActive => o.0 == "systemctl is-active --quiet secluso-server.service"@
            && s.service_active == (o.2 == 0),
        Check::CredentialsFull => o.0 == "test -f /var/lib/secluso/credentials_full"@
            && s.remote_has_credentials_full == (o.2 == 0),
        Check::Version => o.0
            == "if [ -x /opt/secluso/bin/secluso-server ]; then /opt/secluso/bin/secluso-server --version 2>/dev/null | head -n1; fi"@
            && s.remote_has_bin && match s.installed_version {
            Some(v) => v@ == trim_spec(o.1) && v@.len() > 0,
            None => trim_spec(o.1).len() == 0,
        },
        Check::Port => ((o.0 == s.port_cmd@ && (s.port_fallback is Some ==> o.2 == 0)) || ((
        s.port_fallback matches Some(f) && o.0 == f@))) && s.port_in_use == port_in_use_spec(o.1)
            && (port_in_use_spec(o.1) ==> (contains_spec(o.1, "secluso-server"@)
            || s.remote_has_bin || s.remote_has_unit)),
    }
}

/// The hosts whose name resolution is probed, with the warning for a failure.
pub open spec fn dns_check_spec(index: int) -> (Seq<char>, Seq<char>) {
    if index == 0 {
        ("api.github.com"@, "Future auto-updates may fail until the server can resolve api.github.com."@)
    } else if index == 1 {
        ("oauth2.googleapis.com"@, "Firebase push setup may fail until the server can resolve oauth2.googleapis.com."@)
    } else {
        ("fcm.googleapis.com"@, "Push notifications may fail until the server can resolve fcm.googleapis.com."@)
    }
}

/// How many hosts the DNS probes cover.
pub const DNS_CHECKS: usize = 3;

/// How many URLs the HTTPS probes cover.
pub const HTTPS_CHECKS: usize = 2;

/// The `index`-th host whose resolution is probed, and the warning when it fails.
pub fn dns_check(index: usize) -> (r: (&'static str, &'static str))
    requires
        index < DNS_CHECKS,
    ensures
        (r.0@, r.1@) == dns_check_spec(index as int),
{
    if index == 0 {
        ("api.github.com", "Future auto-updates may fail until the server can resolve api.github.com.")
    } else if index == 1 {
        ("oauth2.googleapis.com", "Firebase push setup may fail until the server can resolve oauth2.googleapis.com.")
    } else {
        ("fcm.googleapis.com", "Push notifications may fail until the server can resolve fcm.googleapis.com.")
    }
}

/// The URLs reached over HTTPS, with the warning for a failure.
pub open spec fn https_check_spec(index: int) -> (Seq<char>, Seq<char>) {
    if index == 0 {
        ("https://api.github.com"@, "Future auto-updates may fail until the server can reach GitHub over HTTPS."@)
    } else {
        ("https://oauth2.googleapis.com"@, "Firebase push setup may fail until the server can reach Google OAuth over HTTPS."@)
    }
}

/// The `index`-th URL reached over HTTPS, and the warning when it fails.
pub fn https_check(index: usize) -> (r: (&'static str, &'static str))
    requires
        index < HTTPS_CHECKS,
    ensures
        (r.0@, r.1@) == https_check_spec(index as int),
{
    if index == 0 {
        ("https://api.github.com", "Future auto-updates may fail until the server can reach GitHub over HTTPS.")
    } else {
        ("https://oauth2.googleapis.com", "Firebase push setup may fail until the server can reach Google OAuth over HTTPS.")
    }
}

/// A progress remark of the preflight, for the log.
#[derive(Debug)]
pub enum PreflightNote {
    /// The kernel `uname -s` printed.
    Kernel { kernel: String },
    /// The distribution's pretty name.
    Distribution { name: String },
    /// The distribution is not clearly Debian- or Ubuntu-like.
    NotDebianLike,
    /// The login is root; sudo was not checked.
    SudoNotNeeded,
    /// Sudo works in the mode so labelled.
    SudoVerified { mode_label: String },
    /// The CPU architecture and the release bundle chosen for it.
    Arch { arch: String, bundle: String },
    /// Free space on `/` in KiB.
    FreeDisk { avail_kb: u64 },
    /// Available memory in KiB, and whether that is low.
    Memory { avail_kb: u64, low: bool },
    /// Whether the `index`-th host of [`dns_check`] resolved.
    Dns { index: usize, resolved: bool },
    /// What the HTTPS probe of the `index`-th URL of [`https_check`] found.
    Https { index: usize, outcome: HttpsProbeOutcome },
    /// A Secluso install is present.
    ExistingInstall { binary: bool, unit: bool, active: bool, version: Option<String> },
    /// The existing install lacks `/var/lib/secluso/credentials_full`.
    MissingCredentialsFull,
    /// No Secluso install is present.
    NoExistingInstall,
    /// A listener on the listen port.
    PortListener { port: u16, line: String },
    /// The listen port is taken, by Secluso or a compatible listener.
    PortUsedBySecluso { port: u16 },
    /// The listen port is free.
    PortFree { port: u16 },
    /// Reverse-proxy mode, and whether a common proxy binary was found.
    Proxy { port: u16, detected: bool },
    /// ufw is not installed.
    UfwMissing { port: u16 },
    /// What `ufw status` says about the port.
    Ufw { port: u16, assessment: UfwAssessment },
}

/// What the preflight asks for next.
#[derive(Debug)]
pub enum PreflightAction {
    /// Run `cmd` on the server, feeding it `stdin`, and pass the result to
    /// [`PreflightRun::advance`].
    Run { cmd: String, stdin: Option<String> },
    /// Every check passed: the server as found.
    Finished(PreflightReport),
    /// The check `check` failed: the preflight stops with `error`.
    Failed { check: Check, error: PreflightError },
}

/// The remarks to log, then what to do.
#[derive(Debug)]
pub struct PreflightStep {
    pub notes: Vec<PreflightNote>,
    pub action: PreflightAction,
}

/// A server preflight in progress.
pub struct PreflightRun {
    pub stage: PreflightStage,
    pub target: SshTarget,
    pub listen_port: u16,
    /// Reverse-proxy mode.
    pub proxy_mode: bool,
    /// Whether the distribution looked Debian- or Ubuntu-like.
    pub debian_like: bool,
    /// The sudo check's command, input and label, once planned.
    pub sudo_cmd: String,
    pub sudo_stdin: Option<String>,
    pub sudo_label: String,
    pub remote_arch: String,
    pub remote_has_bin: bool,
    pub remote_has_unit: bool,
    pub service_active: bool,
    pub remote_has_credentials_full: bool,
    pub installed_version: Option<String>,
    /// The listener probe, its input, and the fallback to run if it fails
    /// (`None` when its result stands).
    pub port_cmd: String,
    pub port_stdin: Option<String>,
    pub port_fallback: Option<String>,
    pub port_in_use: bool,
    /// What each check observed so far.
    pub seen: Ghost<Map<Check, Observed>>,
}

/// The command of the stage a run is at.
pub open spec fn stage_command(s: PreflightRun) -> Seq<char> {
    match s.stage {
        PreflightStage::Kernel => "uname -s"@,
        PreflightStage::OsRelease => "if [ -f /etc/os-release ]; then cat /etc/os-release; fi"@,
        PreflightStage::AptGet => "command -v apt-get >/dev/null 2>&1"@,
        PreflightStage::InitSystem => "ps -p 1 -o comm= | tr -d '[:space:]'"@,
        PreflightStage::Systemctl => "command -v systemctl >/dev/null 2>&1"@,
        PreflightStage::Sudo => s.sudo_cmd@,
        PreflightStage::Arch => "uname -m"@,
        PreflightStage::Disk => "df -Pk / | awk 'NR==2 {print $4}'"@,
        PreflightStage::Memory => "awk '/MemAvailable:/ {print $2}' /proc/meminfo"@,
        PreflightStage::Dns { index } => dns_probe_command_spec(dns_check_spec(index as int).0),
        PreflightStage::Https { index } => https_probe_command_spec(https_check_spec(index as int).0),
        PreflightStage::HasBin => "test -x /opt/secluso/bin/secluso-server"@,
        PreflightStage::HasUnit => "systemctl list-unit-files --type=service | awk '{print $1}' | grep -qx 'secluso-server.service'"@,
        PreflightStage::ServiceActive => "systemctl is-active --quiet secluso-server.service"@,
        PreflightStage::CredentialsFull => "test -f /var/lib/secluso/credentials_full"@,
        PreflightStage::Version => "if [ -x /opt/secluso/bin/secluso-server ]; then /opt/secluso/bin/secluso-server --version 2>/dev/null | head -n1; fi"@,
        PreflightStage::PortProbe => s.port_cmd@,
        PreflightStage::PortFallback => match s.port_fallback {
            Some(f) => f@,
            None => Seq::empty(),
        },
        PreflightStage::ProxyBinaries => "command -v nginx >/dev/null 2>&1 || command -v caddy >/dev/null 2>&1 || command -v apache2 >/dev/null 2>&1"@,
        PreflightStage::UfwInstalled => "command -v ufw >/dev/null 2>&1"@,
        PreflightStage::UfwStatus => "ufw status"@,
        PreflightStage::Stopped => Seq::empty(),
    }
}

/// The input fed to the command of the stage a run is at.
pub open spec fn stage_stdin(s: PreflightRun) -> Option<Seq<char>> {
    match s.stage {
        PreflightStage::Sudo => opt_view(s.sudo_stdin),
        PreflightStage::PortProbe => opt_view(s.port_stdin),
        _ => None,
    }
}

/// The text of an optional string.
pub open spec fn opt_view(o: Option<String>) -> Option<Seq<char>> {
    match o {
        Some(v) => Some(v@),
        None => None,
    }
}

/// The sudo check planned for a login other than root (see
/// [`sudo_check_plan`]): its command, its input and its label.
pub open spec fn planned_sudo_check(t: SshTarget) -> (Seq<char>, Option<Seq<char>>, Seq<char>) {
    if t.sudo.mode@ == "password"@ {
        (
            "sudo -S -p '' true"@,
            Some(password_line(sudo_password_text(t))),
            "explicit sudo password"@,
        )
    } else if t.sudo.mode@ == "same"@ {
        match login_password(t) {
            Some(p) => ("sudo -S -p '' true"@, Some(password_line(p)), "same-as-login password"@),
            None => ("sudo -n true"@, None, "passwordless sudo"@),
        }
    } else {
        ("sudo -n true"@, None, "passwordless sudo"@)
    }
}

/// The listener probe planned for `port` (see [`optional_sudo_route`] over
/// [`port_probe_command_spec`]): the command, its input, and the fallback
/// run when it fails, if any.
pub open spec fn planned_port_probe(t: SshTarget, port: u16) -> (
    Seq<char>,
    Option<Seq<char>>,
    Option<Seq<char>>,
) {
    let with_sudo = port_probe_command_spec(port, true);
    let without = port_probe_command_spec(port, false);
    if t.user@ == "root"@ {
        (with_sudo, None, None)
    } else if t.sudo.mode@ == "password"@ {
        if sudo_password_text(t).len() == 0 {
            (without, None, None)
        } else {
            (with_sudo, Some(password_line(sudo_password_text(t))), None)
        }
    } else if t.sudo.mode@ == "same"@ {
        match login_password(t) {
            Some(p) => (with_sudo, Some(password_line(p)), None),
            None => (passwordless_probe(), None, Some(without)),
        }
    } else {
        (without, None, None)
    }
}

/// The stage after `s.stage` when its command exited with `exit` and no
/// check failed; [`PreflightStage::Stopped`] when the preflight is done.
pub open spec fn next_stage(s: PreflightRun, exit: i32) -> PreflightStage {
    match s.stage {
        PreflightStage::Kernel => PreflightStage::OsRelease,
        PreflightStage::OsRelease => PreflightStage::AptGet,
        PreflightStage::AptGet => PreflightStage::InitSystem,
        PreflightStage::InitSystem => PreflightStage::Systemctl,
        PreflightStage::Systemctl => if s.target.user@ == "root"@ {
            PreflightStage::Arch
        } else {
            PreflightStage::Sudo
        },
        PreflightStage::Sudo => PreflightStage::Arch,
        PreflightStage::Arch => PreflightStage::Disk,
        PreflightStage::Disk => PreflightStage::Memory,
        PreflightStage::Memory => PreflightStage::Dns { index: 0 },
        PreflightStage::Dns { index } => if index + 1 < DNS_CHECKS {
            PreflightStage::Dns { index: (index + 1) as usize }
        } else {
            PreflightStage::Https { index: 0 }
        },
        PreflightStage::Https { index } => if index + 1 < HTTPS_CHECKS {
            PreflightStage::Https { index: (index + 1) as usize }
        } else {
            PreflightStage::HasBin
        },
        PreflightStage::HasBin => PreflightStage::HasUnit,
        PreflightStage::HasUnit => PreflightStage::ServiceActive,
        PreflightStage::ServiceActive => PreflightStage::CredentialsFull,
        PreflightStage::CredentialsFull => if s.remote_has_bin {
            PreflightStage::Version
        } else {
            PreflightStage::PortProbe
        },
        PreflightStage::Version => PreflightStage::PortProbe,
        PreflightStage::PortProbe => if s.port_fallback is Some && exit != 0 {
            PreflightStage::PortFallback
        } else if s.proxy_mode {
            PreflightStage::ProxyBinaries
        } else {
            PreflightStage::UfwInstalled
        },
        PreflightStage::PortFallback => if s.proxy_mode {
            PreflightStage::ProxyBinaries
        } else {
            PreflightStage::UfwInstalled
        },
        PreflightStage::ProxyBinaries => PreflightStage::Stopped,
        PreflightStage::UfwInstalled => if exit == 0 {
            PreflightStage::UfwStatus
        } else {
            PreflightStage::Stopped
        },
        PreflightStage::UfwStatus => PreflightStage::Stopped,
        PreflightStage::Stopped => PreflightStage::Stopped,
    }
}

/// The check that the result of the command at `s.stage` settles, if any
/// (the passwordless listener probe settles nothing when it fails and a
/// fallback follows).
pub open spec fn settled_check(s: PreflightRun, exit: i32) -> Option<Check> {
    match s.stage {
        PreflightStage::Kernel => Some(Check::Kernel),
        PreflightStage::AptGet => Some(Check::AptGet),
        PreflightStage::InitSystem => Some(Check::InitSystem),
        PreflightStage::Systemctl => Some(Check::Systemctl),
        PreflightStage::Sudo => Some(Check::Sudo),
        PreflightStage::Arch => Some(Check::Arch),
        PreflightStage::Disk => Some(Check::Disk),
        PreflightStage::Memory => Some(Check::Memory),
        PreflightStage::HasBin => Some(Check::HasBin),
        PreflightStage::HasUnit => Some(Check::HasUnit),
        PreflightStage::ServiceActive => Some(Check::ServiceActive),
        PreflightStage::CredentialsFull => Some(Check::CredentialsFull),
        PreflightStage::Version => Some(Check::Version),
        PreflightStage::PortProbe => if s.port_fallback is Some && exit != 0 {
            None
        } else {
            Some(Check::Port)
        },
        PreflightStage::PortFallback => Some(Check::Port),
        _ => None,
    }
}

/// Whether check `c` of the run `s` fails on the command result `out` with
/// `e`: the error of the first check the server does not pass.
pub open spec fn fails_with(c: Check, s: PreflightRun, out: ExecResult, e: PreflightError) -> bool {
    let text = trim_spec(out.stdout@);
    match c {
        Check::Kernel => text != "Linux"@ && (e matches PreflightError::UnsupportedOs { kernel }
            && kernel@ == text),
        Check::AptGet => out.exit != 0 && e is MissingAptGet,
        Check::InitSystem => text != "systemd"@ && e is NotSystemd,
        Check::Systemctl => out.exit != 0 && e is MissingSystemctl,
        Check::Sudo => (s.stage is Systemctl && s.target.user@ != "root"@ && s.target.sudo.mode@
            == "password"@ && sudo_password_text(s.target).len() == 0 && e is EmptySudoPassword)
            || (s.stage is Sudo && out.exit != 0 && (e matches PreflightError::SudoFailed {
            mode_label,
            detail,
        } && mode_label@ == s.sudo_label@ && detail@ == summarize_spec(
            out.stdout@,
            out.stderr@,
            out.exit,
        ))),
        Check::Arch => remote_arch_spec(out.stdout@) is None && (
        e matches PreflightError::UnsupportedArch { arch } && arch@ == text),
        Check::Disk => match parse_u64_spec(text) {
            Some(kb) => kb < MIN_DISK_KB && (e matches PreflightError::InsufficientDisk {
                avail_kb,
            } && avail_kb == kb),
            None => e matches PreflightError::ParseField { label, raw } && label@
                == "available disk space"@ && raw@ == text,
        },
        Check::Memory => parse_u64_spec(text) is None && (
        e matches PreflightError::ParseField { label, raw } && label@ == "available memory"@
            && raw@ == text),
        Check::Port => port_in_use_spec(out.stdout@) && !(contains_spec(
            out.stdout@,
            "secluso-server"@,
        ) || s.remote_has_bin || s.remote_has_unit) && (e matches PreflightError::PortInUse {
            port,
        } && port == s.listen_port),
        _ => false,
    }
}

/// The report of a run whose checks all passed.
pub open spec fn reports(r: PreflightReport, s: PreflightRun) -> bool {
    &&& r.remote_has_bin == s.remote_has_bin
    &&& r.remote_has_unit == s.remote_has_unit
    &&& r.service_active == s.service_active
    &&& opt_view(r.installed_version) == opt_view(s.installed_version)
    &&& r.port_in_use == s.port_in_use
    &&& r.remote_has_credentials_full == s.remote_has_credentials_full
    &&& r.remote_arch@ == s.remote_arch@
}

/// Whether the run `s` has observed check `c`, and `c` holds.
pub open spec fn checked(s: PreflightRun, c: Check) -> bool {
    s.seen@.contains_key(c) && check_holds(c, s.seen@[c], s)
}

/// Whether check `c` is settled in the run `s`: observed and holding, or
/// rightly skipped (no sudo check for root; no version query, and no
/// version, without the binary).
pub open spec fn accounted(s: PreflightRun, c: Check) -> bool {
    ||| checked(s, c)
    ||| (c is Sudo && s.target.user@ == "root"@)
    ||| (c is Version && !s.remote_has_bin && s.installed_version is None)
}

/// Every check behind a consistent run has been observed and holds.
proof fn lemma_checked_below(s: PreflightRun)
    requires
        s.wf(),
    ensures
        forall|c: Check| #[trigger] check_index(c) < stage_index(s.stage) ==> accounted(s, c),
{
    assert forall|c: Check| #[trigger] check_index(c) < stage_index(s.stage) implies accounted(s, c) by {
        match c {
            Check::Kernel => {},
            Check::AptGet => {},
            Check::InitSystem => {},
            Check::Systemctl => {},
            Check::Sudo => {},
            Check::Arch => {},
            Check::Disk => {},
            Check::Memory => {},
            Check::HasBin => {},
            Check::HasUnit => {},
            Check::ServiceActive => {},
            Check::CredentialsFull => {},
            Check::Version => {},
            Check::Port => {},
        }
    }
}

/// Whether the os-release text `contents` names a Debian- or Ubuntu-style
/// distribution, by `ID` or by a word of `ID_LIKE`.
pub open spec fn os_release_debian_like(contents: Seq<char>) -> bool {
    let id = os_release_field_spec(contents, "ID"@);
    let like = match os_release_field_spec(contents, "ID_LIKE"@) {
        Some(l) => l,
        None => Seq::empty(),
    };
    ||| id == Some("debian"@)
    ||| id == Some("ubuntu"@)
    ||| has_word(like, "debian"@)
    ||| has_word(like, "ubuntu"@)
}

/// What an HTTPS probe that exited with `exit` found.
pub open spec fn https_outcome_spec(exit: i32) -> HttpsProbeOutcome {
    if exit == 0 {
        HttpsProbeOutcome::Reachable
    } else if exit == 42 {
        HttpsProbeOutcome::CurlMissing
    } else {
        HttpsProbeOutcome::Unreachable
    }
}

/// Whether `notes` are one remark per listener line `lines` on `port`.
pub open spec fn listener_notes(port: u16, lines: Seq<Seq<char>>, notes: Seq<PreflightNote>) -> bool {
    &&& notes.len() == lines.len()
    &&& forall|i: int| 0 <= i < lines.len() ==> (#[trigger] notes[i] matches PreflightNote::PortListener {
        port: p,
        line,
    } && p == port && line@ == lines[i])
}

/// Whether `notes` say what was found of an existing install in `s`.
pub open spec fn install_notes(s: PreflightRun, notes: Seq<PreflightNote>) -> bool {
    if s.remote_has_bin || s.remote_has_unit {
        &&& notes.len() == (if s.remote_has_credentials_full { 1int } else { 2int })
        &&& notes[0] matches PreflightNote::ExistingInstall { binary, unit, active, version }
        &&& binary == s.remote_has_bin
        &&& unit == s.remote_has_unit
        &&& active == s.service_active
        &&& opt_view(version) == opt_view(s.installed_version)
        &&& (!s.remote_has_credentials_full ==> notes[1] is MissingCredentialsFull)
    } else {
        notes.len() == 1 && notes[0] is NoExistingInstall
    }
}

/// Whether `notes` are the remarks of a step from `old` to `new` on the
/// command result `out` that did not fail.
pub open spec fn notes_for(old: PreflightRun, new: PreflightRun, out: ExecResult, notes: Seq<PreflightNote>) -> bool {
    let text = trim_spec(out.stdout@);
    let port = old.listen_port;
    match old.stage {
        PreflightStage::Kernel => notes.len() == 1 && (notes[0] matches PreflightNote::Kernel {
            kernel,
        } && kernel@ == text),
        PreflightStage::OsRelease => match os_release_field_spec(out.stdout@, "PRETTY_NAME"@) {
            Some(name) => notes.len() == 1 && (notes[0] matches PreflightNote::Distribution {
                name: n,
            } && n@ == name),
            None => notes.len() == 0,
        },
        PreflightStage::AptGet => if old.debian_like {
            notes.len() == 0
        } else {
            notes.len() == 1 && notes[0] is NotDebianLike
        },
        PreflightStage::Systemctl => if old.target.user@ == "root"@ {
            notes.len() == 1 && notes[0] is SudoNotNeeded
        } else {
            notes.len() == 0
        },
        PreflightStage::Sudo => notes.len() == 1 && (notes[0] matches PreflightNote::SudoVerified {
            mode_label,
        } && mode_label@ == old.sudo_label@),
        PreflightStage::Arch => notes.len() == 1 && (notes[0] matches PreflightNote::Arch {
            arch,
            bundle,
        } && arch@ == text && bundle@ == new.remote_arch@),
        PreflightStage::Disk => notes.len() == 1 && (notes[0] matches PreflightNote::FreeDisk {
            avail_kb,
        } && parse_u64_spec(text) == Some(avail_kb)),
        PreflightStage::Memory => notes.len() == 1 && (notes[0] matches PreflightNote::Memory {
            avail_kb,
            low,
        } && parse_u64_spec(text) == Some(avail_kb) && low == (avail_kb < WARN_MEM_KB)),
        PreflightStage::Dns { index } => notes.len() == 1 && (notes[0] matches PreflightNote::Dns {
            index: i,
            resolved,
        } && i == index && resolved == (out.exit == 0)),
        PreflightStage::Https { index } => notes.len() == 1 && (
        notes[0] matches PreflightNote::Https { index: i, outcome } && i == index && outcome
            == https_outcome_spec(out.exit)),
        PreflightStage::CredentialsFull => if new.remote_has_bin {
            notes.len() == 0
        } else {
            install_notes(new, notes)
        },
        PreflightStage::Version => install_notes(new, notes),
        PreflightStage::PortProbe | PreflightStage::PortFallback => if new.stage is PortFallback {
            notes.len() == 0
        } else {
            let lines = nonempty_trimmed(lines_spec(out.stdout@));
            &&& notes.len() == lines.len() + 1
            &&& listener_notes(port, lines, notes.take(lines.len() as int))
            &&& if new.port_in_use {
                notes.last() matches PreflightNote::PortUsedBySecluso { port: p } && p == port
            } else {
                notes.last() matches PreflightNote::PortFree { port: p } && p == port
            }
        },
        PreflightStage::ProxyBinaries => notes.len() == 1 && (notes[0] matches PreflightNote::Proxy {
            port: p,
            detected,
        } && p == port && detected == (out.exit == 0)),
        PreflightStage::UfwInstalled => if out.exit == 0 {
            notes.len() == 0
        } else {
            notes.len() == 1 && (notes[0] matches PreflightNote::UfwMissing { port: p } && p == port)
        },
        PreflightStage::UfwStatus => notes.len() == 1 && (notes[0] matches PreflightNote::Ufw {
            port: p,
            assessment,
        } && p == port && assessment == ufw_assessment_spec(lowercase_of(out.stdout@), port)),
        _ => notes.len() == 0,
    }
}

/// Whether `notes` are the remarks of a step that failed check `c`: the
/// listener lines when the listen port is taken, else none.
pub open spec fn failed_notes(c: Check, old: PreflightRun, out: ExecResult, notes: Seq<PreflightNote>) -> bool {
    if c is Port {
        listener_notes(old.listen_port, nonempty_trimmed(lines_spec(out.stdout@)), notes)
    } else {
        notes.len() == 0
    }
}

/// What one step of a run does: from `old`, given the result `out` of its
/// command, to `new`, returning `r`.
pub open spec fn advanced(old: PreflightRun, new: PreflightRun, out: ExecResult, r: PreflightStep) -> bool {
    &&& (new.target == old.target)
    &&& (new.listen_port == old.listen_port)
    &&& (new.proxy_mode == old.proxy_mode)
    &&& (old.stage is OsRelease ==> new.debian_like == os_release_debian_like(out.stdout@))
    &&& forall|c: Check| #[trigger] old.seen@.contains_key(c) ==> new.seen@.contains_key(c)
        && new.seen@[c] == old.seen@[c]
    &&& forall|c: Check| #[trigger] new.seen@.contains_key(c) && !old.seen@.contains_key(c)
        ==> new.seen@[c] == (stage_command(old), out.stdout@, out.exit)
    &&& (match r.action {
                PreflightAction::Run { cmd, stdin } => {
                    &&& new.wf()
                    &&& new.stage == next_stage(old, out.exit)
                    &&& !(new.stage is Stopped)
                    &&& cmd@ == stage_command(new)
                    &&& opt_view(stdin) == stage_stdin(new)
                    &&& (settled_check(old, out.exit) matches Some(c) ==> new.seen@[c] == (stage_command(old), out.stdout@, out.exit))
                    &&& notes_for(old, new, out, r.notes@)
                },
                PreflightAction::Finished(report) => {
                    &&& new.wf()
                    &&& next_stage(old, out.exit) is Stopped
                    &&& new.stage is Stopped
                    &&& forall|c: Check| #[trigger] accounted(new, c)
                    &&& reports(report, new)
                    &&& notes_for(old, new, out, r.notes@)
                },
                PreflightAction::Failed { check, error } => {
                    &&& new.stage is Stopped
                    &&& is_gate(check)
                    &&& (settled_check(old, out.exit) == Some(check) || (old.stage is Systemctl
                        && check is Sudo))
                    &&& fails_with(check, old, out, error)
                    &&& failed_notes(check, old, out, r.notes@)
                    &&& forall|c: Check| #[trigger] check_index(c) < check_index(check) ==> accounted(
                        new,
                        c,
                    )
                },
            })
}

impl PreflightRun {
    /// A run in a consistent state: every check behind it observed something
    /// and holds, and the stage's index and fields are in range.
    pub open spec fn wf(self) -> bool {
        &&& (stage_index(self.stage) > 0 ==> accounted(self, Check::Kernel))
        &&& (stage_index(self.stage) > 1 ==> accounted(self, Check::AptGet))
        &&& (stage_index(self.stage) > 2 ==> accounted(self, Check::InitSystem))
        &&& (stage_index(self.stage) > 3 ==> accounted(self, Check::Systemctl))
        &&& (stage_index(self.stage) > 4 ==> accounted(self, Check::Sudo))
        &&& (stage_index(self.stage) > 5 ==> accounted(self, Check::Arch))
        &&& (stage_index(self.stage) > 6 ==> accounted(self, Check::Disk))
        &&& (stage_index(self.stage) > 7 ==> accounted(self, Check::Memory))
        &&& (stage_index(self.stage) > 8 ==> accounted(self, Check::HasBin))
        &&& (stage_index(self.stage) > 9 ==> accounted(self, Check::HasUnit))
        &&& (stage_index(self.stage) > 10 ==> accounted(self, Check::ServiceActive))
        &&& (stage_index(self.stage) > 11 ==> accounted(self, Check::CredentialsFull))
        &&& (stage_index(self.stage) > 12 ==> accounted(self, Check::Version))
        &&& (stage_index(self.stage) > 13 ==> accounted(self, Check::Port))
        &&& (self.stage matches PreflightStage::Dns { index } ==> index < DNS_CHECKS)
        &&& (self.stage matches PreflightStage::Https { index } ==> index < HTTPS_CHECKS)
        &&& (self.stage is PortFallback ==> self.port_fallback is Some)
        &&& (self.stage is ProxyBinaries ==> self.proxy_mode)
        &&& (self.stage is UfwInstalled || self.stage is UfwStatus ==> !self.proxy_mode)
        &&& (self.stage is Sudo ==> self.target.user@ != "root"@)
        &&& (self.stage is Version ==> self.remote_has_bin)
        &&& (stage_index(self.stage) >= 4 && self.target.user@ != "root"@ ==> (
        self.sudo_cmd@,
        opt_view(self.sudo_stdin),
        self.sudo_label@,
    ) == planned_sudo_check(self.target))
        &&& (stage_index(self.stage) >= 13 ==> (
        self.port_cmd@,
        opt_view(self.port_stdin),
        opt_view(self.port_fallback),
    ) == planned_port_probe(self.target, self.listen_port))
        &&& forall|c: Check| #[trigger] self.seen@.contains_key(c) ==> check_index(c) < stage_index(
            self.stage,
        )
    }

    /// The command of the current stage, as an action.
    fn current_action(&self) -> (r: PreflightAction)
        requires
            self.wf(),
            !(self.stage is Stopped),
        ensures
            r matches PreflightAction::Run { cmd, stdin } && cmd@ == stage_command(*self)
                && opt_view(stdin) == stage_stdin(*self),
    {
        let (cmd, stdin): (String, Option<String>) = match self.stage {
            PreflightStage::Kernel => (String::from_str("uname -s"), None),
            PreflightStage::OsRelease => (String::from_str("if [ -f /etc/os-release ]; then cat /etc/os-release; fi"), None),
            PreflightStage::AptGet => (String::from_str("command -v apt-get >/dev/null 2>&1"), None),
            PreflightStage::InitSystem => (String::from_str("ps -p 1 -o comm= | tr -d '[:space:]'"), None),
            PreflightStage::Systemctl => (String::from_str("command -v systemctl >/dev/null 2>&1"), None),
            PreflightStage::Sudo => (self.sudo_cmd.clone(), self.sudo_stdin.clone()),
            PreflightStage::Arch => (String::from_str("uname -m"), None),
            PreflightStage::Disk => (String::from_str("df -Pk / | awk 'NR==2 {print $4}'"), None),
            PreflightStage::Memory => (String::from_str("awk '/MemAvailable:/ {print $2}' /proc/meminfo"), None),
            PreflightStage::Dns { index } => (dns_probe_command(dns_check(index).0), None),
            PreflightStage::Https { index } => (https_probe_command(https_check(index).0), None),
            PreflightStage::HasBin => (String::from_str("test -x /opt/secluso/bin/secluso-server"), None),
            PreflightStage::HasUnit => (String::from_str("systemctl list-unit-files --type=service | awk '{print $1}' | grep -qx 'secluso-server.service'"), None),
            PreflightStage::ServiceActive => (String::from_str("systemctl is-active --quiet secluso-server.service"), None),
            PreflightStage::CredentialsFull => (String::from_str("test -f /var/lib/secluso/credentials_full"), None),
            PreflightStage::Version => (String::from_str("if [ -x /opt/secluso/bin/secluso-server ]; then /opt/secluso/bin/secluso-server --version 2>/dev/null | head -n1; fi"), None),
            PreflightStage::PortProbe => (self.port_cmd.clone(), self.port_stdin.clone()),
            PreflightStage::PortFallback => {
                let f = match &self.port_fallback {
                    Some(f) => f.clone(),
                    None => String::new(),
                };
                (f, None)
            },
            PreflightStage::ProxyBinaries => (String::from_str("command -v nginx >/dev/null 2>&1 || command -v caddy >/dev/null 2>&1 || command -v apache2 >/dev/null 2>&1"), None),
            PreflightStage::UfwInstalled => (String::from_str("command -v ufw >/dev/null 2>&1"), None),
            PreflightStage::UfwStatus => (String::from_str("ufw status"), None),
            PreflightStage::Stopped => (String::new(), None),
        };
        PreflightAction::Run { cmd, stdin }
    }

    /// The report of the server as found.
    fn report(&self) -> (r: PreflightReport)
        ensures
            reports(r, *self),
    {
        PreflightReport {
            remote_has_bin: self.remote_has_bin,
            remote_has_unit: self.remote_has_unit,
            service_active: self.service_active,
            installed_version: self.installed_version.clone(),
            port_in_use: self.port_in_use,
            remote_has_credentials_full: self.remote_has_credentials_full,
            remote_arch: self.remote_arch.clone(),
        }
    }

    /// Plans the listener probe on the listen port and notes what was found
    /// of an existing install.
    fn enter_port_probe(&mut self, notes: &mut Vec<PreflightNote>)
        requires
            old(notes)@.len() == 0,
        ensures
            install_notes(*final(self), final(notes)@),
            final(self).stage is PortProbe,
            final(self).seen == old(self).seen,
            final(self).target == old(self).target,
            final(self).listen_port == old(self).listen_port,
            final(self).proxy_mode == old(self).proxy_mode,
            final(self).remote_arch == old(self).remote_arch,
            final(self).remote_has_bin == old(self).remote_has_bin,
            final(self).remote_has_unit == old(self).remote_has_unit,
            final(self).service_active == old(self).service_active,
            final(self).remote_has_credentials_full == old(self).remote_has_credentials_full,
            final(self).installed_version == old(self).installed_version,
            final(self).port_in_use == old(self).port_in_use,
            final(self).sudo_label == old(self).sudo_label,
            final(self).sudo_cmd == old(self).sudo_cmd,
            final(self).sudo_stdin == old(self).sudo_stdin,
            final(self).debian_like == old(self).debian_like,
            (final(self).port_cmd@, opt_view(final(self).port_stdin), opt_view(
                final(self).port_fallback,
            )) == planned_port_probe(final(self).target, final(self).listen_port),
    {
        proof {
            reveal_strlit("password");
            reveal_strlit("same");
            assert("password"@[0] != "same"@[0]);
        }
        if self.remote_has_bin || self.remote_has_unit {
            notes.push(
                PreflightNote::ExistingInstall {
                    binary: self.remote_has_bin,
                    unit: self.remote_has_unit,
                    active: self.service_active,
                    version: self.installed_version.clone(),
                },
            );
            if !self.remote_has_credentials_full {
                notes.push(PreflightNote::MissingCredentialsFull);
            }
        } else {
            notes.push(PreflightNote::NoExistingInstall);
        }
        let (with_sudo, without_sudo) = port_probe_commands(self.listen_port);
        match optional_sudo_route(&self.target, with_sudo.as_str(), without_sudo.as_str()) {
            SudoRoute::Run { cmd, stdin } => {
                self.port_cmd = cmd;
                self.port_stdin = stdin;
                self.port_fallback = None;
            },
            SudoRoute::ProbeThenFallback { probe, fallback } => {
                self.port_cmd = probe;
                self.port_stdin = None;
                self.port_fallback = Some(fallback);
            },
        }
        self.stage = PreflightStage::PortProbe;
    }

    /// [`PreflightRun::advance`] at a stage that checks the operating system, its init system and sudo.
    #[verifier::rlimit(60)]
    fn advance_system(&mut self, out: &ExecResult) -> (r: PreflightStep)
        requires
            old(self).wf(),
            old(self).stage is Kernel || old(self).stage is OsRelease || old(self).stage is AptGet || old(self).stage is InitSystem || old(self).stage is Systemctl || old(self).stage is Sudo,
        ensures
            advanced(*old(self), *final(self), *out, r),
    {
        let mut notes: Vec<PreflightNote> = Vec::new();
        let ghost obs: Observed = (stage_command(*self), out.stdout@, out.exit);
        let stdout = out.stdout.as_str();
        match self.stage {
            PreflightStage::Kernel => {
                if let Err(e) = check_kernel(stdout) {
                    self.stage = PreflightStage::Stopped;
                    return PreflightStep { notes, action: PreflightAction::Failed { check: Check::Kernel, error: e } };
                }
                self.seen = Ghost(self.seen@.insert(Check::Kernel, obs));
                notes.push(PreflightNote::Kernel { kernel: String::from_str(crate::text::trim(stdout)) });
                self.stage = PreflightStage::OsRelease;
            },
            PreflightStage::OsRelease => {
                let pretty = parse_os_release_field(stdout, "PRETTY_NAME");
                let id = parse_os_release_field(stdout, "ID");
                let like = parse_os_release_field(stdout, "ID_LIKE");
                self.debian_like = is_debian_like(&id, &like);
                if let Some(name) = pretty {
                    notes.push(PreflightNote::Distribution { name });
                }
                self.stage = PreflightStage::AptGet;
            },
            PreflightStage::AptGet => {
                if !out.succeeded() {
                    self.stage = PreflightStage::Stopped;
                    return PreflightStep { notes, action: PreflightAction::Failed { check: Check::AptGet, error: PreflightError::MissingAptGet } };
                }
                self.seen = Ghost(self.seen@.insert(Check::AptGet, obs));
                if !self.debian_like {
                    notes.push(PreflightNote::NotDebianLike);
                }
                self.stage = PreflightStage::InitSystem;
            },
            PreflightStage::InitSystem => {
                if let Err(e) = check_init_system(stdout) {
                    self.stage = PreflightStage::Stopped;
                    return PreflightStep { notes, action: PreflightAction::Failed { check: Check::InitSystem, error: e } };
                }
                self.seen = Ghost(self.seen@.insert(Check::InitSystem, obs));
                self.stage = PreflightStage::Systemctl;
            },
            PreflightStage::Systemctl => {
                if !out.succeeded() {
                    self.stage = PreflightStage::Stopped;
                    return PreflightStep { notes, action: PreflightAction::Failed { check: Check::Systemctl, error: PreflightError::MissingSystemctl } };
                }
                self.seen = Ghost(self.seen@.insert(Check::Systemctl, obs));
                match sudo_check_plan(&self.target) {
                    Err(e) => {
                        self.stage = PreflightStage::Stopped;
                        return PreflightStep { notes, action: PreflightAction::Failed { check: Check::Sudo, error: e } };
                    },
                    Ok(SudoCheck::NotNeeded) => {
                        notes.push(PreflightNote::SudoNotNeeded);
                        self.stage = PreflightStage::Arch;
                    },
                    Ok(SudoCheck::Run { cmd, stdin, mode_label }) => {
                        proof {
                            reveal_strlit("password");
                            reveal_strlit("same");
                            assert("password"@[0] != "same"@[0]);
                        }
                        self.sudo_cmd = cmd;
                        self.sudo_stdin = stdin;
                        self.sudo_label = mode_label;
                        self.stage = PreflightStage::Sudo;
                    },
                }
            },
            PreflightStage::Sudo => {
                if let Err(e) = sudo_check_outcome(out, self.sudo_label.as_str()) {
                    self.stage = PreflightStage::Stopped;
                    return PreflightStep { notes, action: PreflightAction::Failed { check: Check::Sudo, error: e } };
                }
                self.seen = Ghost(self.seen@.insert(Check::Sudo, obs));
                notes.push(PreflightNote::SudoVerified { mode_label: self.sudo_label.clone() });
                self.stage = PreflightStage::Arch;
            },
            _ => {
                let report = self.report();
                return PreflightStep { notes, action: PreflightAction::Finished(report) };
            },
        }
        let action = self.current_action();
        PreflightStep { notes, action }
    }

    /// [`PreflightRun::advance`] at a stage that checks the architecture, disk, memory and outbound network.
    #[verifier::rlimit(60)]
    fn advance_resources(&mut self, out: &ExecResult) -> (r: PreflightStep)
        requires
            old(self).wf(),
            old(self).stage is Arch || old(self).stage is Disk || old(self).stage is Memory || old(self).stage is Dns || old(self).stage is Https,
        ensures
            advanced(*old(self), *final(self), *out, r),
    {
        let mut notes: Vec<PreflightNote> = Vec::new();
        let ghost obs: Observed = (stage_command(*self), out.stdout@, out.exit);
        let stdout = out.stdout.as_str();
        match self.stage {
            PreflightStage::Arch => {
                match map_remote_arch(stdout) {
                    Err(e) => {
                        self.stage = PreflightStage::Stopped;
                        return PreflightStep { notes, action: PreflightAction::Failed { check: Check::Arch, error: e } };
                    },
                    Ok(a) => {
                        self.remote_arch = a;
                    },
                }
                self.seen = Ghost(self.seen@.insert(Check::Arch, obs));
                notes.push(PreflightNote::Arch { arch: String::from_str(crate::text::trim(stdout)), bundle: self.remote_arch.clone() });
                self.stage = PreflightStage::Disk;
            },
            PreflightStage::Disk => {
                match check_free_disk(stdout) {
                    Err(e) => {
                        self.stage = PreflightStage::Stopped;
                        return PreflightStep { notes, action: PreflightAction::Failed { check: Check::Disk, error: e } };
                    },
                    Ok(kb) => {
                        notes.push(PreflightNote::FreeDisk { avail_kb: kb });
                    },
                }
                self.seen = Ghost(self.seen@.insert(Check::Disk, obs));
                self.stage = PreflightStage::Memory;
            },
            PreflightStage::Memory => {
                match parse_available_memory(stdout) {
                    Err(e) => {
                        self.stage = PreflightStage::Stopped;
                        return PreflightStep { notes, action: PreflightAction::Failed { check: Check::Memory, error: e } };
                    },
                    Ok(kb) => {
                        notes.push(PreflightNote::Memory { avail_kb: kb, low: memory_is_low(kb) });
                    },
                }
                self.seen = Ghost(self.seen@.insert(Check::Memory, obs));
                self.stage = PreflightStage::Dns { index: 0 };
            },
            PreflightStage::Dns { index } => {
                notes.push(PreflightNote::Dns { index, resolved: out.succeeded() });
                if index + 1 < DNS_CHECKS {
                    self.stage = PreflightStage::Dns { index: index + 1 };
                } else {
                    self.stage = PreflightStage::Https { index: 0 };
                }
            },
            PreflightStage::Https { index } => {
                notes.push(PreflightNote::Https { index, outcome: https_probe_outcome(out.exit) });
                if index + 1 < HTTPS_CHECKS {
                    self.stage = PreflightStage::Https { index: index + 1 };
                } else {
                    self.stage = PreflightStage::HasBin;
                }
            },
            _ => {
                let report = self.report();
                return PreflightStep { notes, action: PreflightAction::Finished(report) };
            },
        }
        let action = self.current_action();
        PreflightStep { notes, action }
    }

    /// [`PreflightRun::advance`] at a stage that checks an existing install.
    #[verifier::rlimit(60)]
    fn advance_install(&mut self, out: &ExecResult) -> (r: PreflightStep)
        requires
            old(self).wf(),
            old(self).stage is HasBin || old(self).stage is HasUnit || old(self).stage is ServiceActive || old(self).stage is CredentialsFull || old(self).stage is Version,
        ensures
            advanced(*old(self), *final(self), *out, r),
    {
        let mut notes: Vec<PreflightNote> = Vec::new();
        let ghost obs: Observed = (stage_command(*self), out.stdout@, out.exit);
        let stdout = out.stdout.as_str();
        match self.stage {
            PreflightStage::HasBin => {
                self.remote_has_bin = out.succeeded();
                self.seen = Ghost(self.seen@.insert(Check::HasBin, obs));
                self.stage = PreflightStage::HasUnit;
            },
            PreflightStage::HasUnit => {
                self.remote_has_unit = out.succeeded();
                self.seen = Ghost(self.seen@.insert(Check::HasUnit, obs));
                self.stage = PreflightStage::ServiceActive;
            },
            PreflightStage::ServiceActive => {
                self.service_active = out.succeeded();
                self.seen = Ghost(self.seen@.insert(Check::ServiceActive, obs));
                self.stage = PreflightStage::CredentialsFull;
            },
            PreflightStage::CredentialsFull => {
                self.remote_has_credentials_full = out.succeeded();
                self.seen = Ghost(self.seen@.insert(Check::CredentialsFull, obs));
                if self.remote_has_bin {
                    self.stage = PreflightStage::Version;
                } else {
                    self.installed_version = None;
                    self.enter_port_probe(&mut notes);
                }
            },
            PreflightStage::Version => {
                self.installed_version = installed_version(stdout);
                self.seen = Ghost(self.seen@.insert(Check::Version, obs));
                self.enter_port_probe(&mut notes);
            },
            _ => {
                let report = self.report();
                return PreflightStep { notes, action: PreflightAction::Finished(report) };
            },
        }
        let action = self.current_action();
        PreflightStep { notes, action }
    }

    /// [`PreflightRun::advance`] at a stage that checks the listen port.
    #[verifier::rlimit(60)]
    fn advance_port(&mut self, out: &ExecResult) -> (r: PreflightStep)
        requires
            old(self).wf(),
            old(self).stage is PortProbe || old(self).stage is PortFallback,
        ensures
            advanced(*old(self), *final(self), *out, r),
    {
        let mut notes: Vec<PreflightNote> = Vec::new();
        let ghost obs: Observed = (stage_command(*self), out.stdout@, out.exit);
        let stdout = out.stdout.as_str();
        match self.stage {
            PreflightStage::PortProbe | PreflightStage::PortFallback => {
                if self.stage == PreflightStage::PortProbe && self.port_fallback.is_some() && out.exit != 0 {
                    self.stage = PreflightStage::PortFallback;
                } else {
                    let lines = listener_lines(stdout);
                    let mut i: usize = 0;
                    while i < lines.len()
                        invariant
                            i <= lines.len(),
                            notes@.len() == i,
                            forall|j: int| 0 <= j < i ==> (#[trigger] notes@[j] matches PreflightNote::PortListener {
                                port: p,
                                line,
                            } && p == self.listen_port && line@ == lines@[j]@),
                        decreases lines.len() - i,
                    {
                        notes.push(PreflightNote::PortListener { port: self.listen_port, line: lines[i].clone() });
                        i = i + 1;
                    }
                    match check_port(stdout, self.remote_has_bin, self.remote_has_unit, self.listen_port) {
                        Err(e) => {
                            self.stage = PreflightStage::Stopped;
                            return PreflightStep { notes, action: PreflightAction::Failed { check: Check::Port, error: e } };
                        },
                        Ok(in_use) => {
                            self.port_in_use = in_use;
                        },
                    }
                    self.seen = Ghost(self.seen@.insert(Check::Port, obs));
                    if self.port_in_use {
                        notes.push(PreflightNote::PortUsedBySecluso { port: self.listen_port });
                    } else {
                        notes.push(PreflightNote::PortFree { port: self.listen_port });
                    }
                    if self.proxy_mode {
                        self.stage = PreflightStage::ProxyBinaries;
                    } else {
                        self.stage = PreflightStage::UfwInstalled;
                    }
                }
            },
            _ => {
                let report = self.report();
                return PreflightStep { notes, action: PreflightAction::Finished(report) };
            },
        }
        let action = self.current_action();
        PreflightStep { notes, action }
    }

    /// [`PreflightRun::advance`] at a stage that checks the firewall.
    #[verifier::rlimit(60)]
    fn advance_firewall(&mut self, out: &ExecResult) -> (r: PreflightStep)
        requires
            old(self).wf(),
            old(self).stage is ProxyBinaries || old(self).stage is UfwInstalled || old(self).stage is UfwStatus,
        ensures
            advanced(*old(self), *final(self), *out, r),
    {
        let mut notes: Vec<PreflightNote> = Vec::new();
        let stdout = out.stdout.as_str();
        match self.stage {
            PreflightStage::ProxyBinaries => {
                notes.push(PreflightNote::Proxy { port: self.listen_port, detected: out.succeeded() });
                proof {
                    lemma_checked_below(*old(self));
                }
                self.stage = PreflightStage::Stopped;
                let report = self.report();
                return PreflightStep { notes, action: PreflightAction::Finished(report) };
            },
            PreflightStage::UfwInstalled => {
                if !out.succeeded() {
                    notes.push(PreflightNote::UfwMissing { port: self.listen_port });
                    proof {
                        lemma_checked_below(*old(self));
                    }
                    self.stage = PreflightStage::Stopped;
                    let report = self.report();
                    return PreflightStep { notes, action: PreflightAction::Finished(report) };
                }
                self.stage = PreflightStage::UfwStatus;
            },
            PreflightStage::UfwStatus => {
                notes.push(PreflightNote::Ufw { port: self.listen_port, assessment: assess_ufw_status(stdout, self.listen_port) });
                proof {
                    lemma_checked_below(*old(self));
                }
                self.stage = PreflightStage::Stopped;
                let report = self.report();
                return PreflightStep { notes, action: PreflightAction::Finished(report) };
            },
            _ => {
                let report = self.report();
                return PreflightStep { notes, action: PreflightAction::Finished(report) };
            },
        }
        let action = self.current_action();
        PreflightStep { notes, action }
    }


    /// Takes in the result of the command the run asked for (`out`): the
    /// remarks it gives, and the next command, or the end of the preflight.
    /// A check the server does not pass ends the run with its error; the run
    /// ends with a report only after every check has passed.
    pub fn advance(&mut self, out: &ExecResult) -> (r: PreflightStep)
        requires
            old(self).wf(),
            !(old(self).stage is Stopped),
        ensures
            advanced(*old(self), *final(self), *out, r),
    {
        match self.stage {
            PreflightStage::Kernel => self.advance_system(out),
            PreflightStage::OsRelease => self.advance_system(out),
            PreflightStage::AptGet => self.advance_system(out),
            PreflightStage::InitSystem => self.advance_system(out),
            PreflightStage::Systemctl => self.advance_system(out),
            PreflightStage::Sudo => self.advance_system(out),
            PreflightStage::Arch => self.advance_resources(out),
            PreflightStage::Disk => self.advance_resources(out),
            PreflightStage::Memory => self.advance_resources(out),
            PreflightStage::Dns { .. } => self.advance_resources(out),
            PreflightStage::Https { .. } => self.advance_resources(out),
            PreflightStage::HasBin => self.advance_install(out),
            PreflightStage::HasUnit => self.advance_install(out),
            PreflightStage::ServiceActive => self.advance_install(out),
            PreflightStage::CredentialsFull => self.advance_install(out),
            PreflightStage::Version => self.advance_install(out),
            PreflightStage::PortProbe | PreflightStage::PortFallback => self.advance_port(out),
            PreflightStage::ProxyBinaries => self.advance_firewall(out),
            PreflightStage::UfwInstalled => self.advance_firewall(out),
            PreflightStage::UfwStatus => self.advance_firewall(out),
            PreflightStage::Stopped => {
                let report = self.report();
                PreflightStep { notes: Vec::new(), action: PreflightAction::Finished(report) }
            },
        }
    }

    /// Starts the preflight of `target` for the runtime plan `runtime`:
    /// nothing is checked yet, and the first command is `uname -s`.
    pub fn start(target: SshTarget, runtime: &Option<ServerRuntimePlan>) -> (r: (PreflightRun, PreflightStep))
        ensures
            r.0.wf(),
            r.0.target == target,
            r.0.stage is Kernel,
            r.0.seen@ == Map::<Check, Observed>::empty(),
            r.0.listen_port == (match runtime {
                Some(plan) => plan.listen_port,
                None => DEFAULT_SERVER_HTTP_PORT,
            }),
            r.0.proxy_mode == (match runtime {
                Some(plan) => plan.exposure_mode@ == "proxy"@,
                None => false,
            }),
            r.1.notes@.len() == 0,
            r.1.action matches PreflightAction::Run { cmd, stdin } && cmd@ == "uname -s"@
                && stdin is None,
    {
        let (_, listen_port) = runtime_settings(runtime);
        let proxy_mode = match firewall_check(runtime) {
            FirewallCheck::Proxy { .. } => true,
            FirewallCheck::Ufw { .. } => false,
        };
        proof {
            reveal_strlit("direct");
            reveal_strlit("proxy");
            assert("direct"@[0] != "proxy"@[0]);
        }
        let run = PreflightRun {
            stage: PreflightStage::Kernel,
            target,
            listen_port,
            proxy_mode,
            debian_like: false,
            sudo_cmd: String::new(),
            sudo_stdin: None,
            sudo_label: String::new(),
            remote_arch: String::new(),
            remote_has_bin: false,
            remote_has_unit: false,
            service_active: false,
            remote_has_credentials_full: false,
            installed_version: None,
            port_cmd: String::new(),
            port_stdin: None,
            port_fallback: None,
            port_in_use: false,
            seen: Ghost(Map::empty()),
        };
        let action = run.current_action();
        (run, PreflightStep { notes: Vec::new(), action })
    }
}

/// A preflight ends with a report only when the server passed every check:
/// it runs Linux with `apt-get`, systemd and `systemctl`, the sudo check that
/// [`planned_sudo_check`] plans for the run's own target exited with 0 (or
/// the login is root), the listener probe was the one [`planned_port_probe`]
/// plans for the listen port, the architecture is supported, enough disk space is free,
/// the available memory was read, and the listen port is free or held by
/// Secluso. The report says what the server answered: the bundle chosen for
/// `uname -m`, the exit status of each install probe, the trimmed version
/// line, and whether the listener probe printed a listener. (Each step keeps
/// what earlier steps observed, so these answers are the server's own.)
pub proof fn law_report_only_when_every_check_passed(
    old: PreflightRun,
    new: PreflightRun,
    out: ExecResult,
    r: PreflightStep,
)
    requires
        advanced(old, new, out, r),
        r.action is Finished,
    ensures
        new.seen@[Check::Kernel].0 == "uname -s"@,
        trim_spec(new.seen@[Check::Kernel].1) == "Linux"@,
        new.seen@[Check::AptGet].0 == "command -v apt-get >/dev/null 2>&1"@,
        new.seen@[Check::AptGet].2 == 0,
        new.seen@[Check::InitSystem].0 == "ps -p 1 -o comm= | tr -d '[:space:]'"@,
        trim_spec(new.seen@[Check::InitSystem].1) == "systemd"@,
        new.seen@[Check::Systemctl].0 == "command -v systemctl >/dev/null 2>&1"@,
        new.seen@[Check::Systemctl].2 == 0,
        new.target.user@ != "root"@ ==> new.seen@[Check::Sudo].0 == planned_sudo_check(
            new.target,
        ).0 && new.seen@[Check::Sudo].2 == 0 && (opt_view(new.sudo_stdin), new.sudo_label@) == (
            planned_sudo_check(new.target).1,
            planned_sudo_check(new.target).2,
        ),
        new.seen@[Check::Arch].0 == "uname -m"@,
        (trim_spec(new.seen@[Check::Arch].1) == "x86_64"@ && r.action->0.remote_arch@ == "x86_64"@)
            || ((trim_spec(new.seen@[Check::Arch].1) == "aarch64"@ || trim_spec(
            new.seen@[Check::Arch].1,
        ) == "arm64"@) && r.action->0.remote_arch@ == "aarch64"@),
        new.seen@[Check::Disk].0 == "df -Pk / | awk 'NR==2 {print $4}'"@,
        parse_u64_spec(trim_spec(new.seen@[Check::Disk].1)) matches Some(kb) && kb >= MIN_DISK_KB,
        new.seen@[Check::Memory].0 == "awk '/MemAvailable:/ {print $2}' /proc/meminfo"@,
        parse_u64_spec(trim_spec(new.seen@[Check::Memory].1)) is Some,
        new.seen@[Check::HasBin].0 == "test -x /opt/secluso/bin/secluso-server"@,
        r.action->0.remote_has_bin == (new.seen@[Check::HasBin].2 == 0),
        new.seen@[Check::HasUnit].0
            == "systemctl list-unit-files --type=service | awk '{print $1}' | grep -qx 'secluso-server.service'"@,
        r.action->0.remote_has_unit == (new.seen@[Check::HasUnit].2 == 0),
        new.seen@[Check::ServiceActive].0 == "systemctl is-active --quiet secluso-server.service"@,
        r.action->0.service_active == (new.seen@[Check::ServiceActive].2 == 0),
        new.seen@[Check::CredentialsFull].0 == "test -f /var/lib/secluso/credentials_full"@,
        r.action->0.remote_has_credentials_full == (new.seen@[Check::CredentialsFull].2 == 0),
        r.action->0.remote_has_bin ==> new.seen@[Check::Version].0
            == "if [ -x /opt/secluso/bin/secluso-server ]; then /opt/secluso/bin/secluso-server --version 2>/dev/null | head -n1; fi"@,
        r.action->0.remote_has_bin ==> match r.action->0.installed_version {
            Some(v) => v@ == trim_spec(new.seen@[Check::Version].1) && v@.len() > 0,
            None => trim_spec(new.seen@[Check::Version].1).len() == 0,
        },
        !r.action->0.remote_has_bin ==> r.action->0.installed_version is None,
        new.seen@[Check::Port].0 == planned_port_probe(new.target, new.listen_port).0
            || Some(new.seen@[Check::Port].0) == planned_port_probe(new.target, new.listen_port).2,
        r.action->0.port_in_use == port_in_use_spec(new.seen@[Check::Port].1),
        port_in_use_spec(new.seen@[Check::Port].1) ==> (contains_spec(
            new.seen@[Check::Port].1,
            "secluso-server"@,
        ) || r.action->0.remote_has_bin || r.action->0.remote_has_unit),
{
    assert(accounted(new, Check::HasBin));
    assert(accounted(new, Check::HasUnit));
    assert(accounted(new, Check::ServiceActive));
    assert(accounted(new, Check::CredentialsFull));
    assert(accounted(new, Check::Version));
    assert(accounted(new, Check::Kernel));
    assert(accounted(new, Check::AptGet));
    assert(accounted(new, Check::InitSystem));
    assert(accounted(new, Check::Systemctl));
    assert(accounted(new, Check::Sudo));
    assert(accounted(new, Check::Arch));
    assert(accounted(new, Check::Disk));
    assert(accounted(new, Check::Memory));
    assert(accounted(new, Check::Port));
}

/// Each observation the run records is the reply to a command the run asked
/// for: what a step records that was not recorded before is the command the
/// previous step returned, with the stdout and exit status it answered.
pub proof fn law_observations_answer_the_commands_sent(
    s0: PreflightRun,
    s1: PreflightRun,
    out0: ExecResult,
    r0: PreflightStep,
    s2: PreflightRun,
    out1: ExecResult,
    r1: PreflightStep,
    c: Check,
)
    requires
        advanced(s0, s1, out0, r0),
        r0.action is Run,
        advanced(s1, s2, out1, r1),
        s2.seen@.contains_key(c),
        !s1.seen@.contains_key(c),
    ensures
        s2.seen@[c] == (r0.action->cmd@, out1.stdout@, out1.exit),
{
}

/// The first check the server fails ends the preflight: the run stops with
/// that check's error, and every check before it passed. A stopped run is
/// not advanced again ([`PreflightRun::advance`] requires a running one).
pub proof fn law_first_failure_stops_the_run(
    old: PreflightRun,
    new: PreflightRun,
    out: ExecResult,
    r: PreflightStep,
)
    requires
        advanced(old, new, out, r),
        r.action is Failed,
    ensures
        new.stage is Stopped,
        is_gate(r.action->check),
        settled_check(old, out.exit) == Some(r.action->check) || (old.stage is Systemctl
            && r.action->check is Sudo),
        fails_with(r.action->check, old, out, r.action->error),
        forall|c: Check| #[trigger] check_index(c) < check_index(r.action->check) ==> accounted(new, c),
{
}

/// What a step of the preflight observed is never rewritten by a later step:
/// every earlier reply stays recorded as it was, so the fields it settled
/// (and the report built from them) keep matching it.
pub proof fn law_observations_are_kept(
    old: PreflightRun,
    new: PreflightRun,
    out: ExecResult,
    r: PreflightStep,
    c: Check,
)
    requires
        advanced(old, new, out, r),
        old.seen@.contains_key(c),
    ensures
        new.seen@.contains_key(c),
        new.seen@[c] == old.seen@[c],
{
}

} // verus!
