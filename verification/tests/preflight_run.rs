use secluso::preflight::{
    ExecResult, PreflightError, PreflightReport, ServerRuntimePlan, SshAuth, SshTarget,
    SudoSettings, UfwAssessment,
};
use secluso::preflight_run::{
    dns_check, https_check, Check, PreflightAction, PreflightNote, PreflightRun, PreflightStep,
};

fn target(user: &str, mode: &str) -> SshTarget {
    SshTarget {
        host: "203.0.113.5".to_string(),
        user: user.to_string(),
        auth: SshAuth::Key,
        sudo: SudoSettings { mode: mode.to_string(), password: None },
    }
}

fn ok(stdout: &str) -> ExecResult {
    ExecResult { stdout: stdout.to_string(), stderr: String::new(), exit: 0 }
}

fn exit(code: i32) -> ExecResult {
    ExecResult { stdout: String::new(), stderr: String::new(), exit: code }
}

/// Answers each command with `answer`, recording the commands, until the run ends.
fn drive(
    target: SshTarget,
    runtime: Option<ServerRuntimePlan>,
    answer: impl Fn(&str) -> ExecResult,
) -> (Vec<String>, Vec<PreflightNote>, PreflightAction) {
    let (mut run, mut next) = PreflightRun::start(target, &runtime);
    let mut cmds = Vec::new();
    let mut notes = Vec::new();
    loop {
        let PreflightStep { notes: n, action } = next;
        notes.extend(n);
        match action {
            PreflightAction::Run { cmd, .. } => {
                let out = answer(&cmd);
                cmds.push(cmd);
                next = run.advance(&out);
            }
            other => return (cmds, notes, other),
        }
    }
}

fn healthy_server(cmd: &str) -> ExecResult {
    match cmd {
        "uname -s" => ok("Linux\n"),
        "if [ -f /etc/os-release ]; then cat /etc/os-release; fi" => ok("PRETTY_NAME=\"Debian 12\"\nID=debian\n"),
        "ps -p 1 -o comm= | tr -d '[:space:]'" => ok("systemd"),
        "uname -m" => ok("arm64\n"),
        "df -Pk / | awk 'NR==2 {print $4}'" => ok("10485760\n"),
        "awk '/MemAvailable:/ {print $2}' /proc/meminfo" => ok("2097152\n"),
        "test -x /opt/secluso/bin/secluso-server" => exit(1),
        "systemctl list-unit-files --type=service | awk '{print $1}' | grep -qx 'secluso-server.service'" => exit(1),
        "systemctl is-active --quiet secluso-server.service" => exit(3),
        "test -f /var/lib/secluso/credentials_full" => exit(1),
        "ufw status" => ok("Status: active\n8000/tcp ALLOW Anywhere\n"),
        _ => ok(""),
    }
}

#[test]
fn healthy_root_server_passes_every_check() {
    let (cmds, notes, action) = drive(target("root", "passwordless"), None, healthy_server);
    let report: PreflightReport = match action {
        PreflightAction::Finished(r) => r,
        other => panic!("unexpected end: {other:?}"),
    };
    assert_eq!(report.remote_arch, "aarch64");
    assert!(!report.remote_has_bin && !report.remote_has_unit && !report.service_active);
    assert_eq!(report.installed_version, None);
    assert!(!report.port_in_use);
    assert_eq!(cmds[0], "uname -s");
    assert!(cmds.iter().all(|c| !c.contains("sudo -n true")));
    assert!(cmds.contains(&"ss -ltnpH | awk '$4 ~ /:8000$/ {print}'".to_string()));
    assert_eq!(cmds.last().unwrap(), "ufw status");
    assert!(notes.iter().any(|n| matches!(n, PreflightNote::SudoNotNeeded)));
    assert!(notes.iter().any(|n| matches!(n, PreflightNote::Ufw { port: 8000, assessment: UfwAssessment::AllowsPort })));
    let dns: Vec<_> = notes.iter().filter(|n| matches!(n, PreflightNote::Dns { .. })).collect();
    assert_eq!(dns.len(), 3);
}

#[test]
fn the_first_failing_check_stops_the_run() {
    let (cmds, _, action) = drive(target("root", "passwordless"), None, |c| {
        if c == "uname -s" { ok("Darwin\n") } else { healthy_server(c) }
    });
    assert_eq!(cmds, vec!["uname -s".to_string()]);
    match action {
        PreflightAction::Failed { check: Check::Kernel, error: PreflightError::UnsupportedOs { kernel } } => {
            assert_eq!(kernel, "Darwin")
        }
        other => panic!("unexpected end: {other:?}"),
    }
}

#[test]
fn low_disk_stops_before_the_network_probes() {
    let (cmds, _, action) = drive(target("root", "passwordless"), None, |c| {
        if c.starts_with("df ") { ok("1024\n") } else { healthy_server(c) }
    });
    assert!(matches!(action, PreflightAction::Failed { check: Check::Disk, error: PreflightError::InsufficientDisk { avail_kb: 1024 } }));
    assert_eq!(cmds.last().unwrap(), "df -Pk / | awk 'NR==2 {print $4}'");
    assert!(cmds.iter().all(|c| !c.contains("getent")));
}

#[test]
fn failed_sudo_check_stops_with_its_summary() {
    let (cmds, _, action) = drive(target("alice", "passwordless"), None, |c| {
        if c == "sudo -n true" {
            ExecResult { stdout: String::new(), stderr: "sudo: a password is required\n".to_string(), exit: 1 }
        } else {
            healthy_server(c)
        }
    });
    assert_eq!(cmds.last().unwrap(), "sudo -n true");
    match action {
        PreflightAction::Failed { check: Check::Sudo, error: PreflightError::SudoFailed { mode_label, detail } } => {
            assert_eq!(mode_label, "passwordless sudo");
            assert_eq!(detail, "sudo: a password is required");
        }
        other => panic!("unexpected end: {other:?}"),
    }
}

#[test]
fn port_taken_by_another_service_stops_the_run() {
    let (_, notes, action) = drive(target("root", "passwordless"), None, |c| {
        if c.starts_with("ss -ltnpH") {
            ok("LISTEN 0 4096 0.0.0.0:8000 0.0.0.0:* users:((\"nginx\",pid=1,fd=6))\n")
        } else {
            healthy_server(c)
        }
    });
    assert!(matches!(action, PreflightAction::Failed { check: Check::Port, error: PreflightError::PortInUse { port: 8000 } }));
    assert!(notes.iter().any(|n| matches!(n, PreflightNote::PortListener { port: 8000, .. })));
}

#[test]
fn existing_install_is_reported_with_its_version_in_proxy_mode() {
    let runtime = Some(ServerRuntimePlan { listen_port: 9000, exposure_mode: "proxy".to_string() });
    let (cmds, notes, action) = drive(target("root", "passwordless"), runtime, |c| match c {
        "test -x /opt/secluso/bin/secluso-server" => exit(0),
        "test -f /var/lib/secluso/credentials_full" => exit(0),
        c if c.ends_with("head -n1; fi") => ok("secluso-server 1.2.3\n"),
        c if c.starts_with("ss -ltnpH") => ok("LISTEN 0 128 127.0.0.1:9000 users:((\"secluso-server\"))\n"),
        c if c.starts_with("command -v nginx") => exit(0),
        c => healthy_server(c),
    });
    let report = match action {
        PreflightAction::Finished(r) => r,
        other => panic!("unexpected end: {other:?}"),
    };
    assert!(report.remote_has_bin && report.port_in_use);
    assert_eq!(report.installed_version.as_deref(), Some("secluso-server 1.2.3"));
    assert!(cmds.iter().all(|c| !c.contains("ufw")));
    assert!(notes.iter().any(|n| matches!(n, PreflightNote::Proxy { port: 9000, detected: true })));
    assert!(notes.iter().any(|n| matches!(n, PreflightNote::PortUsedBySecluso { port: 9000 })));
}

#[test]
fn outbound_probe_lists() {
    assert_eq!(dns_check(0).0, "api.github.com");
    assert_eq!(dns_check(2).0, "fcm.googleapis.com");
    assert_eq!(https_check(1).0, "https://oauth2.googleapis.com");
}

#[test]
fn sudo_check_and_port_probe_follow_the_target() {
    let mut t = target("alice", "password");
    t.sudo.password = Some("pw".to_string());
    let mut sudo_seen = None;
    let (cmds, _, action) = drive(t, None, |c| healthy_server(c));
    assert!(matches!(action, PreflightAction::Finished(_)));
    assert!(cmds.contains(&"sudo -S -p '' true".to_string()));
    assert!(cmds.contains(&"ss -ltnpH | awk '$4 ~ /:8000$/ {print}'".to_string()));
    let (mut run, mut next) = PreflightRun::start(target("bob", "same"), &None);
    loop {
        match next.action {
            PreflightAction::Run { cmd, stdin } => {
                if cmd.starts_with("sudo") && sudo_seen.is_none() {
                    sudo_seen = Some((cmd.clone(), stdin.clone()));
                }
                let out = if cmd.starts_with("sudo -n ss") { exit(1) } else { healthy_server(&cmd) };
                next = run.advance(&out);
            }
            _ => break,
        }
    }
    assert_eq!(sudo_seen, Some(("sudo -n true".to_string(), None)));
    assert_eq!(run.port_fallback.as_deref(), Some("ss -ltnH | awk '$4 ~ /:8000$/ {print}'"));
}
