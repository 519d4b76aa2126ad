use secluso::preflight::{
    assess_ufw_status, check_free_disk, check_init_system, check_kernel, check_port,
    dns_probe_command, firewall_check, https_probe_command, https_probe_outcome, installed_version,
    is_debian_like, listener_lines, map_remote_arch, memory_is_low, optional_sudo_route,
    parse_available_memory, parse_os_release_field, parse_u64_field, port_probe_commands,
    remote_command_line, runtime_settings, shell_escape, sudo_check_outcome, sudo_check_plan,
    summarize_remote_failure, ExecResult, FirewallCheck, HttpsProbeOutcome, PreflightError, ServerRuntimePlan,
    SshAuth, SshTarget, SudoCheck, SudoRoute, SudoSettings, UfwAssessment,
};

fn exec(stdout: &str, stderr: &str, exit: i32) -> ExecResult {
    ExecResult { stdout: stdout.to_string(), stderr: stderr.to_string(), exit }
}

fn target(user: &str, mode: &str, sudo_pw: Option<&str>, auth: SshAuth) -> SshTarget {
    SshTarget {
        host: "203.0.113.5".to_string(),
        user: user.to_string(),
        auth,
        sudo: SudoSettings { mode: mode.to_string(), password: sudo_pw.map(|s| s.to_string()) },
    }
}

const OS_RELEASE: &str = "PRETTY_NAME=\"Debian GNU/Linux 12 (bookworm)\"\nNAME=\"Debian GNU/Linux\"\nVERSION_ID=\"12\"\nID=debian\nID_LIKE=\"\"\n";

#[test]
fn os_release_fields() {
    assert_eq!(
        parse_os_release_field(OS_RELEASE, "PRETTY_NAME").as_deref(),
        Some("Debian GNU/Linux 12 (bookworm)")
    );
    assert_eq!(parse_os_release_field(OS_RELEASE, "ID").as_deref(), Some("debian"));
    assert_eq!(parse_os_release_field(OS_RELEASE, "ID_LIKE").as_deref(), Some(""));
    assert_eq!(parse_os_release_field(OS_RELEASE, "VERSION_CODENAME"), None);
    assert_eq!(parse_os_release_field("", "ID"), None);
    assert_eq!(parse_os_release_field("ID=\"\"\"x\"\"\r\n", "ID").as_deref(), Some("x"));
}

#[test]
fn numeric_fields() {
    assert_eq!(parse_u64_field("1234", "available memory").unwrap(), 1234);
    match parse_u64_field("12 kB", "available memory") {
        Err(PreflightError::ParseField { label, raw }) => {
            assert_eq!(label, "available memory");
            assert_eq!(raw, "12 kB");
        }
        other => panic!("unexpected {:?}", other),
    }
}

#[test]
fn disk_and_memory_thresholds() {
    assert_eq!(check_free_disk(" 3145728\n").unwrap(), 3145728);
    match check_free_disk("3145727\n") {
        Err(PreflightError::InsufficientDisk { avail_kb }) => assert_eq!(avail_kb, 3145727),
        other => panic!("unexpected {:?}", other),
    }
    assert!(matches!(check_free_disk("n/a"), Err(PreflightError::ParseField { .. })));
    assert_eq!(parse_available_memory("786432\n").unwrap(), 786432);
    assert!(!memory_is_low(786432));
    assert!(memory_is_low(786431));
}

#[test]
fn shell_escaping() {
    assert_eq!(shell_escape("echo 'hi'"), "echo '\\''hi'\\''");
    assert_eq!(shell_escape("plain"), "plain");
    assert_eq!(shell_escape("it's"), "it's".replace('\'', r"'\''"));
    assert_eq!(remote_command_line("uname -s"), "bash -lc 'uname -s'");
    assert_eq!(
        remote_command_line("ps -p 1 -o comm= | tr -d '[:space:]'"),
        format!("bash -lc '{}'", "ps -p 1 -o comm= | tr -d '[:space:]'".replace('\'', r"'\''"))
    );
}

#[test]
fn failure_summaries() {
    assert_eq!(summarize_remote_failure(&exec("out", "  err \n", 1)), "err");
    assert_eq!(summarize_remote_failure(&exec(" out\n", " \n", 1)), "out");
    assert_eq!(summarize_remote_failure(&exec("", "", 255)), "command exited with status 255");
    assert_eq!(summarize_remote_failure(&exec("", "", -1)), "command exited with status -1");
    assert!(exec("", "", 0).succeeded());
    assert!(!exec("", "", 3).succeeded());
}

#[test]
fn kernel_init_and_arch() {
    assert!(check_kernel("Linux\n").is_ok());
    match check_kernel("Darwin\n") {
        Err(PreflightError::UnsupportedOs { kernel }) => assert_eq!(kernel, "Darwin"),
        other => panic!("unexpected {:?}", other),
    }
    assert!(check_init_system("systemd").is_ok());
    assert!(matches!(check_init_system("init"), Err(PreflightError::NotSystemd)));
    assert_eq!(map_remote_arch("x86_64\n").unwrap(), "x86_64");
    assert_eq!(map_remote_arch("aarch64").unwrap(), "aarch64");
    assert_eq!(map_remote_arch("arm64").unwrap(), "aarch64");
    match map_remote_arch("riscv64\n") {
        Err(PreflightError::UnsupportedArch { arch }) => assert_eq!(arch, "riscv64"),
        other => panic!("unexpected {:?}", other),
    }
}

#[test]
fn debian_like_distributions() {
    let s = |v: &str| Some(v.to_string());
    assert!(is_debian_like(&s("debian"), &None));
    assert!(is_debian_like(&s("ubuntu"), &None));
    assert!(is_debian_like(&s("raspbian"), &s("debian")));
    assert!(is_debian_like(&s("pop"), &s("ubuntu debian")));
    assert!(!is_debian_like(&s("fedora"), &None));
    assert!(!is_debian_like(&s("arch"), &s("archlinux")));
    assert!(!is_debian_like(&None, &s("debianish")));
}

#[test]
fn sudo_check_plans() {
    assert!(matches!(
        sudo_check_plan(&target("root", "password", None, SshAuth::Key)),
        Ok(SudoCheck::NotNeeded)
    ));
    assert!(matches!(
        sudo_check_plan(&target("pi", "password", Some(""), SshAuth::Key)),
        Err(PreflightError::EmptySudoPassword)
    ));
    match sudo_check_plan(&target("pi", "password", Some("pw"), SshAuth::Key)) {
        Ok(SudoCheck::Run { cmd, stdin, mode_label }) => {
            assert_eq!(cmd, "sudo -S -p '' true");
            assert_eq!(stdin.as_deref(), Some("pw\n"));
            assert_eq!(mode_label, "explicit sudo password");
        }
        other => panic!("unexpected {:?}", other),
    }
    let login = SshAuth::Password { password: "login".to_string() };
    match sudo_check_plan(&target("pi", "same", None, login)) {
        Ok(SudoCheck::Run { cmd, stdin, mode_label }) => {
            assert_eq!(cmd, "sudo -S -p '' true");
            assert_eq!(stdin.as_deref(), Some("login\n"));
            assert_eq!(mode_label, "same-as-login password");
        }
        other => panic!("unexpected {:?}", other),
    }
    for (mode, auth) in [("same", SshAuth::Key), ("none", SshAuth::Key)] {
        match sudo_check_plan(&target("pi", mode, None, auth)) {
            Ok(SudoCheck::Run { cmd, stdin, mode_label }) => {
                assert_eq!(cmd, "sudo -n true");
                assert_eq!(stdin, None);
                assert_eq!(mode_label, "passwordless sudo");
            }
            other => panic!("unexpected {:?}", other),
        }
    }
}

#[test]
fn sudo_check_outcomes() {
    assert!(sudo_check_outcome(&exec("", "", 0), "passwordless sudo").is_ok());
    match sudo_check_outcome(&exec("", "sudo: a password is required\n", 1), "passwordless sudo") {
        Err(PreflightError::SudoFailed { mode_label, detail }) => {
            assert_eq!(mode_label, "passwordless sudo");
            assert_eq!(detail, "sudo: a password is required");
        }
        other => panic!("unexpected {:?}", other),
    }
}

#[test]
fn optional_sudo_routes() {
    let (with_p, without) = port_probe_commands(8000);
    assert_eq!(with_p, "ss -ltnpH | awk '$4 ~ /:8000$/ {print}'");
    assert_eq!(without, "ss -ltnH | awk '$4 ~ /:8000$/ {print}'");
    match optional_sudo_route(&target("root", "x", None, SshAuth::Key), "A", "B") {
        SudoRoute::Run { cmd, stdin } => {
            assert_eq!(cmd, "A");
            assert_eq!(stdin, None);
        }
        other => panic!("unexpected {:?}", other),
    }
    match optional_sudo_route(&target("pi", "password", None, SshAuth::Key), "A", "B") {
        SudoRoute::Run { cmd, stdin } => {
            assert_eq!(cmd, "B");
            assert_eq!(stdin, None);
        }
        other => panic!("unexpected {:?}", other),
    }
    match optional_sudo_route(&target("pi", "password", Some("pw"), SshAuth::Key), "A", "B") {
        SudoRoute::Run { cmd, stdin } => {
            assert_eq!(cmd, "A");
            assert_eq!(stdin.as_deref(), Some("pw\n"));
        }
        other => panic!("unexpected {:?}", other),
    }
    match optional_sudo_route(&target("pi", "same", None, SshAuth::Key), "A", "B") {
        SudoRoute::ProbeThenFallback { probe, fallback } => {
            assert_eq!(probe, "sudo -n ss -ltnpH | awk '$4 ~ /:8000$/ {print}'");
            assert_eq!(fallback, "B");
        }
        other => panic!("unexpected {:?}", other),
    }
    match optional_sudo_route(&target("pi", "other", None, SshAuth::Key), "A", "B") {
        SudoRoute::Run { cmd, .. } => assert_eq!(cmd, "B"),
        other => panic!("unexpected {:?}", other),
    }
}

#[test]
fn port_checks() {
    let free = "\n  \n";
    assert_eq!(listener_lines(free), Vec::<String>::new());
    assert_eq!(check_port(free, false, false, 8000).unwrap(), false);
    let ours = "LISTEN 0 4096 0.0.0.0:8000 0.0.0.0:* users:((\"secluso-server\",pid=9,fd=3))\n";
    assert_eq!(listener_lines(ours).len(), 1);
    assert_eq!(check_port(ours, false, false, 8000).unwrap(), true);
    let other = " LISTEN 0 511 0.0.0.0:8000 0.0.0.0:* users:((\"nginx\",pid=1,fd=6)) \n";
    match check_port(other, false, false, 8000) {
        Err(PreflightError::PortInUse { port }) => assert_eq!(port, 8000),
        r => panic!("unexpected {:?}", r),
    }
    assert_eq!(check_port(other, true, false, 8000).unwrap(), true);
    assert_eq!(check_port(other, false, true, 8000).unwrap(), true);
}

#[test]
fn network_probes() {
    assert_eq!(
        dns_probe_command("api.github.com"),
        "getent ahostsv4 api.github.com >/dev/null 2>&1 || getent hosts api.github.com >/dev/null 2>&1"
    );
    assert_eq!(
        https_probe_command("https://api.github.com"),
        "if command -v curl >/dev/null 2>&1; then curl -fsSI --max-time 10 https://api.github.com >/dev/null; else exit 42; fi"
    );
    assert_eq!(https_probe_outcome(0), HttpsProbeOutcome::Reachable);
    assert_eq!(https_probe_outcome(42), HttpsProbeOutcome::CurlMissing);
    assert_eq!(https_probe_outcome(6), HttpsProbeOutcome::Unreachable);
}

#[test]
fn firewall_assessment() {
    assert_eq!(assess_ufw_status("Status: INACTIVE\n", 8000), UfwAssessment::Inactive);
    assert_eq!(
        assess_ufw_status("Status: active\n8000/tcp ALLOW Anywhere\n", 8000),
        UfwAssessment::AllowsPort
    );
    assert_eq!(
        assess_ufw_status("Status: active\n22/tcp ALLOW Anywhere\n", 8000),
        UfwAssessment::NotObviouslyAllowed
    );
    let (mode, port) = runtime_settings(&None);
    assert_eq!((mode.as_str(), port), ("direct", 8000));
    let plan = ServerRuntimePlan { listen_port: 9000, exposure_mode: "proxy".to_string() };
    let (mode, port) = runtime_settings(&Some(plan));
    assert_eq!((mode.as_str(), port), ("proxy", 9000));
}

#[test]
fn installed_versions() {
    assert_eq!(installed_version("secluso-server 1.2.3\n").as_deref(), Some("secluso-server 1.2.3"));
    assert_eq!(installed_version(" \n"), None);
}

#[test]
fn firewall_check_selection() {
    assert!(matches!(firewall_check(&None), FirewallCheck::Ufw { port: 8000 }));
    let proxy = ServerRuntimePlan { listen_port: 9000, exposure_mode: "proxy".to_string() };
    assert!(matches!(firewall_check(&Some(proxy)), FirewallCheck::Proxy { port: 9000 }));
    let direct = ServerRuntimePlan { listen_port: 9001, exposure_mode: "direct".to_string() };
    assert!(matches!(firewall_check(&Some(direct)), FirewallCheck::Ufw { port: 9001 }));
}

#[test]
fn shell_escape_grows_by_three_per_quote_and_splits() {
    let cmd = "echo 'a' && echo it's";
    let quotes = cmd.matches('\'').count();
    assert_eq!(shell_escape(cmd).len(), cmd.len() + 3 * quotes);
    assert_eq!(shell_escape("ls -l /tmp"), "ls -l /tmp");
    let (a, b) = cmd.split_at(7);
    assert_eq!(shell_escape(cmd), format!("{}{}", shell_escape(a), shell_escape(b)));
}
