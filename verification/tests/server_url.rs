use secluso::ip::{is_private_ip, resolves_elsewhere, IpAddress};
use secluso::preflight::ServerRuntimePlan;
use secluso::server_url::{
    check_parsed_url, check_server_url, normalize_parsed_server_url, normalize_server_url,
    url_to_check, ServerUrlError, UrlCheck, UrlFinding, UrlParts,
};

fn v4(a: u8, b: u8, c: u8, d: u8) -> IpAddress {
    IpAddress::V4([a, b, c, d])
}

fn v6(s: [u16; 8]) -> IpAddress {
    IpAddress::V6(s)
}

fn parts(scheme: &str, host: Option<&str>, port: Option<u16>) -> UrlParts {
    UrlParts { scheme: scheme.to_string(), host: host.map(|h| h.to_string()), port }
}

#[test]
fn normalizes_server_urls() {
    assert_eq!(normalize_server_url("  https://example.com/// ").unwrap(), "https://example.com");
    assert_eq!(normalize_server_url("http://10.0.0.2:8000").unwrap(), "http://10.0.0.2:8000");
    assert!(matches!(normalize_server_url("   "), Err(ServerUrlError::Empty)));
    match normalize_server_url("ftp://example.com") {
        Err(ServerUrlError::BadScheme { scheme }) => assert_eq!(scheme, "ftp"),
        other => panic!("unexpected {:?}", other),
    }
    match normalize_server_url("not a url") {
        Err(ServerUrlError::Invalid { url, reason }) => {
            assert_eq!(url, "not a url");
            assert_eq!(reason, url::Url::parse("not a url").unwrap_err().to_string());
        }
        other => panic!("unexpected {:?}", other),
    }
    assert_eq!(normalize_server_url("HTTPS://Example.com/").unwrap(), "HTTPS://Example.com");
}

#[test]
fn normalizes_parsed_urls() {
    assert_eq!(
        normalize_parsed_server_url("https://a.b/", Ok(parts("https", Some("a.b"), Some(443))))
            .unwrap(),
        "https://a.b"
    );
    assert!(matches!(
        normalize_parsed_server_url("ws://a.b", Ok(parts("ws", Some("a.b"), Some(80)))),
        Err(ServerUrlError::BadScheme { .. })
    ));
    assert!(matches!(
        normalize_parsed_server_url("x", Err("relative URL without a base".to_string())),
        Err(ServerUrlError::Invalid { .. })
    ));
}

#[test]
fn url_findings_in_direct_mode() {
    match check_parsed_url(Ok(parts("https", Some("LocalHost"), Some(443))), "direct", 8000) {
        UrlCheck::Checked { findings, host, port } => {
            assert_eq!(
                findings,
                vec![
                    UrlFinding::NotHttpInDirectMode,
                    UrlFinding::PortMismatchInDirectMode,
                    UrlFinding::LocalhostHost
                ]
            );
            assert_eq!(host.as_deref(), Some("LocalHost"));
            assert_eq!(port, 443);
        }
        other => panic!("unexpected {:?}", other),
    }
    match check_parsed_url(Ok(parts("http", Some("cam.example"), Some(8000))), "direct", 8000) {
        UrlCheck::Checked { findings, .. } => assert!(findings.is_empty()),
        other => panic!("unexpected {:?}", other),
    }
    match check_parsed_url(Ok(parts("foo", None, None)), "direct", 8000) {
        UrlCheck::Checked { findings, port, .. } => {
            assert_eq!(findings, vec![UrlFinding::NotHttpInDirectMode]);
            assert_eq!(port, 8000);
        }
        other => panic!("unexpected {:?}", other),
    }
}

#[test]
fn url_findings_in_proxy_mode() {
    match check_parsed_url(Ok(parts("https", Some("cam.example"), Some(443))), "proxy", 8000) {
        UrlCheck::Checked { findings, .. } => assert_eq!(findings, vec![UrlFinding::ProxyModeNote]),
        other => panic!("unexpected {:?}", other),
    }
    match check_parsed_url(Err("boom".to_string()), "proxy", 8000) {
        UrlCheck::Unparsable { reason } => assert_eq!(reason, "boom"),
        other => panic!("unexpected {:?}", other),
    }
}

#[test]
fn server_url_checks_end_to_end() {
    assert!(check_server_url(&None, &None).is_none());
    assert!(check_server_url(&Some("  ".to_string()), &None).is_none());
    assert_eq!(url_to_check(&Some(" http://a ".to_string())).as_deref(), Some("http://a"));
    let plan = ServerRuntimePlan { listen_port: 9000, exposure_mode: "direct".to_string() };
    match check_server_url(&Some("http://192.168.1.5:9000/".to_string()), &Some(plan)) {
        Some(UrlCheck::Checked { findings, host, port }) => {
            assert!(findings.is_empty());
            assert_eq!(host.as_deref(), Some("192.168.1.5"));
            assert_eq!(port, 9000);
        }
        other => panic!("unexpected {:?}", other),
    }
    match check_server_url(&Some("http://cam.example".to_string()), &None) {
        Some(UrlCheck::Checked { findings, port, .. }) => {
            assert_eq!(findings, vec![UrlFinding::PortMismatchInDirectMode]);
            assert_eq!(port, 80);
        }
        other => panic!("unexpected {:?}", other),
    }
}

#[test]
fn private_addresses() {
    let private = [
        v4(10, 1, 2, 3),
        v4(172, 16, 0, 1),
        v4(172, 31, 255, 255),
        v4(192, 168, 0, 1),
        v4(127, 0, 0, 1),
        v4(169, 254, 1, 1),
        v4(0, 1, 2, 3),
        v6([0, 0, 0, 0, 0, 0, 0, 1]),
        v6([0xfd00, 0, 0, 0, 0, 0, 0, 1]),
        v6([0xfc12, 0, 0, 0, 0, 0, 0, 0]),
        v6([0xfe80, 0, 0, 0, 0, 0, 0, 1]),
        v6([0xfebf, 0, 0, 0, 0, 0, 0, 1]),
    ];
    for a in &private {
        assert!(is_private_ip(a), "{:?}", a);
    }
    let public = [
        v4(8, 8, 8, 8),
        v4(172, 15, 0, 1),
        v4(172, 32, 0, 1),
        v4(192, 169, 0, 1),
        v6([0x2001, 0xdb8, 0, 0, 0, 0, 0, 1]),
        v6([0xfec0, 0, 0, 0, 0, 0, 0, 1]),
        v6([0, 0, 0, 0, 0, 0, 0, 0]),
    ];
    for a in &public {
        assert!(!is_private_ip(a), "{:?}", a);
    }
}

#[test]
fn resolution_mismatch() {
    let target = v4(203, 0, 113, 5);
    assert!(!resolves_elsewhere(&vec![], &target));
    assert!(!resolves_elsewhere(&vec![v4(198, 51, 100, 1), v4(203, 0, 113, 5)], &target));
    assert!(resolves_elsewhere(&vec![v4(198, 51, 100, 1)], &target));
    assert!(resolves_elsewhere(&vec![v6([0, 0, 0, 0, 0, 0xffff, 0xcb00, 0x7105])], &target));
}

#[test]
fn normalizing_a_normalized_url_changes_nothing() {
    let once = normalize_server_url("  https://cam.example.org:8443/base//  ").unwrap();
    assert_eq!(once, "https://cam.example.org:8443/base");
    assert_eq!(normalize_server_url(&once).unwrap(), once);
}
