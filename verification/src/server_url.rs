//! The server URL that goes into user credentials: its normalisation, and
//! the checks that warn when a phone will not be able to reach it.
use vstd::prelude::*;
use crate::preflight::{DEFAULT_SERVER_HTTP_PORT, ServerRuntimePlan};
use crate::text::{eq_ignore_ascii_case_spec, trim_end_char_spec, trim_spec};

verus! {

/// The parts of a parsed URL that the checks read: the scheme, the host, and
/// the port (the explicit one, else the scheme's known default).
#[derive(Debug)]
pub struct UrlParts {
    pub scheme: String,
    pub host: Option<String>,
    pub port: Option<u16>,
}

/// The text of an optional string.
pub open spec fn opt_view(o: Option<String>) -> Option<Seq<char>> {
    match o {
        Some(s) => Some(s@),
        None => None,
    }
}

/// The plain value of parsed URL parts.
pub open spec fn parts_view(p: UrlParts) -> (Seq<char>, Option<Seq<char>>, Option<u16>) {
    (p.scheme@, opt_view(p.host), p.port)
}

/// What `url::Url::parse` makes of `input`: on success the scheme, the host
/// (`host_str`) and `port_or_known_default`; on failure the error's message.
pub uninterp spec fn url_parse_result(input: Seq<char>) -> Result<
    (Seq<char>, Option<Seq<char>>, Option<u16>),
    Seq<char>,
>;

/// Calls `url::Url::parse` and reads `scheme`, `host_str` and
/// `port_or_known_default` of the result, or the `Display` text of the
/// parse error. Both depend on `input` alone; they are named [`url_parse_result`].
#[verifier::external_body]
fn parse_url(input: &str) -> (r: Result<UrlParts, String>)
    ensures
        match r {
            Ok(p) => url_parse_result(input@) == Ok::<_, Seq<char>>(parts_view(p)),
            Err(m) => url_parse_result(input@) == Err::<(
                Seq<char>,
                Option<Seq<char>>,
                Option<u16>,
            ), _>(m@),
        },
{
    match url::Url::parse(input) {
        Ok(u) => Ok(
            UrlParts {
                scheme: u.scheme().to_string(),
                host: match u.host_str() {
                    Some(h) => Some(h.to_string()),
                    None => None,
                },
                port: u.port_or_known_default(),
            },
        ),
        Err(e) => Err(e.to_string()),
    }
}

/// Why a server URL was refused.
#[derive(Debug)]
pub enum ServerUrlError {
    /// Nothing but whitespace was given.
    Empty,
    /// The URL does not parse; `reason` is the parser's message.
    Invalid { url: String, reason: String },
    /// The scheme is neither `http` nor `https`.
    BadScheme { scheme: String },
}

/// The normalised URL for a trimmed, non-empty `trimmed` and what the parser
/// made of it: refused unless it parsed with scheme `http` or `https`, else
/// `trimmed` without trailing slashes.
pub open spec fn normalized_url_spec(
    trimmed: Seq<char>,
    parsed: Result<(Seq<char>, Option<Seq<char>>, Option<u16>), Seq<char>>,
) -> Result<Seq<char>, ()> {
    match parsed {
        Ok(p) => if p.0 == "http"@ || p.0 == "https"@ {
            Ok(trim_end_char_spec(trimmed, '/'))
        } else {
            Err(())
        },
        Err(_) => Err(()),
    }
}

/// What normalising the server URL `input` gives: refused (whatever the
/// reason) or the normalised URL.
pub open spec fn normalize_spec(input: Seq<char>) -> Result<Seq<char>, ()> {
    let t = trim_spec(input);
    if t.len() == 0 {
        Err(())
    } else {
        normalized_url_spec(t, url_parse_result(t))
    }
}

/// Dropping trailing `c` twice drops no more than once.
proof fn lemma_trim_end_char_twice(s: Seq<char>, c: char)
    ensures
        trim_end_char_spec(trim_end_char_spec(s, c), c) == trim_end_char_spec(s, c),
    decreases s.len(),
{
    if s.len() > 0 && s.last() == c {
        lemma_trim_end_char_twice(s.drop_last(), c);
    }
}

/// Normalising a normalised URL gives it back unchanged, as long as the URL
/// parser still reads it with an `http` or `https` scheme (what the parser
/// makes of the URL is not stated here: it is the named [`url_parse_result`]).
pub proof fn law_normalize_idempotent(input: Seq<char>, normalized: Seq<char>)
    requires
        normalize_spec(input) == Ok::<_, ()>(normalized),
        trim_spec(normalized) == normalized,
        normalized.len() > 0,
        url_parse_result(normalized) matches Ok(p) && (p.0 == "http"@ || p.0 == "https"@),
    ensures
        normalize_spec(normalized) == Ok::<_, ()>(normalized),
{
    lemma_trim_end_char_twice(trim_spec(input), '/');
}

/// Finishes normalising the trimmed server URL `trimmed` once it has been
/// parsed (`parsed`): the scheme must be `http` or `https`, and trailing
/// slashes are dropped.
pub fn normalize_parsed_server_url(trimmed: &str, parsed: Result<UrlParts, String>) -> (r: Result<
    String,
    ServerUrlError,
>)
    ensures
        match parsed {
            Ok(p) => match r {
                Ok(u) => (p.scheme@ == "http"@ || p.scheme@ == "https"@) && u@ == trim_end_char_spec(
                    trimmed@,
                    '/',
                ),
                Err(e) => !(p.scheme@ == "http"@ || p.scheme@ == "https"@) && (
                e matches ServerUrlError::BadScheme { scheme } && scheme@ == p.scheme@),
            },
            Err(m) => r matches Err(ServerUrlError::Invalid { url, reason }) && url@ == trimmed@
                && reason@ == m@,
        },
{
    match parsed {
        Ok(p) => {
            if crate::text::str_eq(p.scheme.as_str(), "http") || crate::text::str_eq(
                p.scheme.as_str(),
                "https",
            ) {
                Ok(String::from_str(crate::text::trim_end_char(trimmed, '/')))
            } else {
                Err(ServerUrlError::BadScheme { scheme: p.scheme })
            }
        },
        Err(m) => Err(ServerUrlError::Invalid { url: String::from_str(trimmed), reason: m }),
    }
}

/// Normalises the server URL for user credentials: trims whitespace, refuses
/// an empty URL, one that does not parse, and one whose scheme is not
/// `http` or `https`, and drops trailing slashes.
pub fn normalize_server_url(server_url: &str) -> (r: Result<String, ServerUrlError>)
    ensures
        match r {
            Ok(u) => normalize_spec(server_url@) == Ok::<_, ()>(u@),
            Err(_) => normalize_spec(server_url@) is Err,
        },
        trim_spec(server_url@).len() == 0 ==> r matches Err(ServerUrlError::Empty),
        trim_spec(server_url@).len() > 0 ==> match r {
            Ok(u) => normalized_url_spec(
                trim_spec(server_url@),
                url_parse_result(trim_spec(server_url@)),
            ) == Ok::<_, ()>(u@),
            Err(e) => normalized_url_spec(
                trim_spec(server_url@),
                url_parse_result(trim_spec(server_url@)),
            ) is Err && match url_parse_result(trim_spec(server_url@)) {
                Ok(p) => e matches ServerUrlError::BadScheme { scheme } && scheme@ == p.0,
                Err(m) => e matches ServerUrlError::Invalid { url, reason } && url@ == trim_spec(
                    server_url@,
                ) && reason@ == m,
            },
        },
{
    let trimmed = crate::text::trim(server_url);
    if trimmed.unicode_len() == 0 {
        return Err(ServerUrlError::Empty);
    }
    let parsed = parse_url(trimmed);
    normalize_parsed_server_url(trimmed, parsed)
}

/// A remark on the configured credentials URL.
#[derive(Debug, PartialEq, Eq, Structural, Clone, Copy)]
pub enum UrlFinding {
    /// Direct mode, but the scheme is not `http`.
    NotHttpInDirectMode,
    /// Direct mode, but the URL's port differs from the listen port.
    PortMismatchInDirectMode,
    /// Reverse-proxy mode: the public port may differ from the listen port.
    ProxyModeNote,
    /// The host is `localhost`, which a phone cannot reach.
    LocalhostHost,
}

/// Which remarks a parsed credentials URL earns: "not http" exactly in
/// direct mode with another scheme, "port mismatch" exactly in direct mode
/// with a port other than the listen port, the proxy note exactly in proxy
/// mode, and "localhost" exactly when the host is `localhost` in any case.
pub proof fn law_url_findings(
    scheme: Seq<char>,
    host: Option<Seq<char>>,
    port: u16,
    mode: Seq<char>,
    listen: u16,
)
    ensures
        url_findings_spec(scheme, host, port, mode, listen).contains(
            UrlFinding::NotHttpInDirectMode,
        ) <==> (mode == "direct"@ && scheme != "http"@),
        url_findings_spec(scheme, host, port, mode, listen).contains(
            UrlFinding::PortMismatchInDirectMode,
        ) <==> (mode == "direct"@ && port != listen),
        url_findings_spec(scheme, host, port, mode, listen).contains(UrlFinding::ProxyModeNote)
            <==> mode == "proxy"@,
        url_findings_spec(scheme, host, port, mode, listen).contains(UrlFinding::LocalhostHost)
            <==> (host matches Some(h) && eq_ignore_ascii_case_spec(h, "localhost"@)),
{
    reveal_strlit("direct");
    reveal_strlit("proxy");
    assert("direct"@[0] != "proxy"@[0]);
    let direct = mode == "direct"@;
    let a: Seq<UrlFinding> = if direct && scheme != "http"@ {
        seq![UrlFinding::NotHttpInDirectMode]
    } else {
        seq![]
    };
    let b: Seq<UrlFinding> = if direct && port != listen {
        seq![UrlFinding::PortMismatchInDirectMode]
    } else if mode == "proxy"@ {
        seq![UrlFinding::ProxyModeNote]
    } else {
        seq![]
    };
    let c: Seq<UrlFinding> = if host matches Some(h) && eq_ignore_ascii_case_spec(h, "localhost"@) {
        seq![UrlFinding::LocalhostHost]
    } else {
        seq![]
    };
    let all = url_findings_spec(scheme, host, port, mode, listen);
    assert(all == a + b + c);
    assert forall|f: UrlFinding| all.contains(f) <==> (a.contains(f) || b.contains(f) || c.contains(
        f,
    )) by {
        if all.contains(f) {
            let k = choose|k: int| 0 <= k < all.len() && all[k] == f;
            if k < a.len() {
                assert(a[k] == f);
            } else if k < a.len() + b.len() {
                assert(b[k - a.len()] == f);
            } else {
                assert(c[k - a.len() - b.len()] == f);
            }
        }
        if a.contains(f) {
            let k = choose|k: int| 0 <= k < a.len() && a[k] == f;
            assert(all[k] == f);
        }
        if b.contains(f) {
            let k = choose|k: int| 0 <= k < b.len() && b[k] == f;
            assert(all[a.len() + k] == f);
        }
        if c.contains(f) {
            let k = choose|k: int| 0 <= k < c.len() && c[k] == f;
            assert(all[a.len() + b.len() + k] == f);
        }
    }
    if direct && scheme != "http"@ {
        assert(a[0] == UrlFinding::NotHttpInDirectMode);
    }
    if direct && port != listen {
        assert(b[0] == UrlFinding::PortMismatchInDirectMode);
    } else if mode == "proxy"@ {
        assert(b[0] == UrlFinding::ProxyModeNote);
    }
    if host matches Some(h) && eq_ignore_ascii_case_spec(h, "localhost"@) {
        assert(c[0] == UrlFinding::LocalhostHost);
    }
}

/// What the URL check found.
#[derive(Debug)]
pub enum UrlCheck {
    /// The URL does not parse; `reason` is the parser's message.
    Unparsable { reason: String },
    /// The URL parsed: the remarks in order, its host, and the port it uses.
    Checked { findings: Vec<UrlFinding>, host: Option<String>, port: u16 },
}

/// The remarks on a parsed URL (scheme, host, port) in exposure mode `mode`
/// with listen port `listen`, in the order they are reported.
pub open spec fn url_findings_spec(
    scheme: Seq<char>,
    host: Option<Seq<char>>,
    port: u16,
    mode: Seq<char>,
    listen: u16,
) -> Seq<UrlFinding> {
    let direct = mode == "direct"@;
    (if direct && scheme != "http"@ {
        seq![UrlFinding::NotHttpInDirectMode]
    } else {
        seq![]
    }) + (if direct && port != listen {
        seq![UrlFinding::PortMismatchInDirectMode]
    } else if mode == "proxy"@ {
        seq![UrlFinding::ProxyModeNote]
    } else {
        seq![]
    }) + (if host matches Some(h) && eq_ignore_ascii_case_spec(h, "localhost"@) {
        seq![UrlFinding::LocalhostHost]
    } else {
        seq![]
    })
}

/// The port a parsed URL uses: its own or the scheme's default, else the listen port.
pub open spec fn effective_port(port: Option<u16>, listen: u16) -> u16 {
    match port {
        Some(p) => p,
        None => listen,
    }
}

/// Checks a parsed credentials URL against the runtime plan's exposure mode
/// and listen port.
pub fn check_parsed_url(parsed: Result<UrlParts, String>, mode: &str, listen_port: u16) -> (r: UrlCheck)
    ensures
        match parsed {
            Ok(p) => r matches UrlCheck::Checked { findings, host, port } && findings@
                == url_findings_spec(
                p.scheme@,
                opt_view(p.host),
                effective_port(p.port, listen_port),
                mode@,
                listen_port,
            ) && opt_view(host) == opt_view(p.host) && port == effective_port(p.port, listen_port),
            Err(m) => r matches UrlCheck::Unparsable { reason } && reason@ == m@,
        },
{
    match parsed {
        Ok(p) => {
            let direct = crate::text::str_eq(mode, "direct");
            let mut findings: Vec<UrlFinding> = Vec::new();
            if direct && !crate::text::str_eq(p.scheme.as_str(), "http") {
                findings.push(UrlFinding::NotHttpInDirectMode);
            }
            let port = match p.port {
                Some(q) => q,
                None => listen_port,
            };
            if direct && port != listen_port {
                findings.push(UrlFinding::PortMismatchInDirectMode);
            } else if crate::text::str_eq(mode, "proxy") {
                findings.push(UrlFinding::ProxyModeNote);
            }
            let localhost = match &p.host {
                Some(h) => crate::text::eq_ignore_ascii_case(h.as_str(), "localhost"),
                None => false,
            };
            if localhost {
                findings.push(UrlFinding::LocalhostHost);
            }
            let ghost expected = url_findings_spec(
                p.scheme@,
                opt_view(p.host),
                port,
                mode@,
                listen_port,
            );
            assert(findings@ =~= expected);
            UrlCheck::Checked { findings, host: p.host, port }
        },
        Err(m) => UrlCheck::Unparsable { reason: m },
    }
}

/// The configured credentials URL to check: the trimmed URL, when one is
/// configured and it is not blank.
pub fn url_to_check(server_url: &Option<String>) -> (r: Option<String>)
    ensures
        match server_url {
            Some(u) => if trim_spec(u@).len() > 0 {
                r matches Some(t) && t@ == trim_spec(u@)
            } else {
                r is None
            },
            None => r is None,
        },
{
    match server_url {
        Some(u) => {
            let t = crate::text::trim(u.as_str());
            if t.unicode_len() > 0 {
                Some(String::from_str(t))
            } else {
                None
            }
        },
        None => None,
    }
}

/// The plain value of a URL check result.
pub open spec fn url_check_view(r: UrlCheck) -> Result<
    (Seq<UrlFinding>, Option<Seq<char>>, u16),
    Seq<char>,
> {
    match r {
        UrlCheck::Checked { findings, host, port } => Ok((findings@, opt_view(host), port)),
        UrlCheck::Unparsable { reason } => Err(reason@),
    }
}

/// What the URL check gives for the trimmed URL `url` under a runtime plan.
pub open spec fn server_url_check_spec(url: Seq<char>, mode: Seq<char>, listen: u16) -> Result<
    (Seq<UrlFinding>, Option<Seq<char>>, u16),
    Seq<char>,
> {
    match url_parse_result(url) {
        Ok(p) => Ok(
            (
                url_findings_spec(p.0, p.1, effective_port(p.2, listen), mode, listen),
                p.1,
                effective_port(p.2, listen),
            ),
        ),
        Err(m) => Err(m),
    }
}

/// Checks the configured credentials URL, if any, against the runtime plan
/// (`direct` mode on [`DEFAULT_SERVER_HTTP_PORT`] without one).
pub fn check_server_url(server_url: &Option<String>, runtime: &Option<ServerRuntimePlan>) -> (r:
    Option<UrlCheck>)
    ensures
        ({
            let (mode, listen) = match runtime {
                Some(plan) => (plan.exposure_mode@, plan.listen_port),
                None => ("direct"@, DEFAULT_SERVER_HTTP_PORT),
            };
            match server_url {
                Some(u) => if trim_spec(u@).len() > 0 {
                    r matches Some(c) && url_check_view(c) == server_url_check_spec(
                        trim_spec(u@),
                        mode,
                        listen,
                    )
                } else {
                    r is None
                },
                None => r is None,
            }
        }),
{
    let url = match url_to_check(server_url) {
        Some(u) => u,
        None => return None,
    };
    let (mode, listen) = crate::preflight::runtime_settings(runtime);
    let parsed = parse_url(url.as_str());
    let c = check_parsed_url(parsed, mode.as_str(), listen);
    Some(c)
}

} // verus!
