//! The decisions of the server preflight: what the remote machine's answers
//! mean, which commands are sent, and when provisioning must stop.
//!
//! The SSH session itself lives outside the library; each function here
//! takes the text a remote command printed (or its exit status) and returns
//! the verdict or the next command.
use vstd::prelude::*;
use crate::decimal::{decimal_spec, int_decimal_spec, parse_u64_spec};
use crate::text::{contains_spec, has_word, lines_spec, strip_prefix_spec, trim_char_spec, trim_spec};

verus! {

/// The HTTP port the server listens on unless the runtime plan says otherwise.
pub const DEFAULT_SERVER_HTTP_PORT: u16 = 8000;

/// The free space on `/` that provisioning needs, in KiB (about 3 GiB).
pub const MIN_DISK_KB: u64 = 3 * 1024 * 1024;

/// Below this much available memory, in KiB, provisioning warns.
pub const WARN_MEM_KB: u64 = 768 * 1024;

/// What one remote command returned.
#[derive(Debug)]
pub struct ExecResult {
    pub stdout: String,
    pub stderr: String,
    pub exit: i32,
}

/// What the preflight found on the server.
#[derive(Debug)]
pub struct PreflightReport {
    pub remote_has_bin: bool,
    pub remote_has_unit: bool,
    pub service_active: bool,
    pub installed_version: Option<String>,
    pub port_in_use: bool,
    pub remote_has_credentials_full: bool,
    pub remote_arch: String,
}

/// How the SSH login authenticates.
#[derive(Debug)]
pub enum SshAuth {
    /// Password login.
    Password { password: String },
    /// Key-based login, which carries no password.
    Key,
}

/// How `sudo` is to be used on the server.
#[derive(Debug)]
pub struct SudoSettings {
    /// `"password"`, `"same"` (the login password), or anything else for passwordless sudo.
    pub mode: String,
    pub password: Option<String>,
}

/// The SSH target of provisioning.
#[derive(Debug)]
pub struct SshTarget {
    pub host: String,
    pub user: String,
    pub auth: SshAuth,
    pub sudo: SudoSettings,
}

/// How the server will run: its listen port and how it is exposed.
#[derive(Debug)]
pub struct ServerRuntimePlan {
    pub listen_port: u16,
    /// `"direct"` or `"proxy"`.
    pub exposure_mode: String,
}

/// Why the preflight stops.
#[derive(Debug)]
pub enum PreflightError {
    /// `uname -s` did not print `Linux`.
    UnsupportedOs { kernel: String },
    /// The server has no `apt-get`.
    MissingAptGet,
    /// PID 1 is not systemd.
    NotSystemd,
    /// The server has no `systemctl`.
    MissingSystemctl,
    /// Sudo mode `password` was chosen but no sudo password was given.
    EmptySudoPassword,
    /// The sudo check failed; `detail` summarises the remote output.
    SudoFailed { mode_label: String, detail: String },
    /// The CPU architecture is neither x86_64 nor aarch64.
    UnsupportedArch { arch: String },
    /// A number could not be read from remote output.
    ParseField { label: String, raw: String },
    /// Less than [`MIN_DISK_KB`] is free on `/`.
    InsufficientDisk { avail_kb: u64 },
    /// The listen port is taken by something other than Secluso.
    PortInUse { port: u16 },
}

/// The value of the first line of `lines` that starts with `prefix`, with the prefix removed.
pub open spec fn first_stripped(lines: Seq<Seq<char>>, prefix: Seq<char>) -> Option<Seq<char>>
    decreases lines.len(),
{
    if lines.len() == 0 {
        None
    } else {
        match strip_prefix_spec(lines[0], prefix) {
            Some(rest) => Some(rest),
            None => first_stripped(lines.drop_first(), prefix),
        }
    }
}

/// The value of field `key` in an os-release file: the rest of the first
/// line that starts with `key=`, with surrounding double quotes removed.
pub open spec fn os_release_field_spec(contents: Seq<char>, key: Seq<char>) -> Option<Seq<char>> {
    match first_stripped(lines_spec(contents), key.push('=')) {
        Some(v) => Some(trim_char_spec(v, '"')),
        None => None,
    }
}

/// Reads field `key` from the text of `/etc/os-release`.
pub fn parse_os_release_field(contents: &str, key: &str) -> (r: Option<String>)
    ensures
        match r {
            Some(v) => os_release_field_spec(contents@, key@) == Some(v@),
            None => os_release_field_spec(contents@, key@) is None,
        },
{
    let ls = crate::text::lines(contents);
    let mut prefix = String::from_str(key);
    proof { reveal_strlit("="); }
    prefix.append("=");
    assert(prefix@ =~= key@.push('='));
    let ghost all = ls.deep_view();
    let mut i: usize = 0;
    assert(all.skip(0) =~= all);
    while i < ls.len()
        invariant
            all == ls.deep_view(),
            all == lines_spec(contents@),
            prefix@ == key@.push('='),
            i <= ls.len(),
            first_stripped(all, prefix@) == first_stripped(all.skip(i as int), prefix@),
        decreases ls.len() - i,
    {
        assert(all.skip(i as int)[0] == ls@[i as int]@);
        assert(all.skip(i as int).drop_first() =~= all.skip(i + 1));
        match crate::text::strip_prefix(ls[i].as_str(), prefix.as_str()) {
            Some(rest) => {
                let value = crate::text::trim_char(rest, '"');
                return Some(String::from_str(value));
            },
            None => {},
        }
        i = i + 1;
    }
    None
}

/// Reads a decimal count from remote output; `label` names it in the error.
pub fn parse_u64_field(raw: &str, label: &str) -> (r: Result<u64, PreflightError>)
    ensures
        match r {
            Ok(v) => parse_u64_spec(raw@) == Some(v),
            Err(e) => parse_u64_spec(raw@) is None && (e matches PreflightError::ParseField {
                label: l,
                raw: w,
            } && l@ == label@ && w@ == raw@),
        },
{
    match crate::decimal::parse_u64(raw) {
        Some(v) => Ok(v),
        None => Err(
            PreflightError::ParseField { label: String::from_str(label), raw: String::from_str(raw) },
        ),
    }
}

/// `s` with each single quote replaced by `'\''`, so that it can stand inside
/// a single-quoted shell word.
pub open spec fn shell_escape_spec(s: Seq<char>) -> Seq<char>
    decreases s.len(),
{
    if s.len() == 0 {
        seq![]
    } else {
        shell_escape_spec(s.drop_last()) + (if s.last() == '\'' {
            seq!['\'', '\\', '\'', '\'']
        } else {
            seq![s.last()]
        })
    }
}

/// Escapes `cmd` for use inside single quotes.
pub fn shell_escape(cmd: &str) -> (r: String)
    ensures
        r@ == shell_escape_spec(cmd@),
{
    let v = crate::text::chars_of(cmd);
    let mut r = String::new();
    let mut i: usize = 0;
    proof { reveal_strlit("'\\''"); }
    assert(cmd@.take(0) =~= Seq::<char>::empty());
    while i < v.len()
        invariant
            v@ == cmd@,
            i <= v.len(),
            "'\\''"@ == seq!['\'', '\\', '\'', '\''],
            r@ == shell_escape_spec(cmd@.take(i as int)),
        decreases v.len() - i,
    {
        assert(cmd@.take(i + 1).drop_last() =~= cmd@.take(i as int));
        assert(cmd@.take(i + 1).last() == v@[i as int]);
        if v[i] == '\'' {
            r.append("'\\''");
        } else {
            let one = cmd.substring_char(i, i + 1);
            assert(one@ =~= seq![v@[i as int]]);
            r.append(one);
        }
        i = i + 1;
    }
    assert(cmd@.take(v.len() as int) =~= cmd@);
    r
}

/// The login-shell command line that runs `cmd` on the server.
pub open spec fn remote_command_line_spec(cmd: Seq<char>) -> Seq<char> {
    "bash -lc '"@ + shell_escape_spec(cmd) + "'"@
}

/// Wraps `cmd` in `bash -lc '...'`, escaping it.
pub fn remote_command_line(cmd: &str) -> (r: String)
    ensures
        r@ == remote_command_line_spec(cmd@),
{
    let mut r = String::from_str("bash -lc '");
    let escaped = shell_escape(cmd);
    r.append(escaped.as_str());
    r.append("'");
    r
}

/// `c` in front of the text of `o`, if any.
pub open spec fn prepend(c: char, o: Option<Seq<char>>) -> Option<Seq<char>> {
    match o {
        Some(t) => Some(seq![c] + t),
        None => None,
    }
}

/// The text a POSIX shell reads from the word `s` (starting inside single
/// quotes when `quoted`): inside quotes every character but `'` is literal
/// and `'` ends the quote; outside, `'` opens a quote, a backslash makes the
/// next character literal, and whitespace or an unquoted shell
/// metacharacter means `s` is not one plain word (`None`), as does a quote
/// left open.
pub open spec fn shell_word_from(s: Seq<char>, quoted: bool) -> Option<Seq<char>>
    decreases s.len(),
{
    if s.len() == 0 {
        if quoted {
            None
        } else {
            Some(seq![])
        }
    } else if quoted {
        if s[0] == '\'' {
            shell_word_from(s.drop_first(), false)
        } else {
            prepend(s[0], shell_word_from(s.drop_first(), true))
        }
    } else if s[0] == '\'' {
        shell_word_from(s.drop_first(), true)
    } else if s[0] == '\\' {
        if s.len() >= 2 {
            prepend(s[1], shell_word_from(s.skip(2), false))
        } else {
            None
        }
    } else if crate::text::is_ws(s[0]) || s[0] == ';' || s[0] == '&' || s[0] == '|' || s[0] == '<'
        || s[0] == '>' || s[0] == '(' || s[0] == ')' || s[0] == '$' || s[0] == '`' || s[0] == '"' {
        None
    } else {
        prepend(s[0], shell_word_from(s.drop_first(), false))
    }
}

/// The text of the shell word `s`.
pub open spec fn shell_word_value(s: Seq<char>) -> Option<Seq<char>> {
    shell_word_from(s, false)
}

/// How many single quotes `s` holds.
pub open spec fn quote_count(s: Seq<char>) -> nat
    decreases s.len(),
{
    if s.len() == 0 {
        0
    } else {
        quote_count(s.drop_last()) + (if s.last() == '\'' {
            1nat
        } else {
            0nat
        })
    }
}

/// Escaping grows a command by three characters per single quote and leaves
/// a command without single quotes as it is; escaping two pieces one after
/// the other gives the escape of the whole.
pub proof fn law_shell_escape_shape(cmd: Seq<char>, a: Seq<char>, b: Seq<char>)
    ensures
        shell_escape_spec(cmd).len() == cmd.len() + 3 * quote_count(cmd),
        !cmd.contains('\'') ==> shell_escape_spec(cmd) == cmd,
        shell_escape_spec(a + b) == shell_escape_spec(a) + shell_escape_spec(b),
{
    lemma_escape_length(cmd);
    if !cmd.contains('\'') {
        lemma_escape_without_quotes(cmd);
    }
    lemma_escape_concat(a, b);
}

proof fn lemma_escape_length(s: Seq<char>)
    ensures
        shell_escape_spec(s).len() == s.len() + 3 * quote_count(s),
    decreases s.len(),
{
    if s.len() > 0 {
        lemma_escape_length(s.drop_last());
    }
}

proof fn lemma_escape_without_quotes(s: Seq<char>)
    requires
        !s.contains('\''),
    ensures
        shell_escape_spec(s) == s,
    decreases s.len(),
{
    if s.len() > 0 {
        let d = s.drop_last();
        assert(!d.contains('\'')) by {
            if d.contains('\'') {
                let k = choose|k: int| 0 <= k < d.len() && d[k] == '\'';
                assert(s[k] == '\'');
            }
        }
        lemma_escape_without_quotes(d);
        assert(s[s.len() - 1] == s.last());
        assert(d + seq![s.last()] =~= s);
    }
}

proof fn lemma_escape_concat(a: Seq<char>, b: Seq<char>)
    ensures
        shell_escape_spec(a + b) == shell_escape_spec(a) + shell_escape_spec(b),
    decreases b.len(),
{
    if b.len() == 0 {
        assert(a + b =~= a);
        assert(shell_escape_spec(a) + shell_escape_spec(b) =~= shell_escape_spec(a));
    } else {
        lemma_escape_concat(a, b.drop_last());
        assert((a + b).drop_last() =~= a + b.drop_last());
        assert((a + b).last() == b.last());
        let t = if b.last() == '\'' {
            seq!['\'', '\\', '\'', '\'']
        } else {
            seq![b.last()]
        };
        assert(shell_escape_spec(a) + shell_escape_spec(b.drop_last()) + t =~= shell_escape_spec(a)
            + (shell_escape_spec(b.drop_last()) + t));
    }
}

proof fn lemma_escaped_reads_back(cmd: Seq<char>, rest: Seq<char>)
    ensures
        shell_word_from(shell_escape_spec(cmd) + seq!['\''] + rest, true) == (match shell_word_from(
            rest,
            false,
        ) {
            Some(t) => Some(cmd + t),
            None => None,
        }),
    decreases cmd.len(),
{
    let q = seq!['\''];
    if cmd.len() == 0 {
        assert(shell_escape_spec(cmd) + q + rest =~= q + rest);
        assert((q + rest).drop_first() =~= rest);
        assert((q + rest)[0] == '\'');
        assert(shell_word_from(q + rest, true) == shell_word_from(rest, false));
        match shell_word_from(rest, false) {
            Some(t) => assert(cmd + t =~= t),
            None => {},
        }
    } else {
        let c = cmd[0];
        let tail = cmd.drop_first();
        assert(cmd =~= seq![c] + tail);
        lemma_escape_concat(seq![c], tail);
        assert(seq![c].drop_last() =~= Seq::<char>::empty());
        assert(shell_escape_spec(Seq::<char>::empty()) == Seq::<char>::empty());
        assert(shell_escape_spec(seq![c].drop_last()) == Seq::<char>::empty());
        assert(seq![c].last() == c);
        lemma_escaped_reads_back(tail, rest);
        let inner = shell_escape_spec(tail) + q + rest;
        if c == '\'' {
            let e = seq!['\'', '\\', '\'', '\''];
            assert(shell_escape_spec(seq![c]) =~= e);
            let s = shell_escape_spec(cmd) + q + rest;
            assert(s =~= e + inner);
            assert(s.drop_first() =~= seq!['\\', '\'', '\''] + inner);
            let s1 = s.drop_first();
            assert(s1.skip(2) =~= seq!['\''] + inner);
            assert(s1.skip(2).drop_first() =~= inner);
            assert(s[0] == '\'' && s1[0] == '\\' && s1[1] == '\'' && s1.skip(2)[0] == '\'');
            assert(shell_word_from(s, true) == shell_word_from(s1, false));
            assert(shell_word_from(s1, false) == prepend('\'', shell_word_from(s1.skip(2), false)));
            assert(shell_word_from(s1.skip(2), false) == shell_word_from(inner, true));
        } else {
            assert(shell_escape_spec(seq![c]) =~= seq![c]);
            let s = shell_escape_spec(cmd) + q + rest;
            assert(s =~= seq![c] + inner);
            assert(s.drop_first() =~= inner);
            assert(s[0] == c);
            assert(shell_word_from(s, true) == prepend(c, shell_word_from(inner, true)));
        }
        match shell_word_from(rest, false) {
            Some(t) => {
                assert(seq![c] + (tail + t) =~= cmd + t);
            },
            None => {},
        }
    }
}

/// Escaping makes any command safe to put between single quotes: the shell
/// word `'<escaped>'` that [`remote_command_line`] passes to `bash -lc`
/// reads back as exactly the command, so no part of it can end the quote
/// and be run by the login shell.
pub proof fn law_quoted_command_reads_back(cmd: Seq<char>)
    ensures
        shell_word_value(seq!['\''] + shell_escape_spec(cmd) + seq!['\'']) == Some(cmd),
        remote_command_line_spec(cmd) == "bash -lc "@ + (seq!['\''] + shell_escape_spec(cmd)
            + seq!['\'']),
{
    let e = Seq::<char>::empty();
    lemma_escaped_reads_back(cmd, e);
    let w = seq!['\''] + shell_escape_spec(cmd) + seq!['\''];
    assert(w.drop_first() =~= shell_escape_spec(cmd) + seq!['\''] + e);
    assert(cmd + e =~= cmd);
    reveal_strlit("bash -lc '");
    reveal_strlit("bash -lc ");
    reveal_strlit("'");
    assert("bash -lc '"@ =~= "bash -lc "@ + seq!['\'']);
    assert("'"@ =~= seq!['\'']);
    assert(remote_command_line_spec(cmd) =~= "bash -lc "@ + w);
}

impl ExecResult {
    /// Whether the command exited with status 0.
    pub fn succeeded(&self) -> (b: bool)
        ensures
            b == (self.exit == 0),
    {
        self.exit == 0
    }
}

/// The one-line summary of a failed command: its trimmed stderr, else its
/// trimmed stdout, else its exit status.
pub open spec fn summarize_spec(stdout: Seq<char>, stderr: Seq<char>, exit: i32) -> Seq<char> {
    if trim_spec(stderr).len() > 0 {
        trim_spec(stderr)
    } else if trim_spec(stdout).len() > 0 {
        trim_spec(stdout)
    } else {
        "command exited with status "@ + int_decimal_spec(exit as int)
    }
}

/// Summarises a failed remote command for an error message.
pub fn summarize_remote_failure(result: &ExecResult) -> (r: String)
    ensures
        r@ == summarize_spec(result.stdout@, result.stderr@, result.exit),
{
    let stderr = crate::text::trim(result.stderr.as_str());
    if stderr.unicode_len() > 0 {
        return String::from_str(stderr);
    }
    let stdout = crate::text::trim(result.stdout.as_str());
    if stdout.unicode_len() > 0 {
        return String::from_str(stdout);
    }
    let mut r = String::from_str("command exited with status ");
    let status = crate::decimal::i64_to_decimal(result.exit as i64);
    r.append(status.as_str());
    r
}

/// Accepts the server only if `uname -s` printed `Linux`.
pub fn check_kernel(uname_stdout: &str) -> (r: Result<(), PreflightError>)
    ensures
        r is Ok <==> trim_spec(uname_stdout@) == "Linux"@,
        r matches Err(e) ==> (e matches PreflightError::UnsupportedOs { kernel } && kernel@
            == trim_spec(uname_stdout@)),
{
    let kernel = crate::text::trim(uname_stdout);
    if crate::text::str_eq(kernel, "Linux") {
        Ok(())
    } else {
        Err(PreflightError::UnsupportedOs { kernel: String::from_str(kernel) })
    }
}

/// Whether an optional string holds exactly `w`.
pub open spec fn opt_is(o: Option<String>, w: Seq<char>) -> bool {
    o matches Some(v) && v@ == w
}

/// The text of an optional string, empty when absent.
pub open spec fn opt_text(o: Option<String>) -> Seq<char> {
    match o {
        Some(v) => v@,
        None => seq![],
    }
}

/// Whether the distribution is Debian or Ubuntu, or says it is like one of them.
pub open spec fn is_debian_like_spec(distro_id: Option<String>, distro_like: Option<String>) -> bool {
    ||| opt_is(distro_id, "debian"@)
    ||| opt_is(distro_id, "ubuntu"@)
    ||| has_word(opt_text(distro_like), "debian"@)
    ||| has_word(opt_text(distro_like), "ubuntu"@)
}

/// Whether the os-release fields `ID` and `ID_LIKE` name a Debian-style
/// distribution; when they do not, provisioning only warns.
pub fn is_debian_like(distro_id: &Option<String>, distro_like: &Option<String>) -> (b: bool)
    ensures
        b == is_debian_like_spec(*distro_id, *distro_like),
{
    let id_match = match distro_id {
        Some(id) => crate::text::str_eq(id.as_str(), "debian") || crate::text::str_eq(
            id.as_str(),
            "ubuntu",
        ),
        None => false,
    };
    if id_match {
        return true;
    }
    match distro_like {
        Some(like) => crate::text::contains_word(like.as_str(), "debian")
            || crate::text::contains_word(like.as_str(), "ubuntu"),
        None => {
            let empty = String::new();
            crate::text::contains_word(empty.as_str(), "debian")
                || crate::text::contains_word(empty.as_str(), "ubuntu")
        },
    }
}

/// Accepts the server only if PID 1 is `systemd`.
pub fn check_init_system(pid1_stdout: &str) -> (r: Result<(), PreflightError>)
    ensures
        r is Ok <==> trim_spec(pid1_stdout@) == "systemd"@,
        r matches Err(e) ==> e is NotSystemd,
{
    if crate::text::str_eq(crate::text::trim(pid1_stdout), "systemd") {
        Ok(())
    } else {
        Err(PreflightError::NotSystemd)
    }
}

/// The release bundle for the architecture `uname -m` printed.
pub open spec fn remote_arch_spec(uname_m: Seq<char>) -> Option<Seq<char>> {
    let a = trim_spec(uname_m);
    if a == "x86_64"@ {
        Some("x86_64"@)
    } else if a == "aarch64"@ || a == "arm64"@ {
        Some("aarch64"@)
    } else {
        None
    }
}

/// Maps the output of `uname -m` to the release bundle to install:
/// `x86_64`, or `aarch64` for both `aarch64` and `arm64`.
pub fn map_remote_arch(uname_m_stdout: &str) -> (r: Result<String, PreflightError>)
    ensures
        match r {
            Ok(a) => remote_arch_spec(uname_m_stdout@) == Some(a@),
            Err(e) => remote_arch_spec(uname_m_stdout@) is None && (
            e matches PreflightError::UnsupportedArch { arch } && arch@ == trim_spec(
                uname_m_stdout@,
            )),
        },
{
    let arch = crate::text::trim(uname_m_stdout);
    if crate::text::str_eq(arch, "x86_64") {
        Ok(String::from_str("x86_64"))
    } else if crate::text::str_eq(arch, "aarch64") || crate::text::str_eq(arch, "arm64") {
        Ok(String::from_str("aarch64"))
    } else {
        Err(PreflightError::UnsupportedArch { arch: String::from_str(arch) })
    }
}

/// Only the three architectures with a release bundle are accepted, each
/// mapped to its bundle: `x86_64` to `x86_64`, `aarch64` and `arm64` to
/// `aarch64`; any other `uname -m` answer (such as `armv7l`) is refused.
pub proof fn law_only_known_architectures_are_accepted(uname_m: Seq<char>)
    ensures
        remote_arch_spec(uname_m) == Some("x86_64"@) <==> trim_spec(uname_m) == "x86_64"@,
        remote_arch_spec(uname_m) == Some("aarch64"@) <==> (trim_spec(uname_m) == "aarch64"@
            || trim_spec(uname_m) == "arm64"@),
        remote_arch_spec(uname_m) is None <==> !(trim_spec(uname_m) == "x86_64"@ || trim_spec(
            uname_m,
        ) == "aarch64"@ || trim_spec(uname_m) == "arm64"@),
{
    reveal_strlit("x86_64");
    reveal_strlit("aarch64");
    reveal_strlit("arm64");
    assert("x86_64"@[0] != "aarch64"@[0]);
    assert("x86_64"@[0] != "arm64"@[0]);
}

/// A distribution is taken as Debian-like exactly when its `ID` is `debian`
/// or `ubuntu`, or its `ID_LIKE` names one of them as a word.
pub proof fn law_debian_like_by_id_or_like(distro_id: Option<String>, distro_like: Option<String>)
    ensures
        is_debian_like_spec(distro_id, distro_like) <==> ((distro_id matches Some(i) && (i@
            == "debian"@ || i@ == "ubuntu"@)) || (distro_like matches Some(l) && (has_word(
            l@,
            "debian"@,
        ) || has_word(l@, "ubuntu"@)))),
{
    if distro_like is None {
        reveal_strlit("debian");
        reveal_strlit("ubuntu");
        assert(!has_word(seq![], "debian"@));
        assert(!has_word(seq![], "ubuntu"@));
    }
}

/// The listen port counts as taken exactly when some line the listener
/// probe printed holds more than blanks.
pub proof fn law_port_taken_iff_a_listener_line(stdout: Seq<char>)
    ensures
        nonempty_trimmed(lines_spec(stdout)).len() > 0 <==> exists|i: int|
            0 <= i < lines_spec(stdout).len() && #[trigger] trim_spec(lines_spec(stdout)[i]).len()
                > 0,
{
    lemma_nonempty_trimmed_exists(lines_spec(stdout));
}

proof fn lemma_nonempty_trimmed_exists(ls: Seq<Seq<char>>)
    ensures
        nonempty_trimmed(ls).len() > 0 <==> exists|i: int|
            0 <= i < ls.len() && #[trigger] trim_spec(ls[i]).len() > 0,
    decreases ls.len(),
{
    if ls.len() > 0 {
        let d = ls.drop_last();
        lemma_nonempty_trimmed_exists(d);
        if exists|i: int| 0 <= i < ls.len() && #[trigger] trim_spec(ls[i]).len() > 0 {
            let i = choose|i: int| 0 <= i < ls.len() && #[trigger] trim_spec(ls[i]).len() > 0;
            if i < d.len() {
                assert(d[i] == ls[i]);
            }
        }
        if exists|i: int| 0 <= i < d.len() && #[trigger] trim_spec(d[i]).len() > 0 {
            let i = choose|i: int| 0 <= i < d.len() && #[trigger] trim_spec(d[i]).len() > 0;
            assert(ls[i] == d[i]);
        }
        if trim_spec(ls.last()).len() > 0 {
            assert(trim_spec(ls[ls.len() - 1]).len() > 0);
        }
    }
}

/// What ufw's status says of the listen port: `inactive` anywhere wins;
/// otherwise the port is taken as allowed exactly when the status names the
/// port's number and the word `allow`.
pub proof fn law_ufw_verdict(lowered: Seq<char>, port: u16)
    ensures
        contains_spec(lowered, "inactive"@) ==> ufw_assessment_spec(lowered, port)
            == UfwAssessment::Inactive,
        !contains_spec(lowered, "inactive"@) ==> (ufw_assessment_spec(lowered, port)
            == UfwAssessment::AllowsPort <==> (contains_spec(lowered, decimal_spec(port as nat))
            && contains_spec(lowered, "allow"@))),
        !contains_spec(lowered, "inactive"@) ==> ufw_assessment_spec(lowered, port)
            != UfwAssessment::Inactive,
{
}

/// Reads the free space on `/` (in KiB) from `df` output and demands at
/// least [`MIN_DISK_KB`].
pub fn check_free_disk(df_stdout: &str) -> (r: Result<u64, PreflightError>)
    ensures
        match r {
            Ok(kb) => parse_u64_spec(trim_spec(df_stdout@)) == Some(kb) && kb >= MIN_DISK_KB,
            Err(e) => match parse_u64_spec(trim_spec(df_stdout@)) {
                Some(kb) => kb < MIN_DISK_KB && (e matches PreflightError::InsufficientDisk {
                    avail_kb,
                } && avail_kb == kb),
                None => e matches PreflightError::ParseField { label, raw } && label@
                    == "available disk space"@ && raw@ == trim_spec(df_stdout@),
            },
        },
{
    let avail_kb = parse_u64_field(crate::text::trim(df_stdout), "available disk space")?;
    if avail_kb < MIN_DISK_KB {
        return Err(PreflightError::InsufficientDisk { avail_kb });
    }
    Ok(avail_kb)
}

/// Reads the available memory (in KiB) from `/proc/meminfo` output.
pub fn parse_available_memory(mem_stdout: &str) -> (r: Result<u64, PreflightError>)
    ensures
        match r {
            Ok(kb) => parse_u64_spec(trim_spec(mem_stdout@)) == Some(kb),
            Err(e) => parse_u64_spec(trim_spec(mem_stdout@)) is None && (
            e matches PreflightError::ParseField { label, raw } && label@ == "available memory"@
                && raw@ == trim_spec(mem_stdout@)),
        },
{
    parse_u64_field(crate::text::trim(mem_stdout), "available memory")
}

/// Whether the available memory calls for a warning.
pub fn memory_is_low(mem_kb: u64) -> (b: bool)
    ensures
        b == (mem_kb < WARN_MEM_KB),
{
    mem_kb < WARN_MEM_KB
}

/// The installed server version: the trimmed first line that
/// `secluso-server --version` printed, if any.
pub fn installed_version(version_stdout: &str) -> (r: Option<String>)
    ensures
        match r {
            Some(v) => v@ == trim_spec(version_stdout@) && v@.len() > 0,
            None => trim_spec(version_stdout@).len() == 0,
        },
{
    let t = crate::text::trim(version_stdout);
    if t.unicode_len() == 0 {
        None
    } else {
        Some(String::from_str(t))
    }
}

/// How the sudo check is run.
#[derive(Debug)]
pub enum SudoCheck {
    /// The login is `root`; no check is needed.
    NotNeeded,
    /// Run `cmd` with `stdin` fed to it; `mode_label` names the mode in messages.
    Run { cmd: String, stdin: Option<String>, mode_label: String },
}

/// The sudo password given in the settings, empty when absent.
pub open spec fn sudo_password_text(target: SshTarget) -> Seq<char> {
    opt_text(target.sudo.password)
}

/// The login password, when the login uses one and it is not empty.
pub open spec fn login_password(target: SshTarget) -> Option<Seq<char>> {
    match target.auth {
        SshAuth::Password { password } => if password@.len() > 0 {
            Some(password@)
        } else {
            None
        },
        SshAuth::Key => None,
    }
}

/// Whether `o` holds a string with the text `t`.
pub open spec fn opt_text_is(o: Option<String>, t: Option<Seq<char>>) -> bool {
    match o {
        Some(v) => t == Some(v@),
        None => t is None,
    }
}

/// Whether a sudo check runs `cmd` with `stdin`, labelled `label`.
pub open spec fn runs(r: Result<SudoCheck, PreflightError>, cmd: Seq<char>, stdin: Option<Seq<char>>, label: Seq<char>) -> bool {
    r matches Ok(SudoCheck::Run { cmd: c, stdin: s, mode_label: l }) && c@ == cmd && opt_text_is(
        s,
        stdin,
    ) && l@ == label
}

/// The password line fed to `sudo -S`.
pub open spec fn password_line(p: Seq<char>) -> Seq<char> {
    p + "\n"@
}

/// Decides how to check that sudo works: not at all for `root`; with the
/// sudo password in mode `password` (refusing an empty one); with the login
/// password in mode `same` when the login has one; else passwordless.
pub fn sudo_check_plan(target: &SshTarget) -> (r: Result<SudoCheck, PreflightError>)
    ensures
        target.user@ == "root"@ ==> r matches Ok(SudoCheck::NotNeeded),
        target.user@ != "root"@ && target.sudo.mode@ == "password"@ ==> if sudo_password_text(
            *target,
        ).len() == 0 {
            r matches Err(PreflightError::EmptySudoPassword)
        } else {
            runs(
                r,
                "sudo -S -p '' true"@,
                Some(password_line(sudo_password_text(*target))),
                "explicit sudo password"@,
            )
        },
        target.user@ != "root"@ && target.sudo.mode@ == "same"@ ==> match login_password(
            *target,
        ) {
            Some(p) => runs(
                r,
                "sudo -S -p '' true"@,
                Some(password_line(p)),
                "same-as-login password"@,
            ),
            None => runs(r, "sudo -n true"@, None, "passwordless sudo"@),
        },
        target.user@ != "root"@ && target.sudo.mode@ != "password"@ && target.sudo.mode@
            != "same"@ ==> runs(r, "sudo -n true"@, None, "passwordless sudo"@),
{
    proof {
        reveal_strlit("password");
        reveal_strlit("same");
        assert("password"@[0] != "same"@[0]);
    }
    if crate::text::str_eq(target.user.as_str(), "root") {
        return Ok(SudoCheck::NotNeeded);
    }
    if crate::text::str_eq(target.sudo.mode.as_str(), "password") {
        let pw = match &target.sudo.password {
            Some(p) => p.clone(),
            None => String::new(),
        };
        if pw.unicode_len() == 0 {
            return Err(PreflightError::EmptySudoPassword);
        }
        let mut line = pw;
        line.append("\n");
        return Ok(
            SudoCheck::Run {
                cmd: String::from_str("sudo -S -p '' true"),
                stdin: Some(line),
                mode_label: String::from_str("explicit sudo password"),
            },
        );
    }
    if crate::text::str_eq(target.sudo.mode.as_str(), "same") {
        match &target.auth {
            SshAuth::Password { password } => {
                if password.unicode_len() > 0 {
                    let mut line = password.clone();
                    line.append("\n");
                    return Ok(
                        SudoCheck::Run {
                            cmd: String::from_str("sudo -S -p '' true"),
                            stdin: Some(line),
                            mode_label: String::from_str("same-as-login password"),
                        },
                    );
                }
            },
            SshAuth::Key => {},
        }
    }
    Ok(
        SudoCheck::Run {
            cmd: String::from_str("sudo -n true"),
            stdin: None,
            mode_label: String::from_str("passwordless sudo"),
        },
    )
}

/// Judges the result of the sudo check: a non-zero exit stops provisioning.
pub fn sudo_check_outcome(result: &ExecResult, mode_label: &str) -> (r: Result<(), PreflightError>)
    ensures
        r is Ok <==> result.exit == 0,
        r matches Err(e) ==> (e matches PreflightError::SudoFailed { mode_label: l, detail } && l@
            == mode_label@ && detail@ == summarize_spec(
            result.stdout@,
            result.stderr@,
            result.exit,
        )),
{
    if result.exit != 0 {
        return Err(
            PreflightError::SudoFailed {
                mode_label: String::from_str(mode_label),
                detail: summarize_remote_failure(result),
            },
        );
    }
    Ok(())
}

/// How a command that may need root is run.
#[derive(Debug)]
pub enum SudoRoute {
    /// Run `cmd` once, with `stdin` fed to it.
    Run { cmd: String, stdin: Option<String> },
    /// Run `probe`; use its result if it exits with 0, else run `fallback`.
    ProbeThenFallback { probe: String, fallback: String },
}

/// Whether a route runs `cmd` once with `stdin`.
pub open spec fn route_runs(r: SudoRoute, cmd: Seq<char>, stdin: Option<Seq<char>>) -> bool {
    r matches SudoRoute::Run { cmd: c, stdin: s } && c@ == cmd && opt_text_is(s, stdin)
}

/// The passwordless probe tried before falling back, in mode `same` without a login password.
pub open spec fn passwordless_probe() -> Seq<char> {
    "sudo -n ss -ltnpH | awk '$4 ~ /:8000$/ {print}'"@
}

/// Decides how to run `sudo_cmd`, which works better as root: directly for
/// `root`; with the sudo password in mode `password` (or `fallback_cmd`
/// without sudo when there is none); with the login password in mode `same`,
/// or else a passwordless probe and then `fallback_cmd`; and `fallback_cmd`
/// in any other mode.
pub fn optional_sudo_route(target: &SshTarget, sudo_cmd: &str, fallback_cmd: &str) -> (r: SudoRoute)
    ensures
        target.user@ == "root"@ ==> route_runs(r, sudo_cmd@, None),
        target.user@ != "root"@ && target.sudo.mode@ == "password"@ ==> if sudo_password_text(
            *target,
        ).len() == 0 {
            route_runs(r, fallback_cmd@, None)
        } else {
            route_runs(r, sudo_cmd@, Some(password_line(sudo_password_text(*target))))
        },
        target.user@ != "root"@ && target.sudo.mode@ == "same"@ ==> match login_password(
            *target,
        ) {
            Some(p) => route_runs(r, sudo_cmd@, Some(password_line(p))),
            None => r matches SudoRoute::ProbeThenFallback { probe, fallback } && probe@
                == passwordless_probe() && fallback@ == fallback_cmd@,
        },
        target.user@ != "root"@ && target.sudo.mode@ != "password"@ && target.sudo.mode@
            != "same"@ ==> route_runs(r, fallback_cmd@, None),
{
    proof {
        reveal_strlit("password");
        reveal_strlit("same");
        assert("password"@[0] != "same"@[0]);
    }
    if crate::text::str_eq(target.user.as_str(), "root") {
        return SudoRoute::Run { cmd: String::from_str(sudo_cmd), stdin: None };
    }
    if crate::text::str_eq(target.sudo.mode.as_str(), "password") {
        let pw = match &target.sudo.password {
            Some(p) => p.clone(),
            None => String::new(),
        };
        if pw.unicode_len() == 0 {
            return SudoRoute::Run { cmd: String::from_str(fallback_cmd), stdin: None };
        }
        let mut line = pw;
        line.append("\n");
        return SudoRoute::Run { cmd: String::from_str(sudo_cmd), stdin: Some(line) };
    }
    if crate::text::str_eq(target.sudo.mode.as_str(), "same") {
        match &target.auth {
            SshAuth::Password { password } => {
                if password.unicode_len() > 0 {
                    let mut line = password.clone();
                    line.append("\n");
                    return SudoRoute::Run { cmd: String::from_str(sudo_cmd), stdin: Some(line) };
                }
            },
            SshAuth::Key => {},
        }
        return SudoRoute::ProbeThenFallback {
            probe: String::from_str("sudo -n ss -ltnpH | awk '$4 ~ /:8000$/ {print}'"),
            fallback: String::from_str(fallback_cmd),
        };
    }
    SudoRoute::Run { cmd: String::from_str(fallback_cmd), stdin: None }
}

/// The command that lists the listeners on `port`, with process names
/// (`with_process` true, needs root) or without.
pub open spec fn port_probe_command_spec(port: u16, with_process: bool) -> Seq<char> {
    (if with_process {
        "ss -ltnpH | awk '$4 ~ /:"@
    } else {
        "ss -ltnH | awk '$4 ~ /:"@
    }) + decimal_spec(port as nat) + "$/ {print}'"@
}

/// The two listener probes for `port`: the one that needs root (it names
/// the listening processes) and the fallback that does not.
pub fn port_probe_commands(port: u16) -> (r: (String, String))
    ensures
        r.0@ == port_probe_command_spec(port, true),
        r.1@ == port_probe_command_spec(port, false),
{
    let digits = crate::decimal::u64_to_decimal(port as u64);
    let mut with_process = String::from_str("ss -ltnpH | awk '$4 ~ /:");
    with_process.append(digits.as_str());
    with_process.append("$/ {print}'");
    let mut without = String::from_str("ss -ltnH | awk '$4 ~ /:");
    without.append(digits.as_str());
    without.append("$/ {print}'");
    (with_process, without)
}

/// The trimmed non-empty lines among `ls`.
pub open spec fn nonempty_trimmed(ls: Seq<Seq<char>>) -> Seq<Seq<char>>
    decreases ls.len(),
{
    if ls.len() == 0 {
        seq![]
    } else {
        nonempty_trimmed(ls.drop_last()) + (if trim_spec(ls.last()).len() > 0 {
            seq![trim_spec(ls.last())]
        } else {
            seq![]
        })
    }
}

/// The listeners a port probe printed: its trimmed non-empty lines.
pub fn listener_lines(probe_stdout: &str) -> (r: Vec<String>)
    ensures
        r.deep_view() == nonempty_trimmed(lines_spec(probe_stdout@)),
{
    let ls = crate::text::lines(probe_stdout);
    let ghost all = ls.deep_view();
    let mut r: Vec<String> = Vec::new();
    let mut i: usize = 0;
    assert(all.take(0) =~= Seq::<Seq<char>>::empty());
    while i < ls.len()
        invariant
            all == ls.deep_view(),
            i <= ls.len(),
            r.deep_view() == nonempty_trimmed(all.take(i as int)),
        decreases ls.len() - i,
    {
        assert(all.take(i + 1).drop_last() =~= all.take(i as int));
        assert(all.take(i + 1).last() == ls@[i as int]@);
        let t = crate::text::trim(ls[i].as_str());
        if t.unicode_len() > 0 {
            let ghost before = r.deep_view();
            r.push(String::from_str(t));
            assert(r.deep_view() =~= before + seq![t@]);
        } else {
            assert(r.deep_view() =~= r.deep_view() + Seq::<Seq<char>>::empty());
        }
        i = i + 1;
    }
    assert(all.take(ls.len() as int) =~= all);
    r
}

/// Decides what the listener probe means: the port is in use when the probe
/// printed a listener; that is accepted only when Secluso itself may be the
/// listener (the probe names `secluso-server`, or a Secluso binary or unit
/// is installed). Returns whether the port is in use.
pub fn check_port(probe_stdout: &str, remote_has_bin: bool, remote_has_unit: bool, port: u16) -> (r:
    Result<bool, PreflightError>)
    ensures
        ({
            let in_use = nonempty_trimmed(lines_spec(probe_stdout@)).len() > 0;
            let secluso = contains_spec(probe_stdout@, "secluso-server"@) || remote_has_bin
                || remote_has_unit;
            match r {
                Ok(b) => b == in_use && (in_use ==> secluso),
                Err(e) => in_use && !secluso && (e matches PreflightError::PortInUse { port: p }
                    && p == port),
            }
        }),
{
    let lines = listener_lines(probe_stdout);
    let in_use = lines.len() > 0;
    if in_use {
        let by_secluso = crate::text::contains(probe_stdout, "secluso-server") || remote_has_bin
            || remote_has_unit;
        if !by_secluso {
            return Err(PreflightError::PortInUse { port });
        }
    }
    Ok(in_use)
}

/// The remote check that `host` resolves.
pub open spec fn dns_probe_command_spec(host: Seq<char>) -> Seq<char> {
    "getent ahostsv4 "@ + host + " >/dev/null 2>&1 || getent hosts "@ + host
        + " >/dev/null 2>&1"@
}

/// Builds the remote check that `host` resolves.
pub fn dns_probe_command(host: &str) -> (r: String)
    ensures
        r@ == dns_probe_command_spec(host@),
{
    let mut r = String::from_str("getent ahostsv4 ");
    r.append(host);
    r.append(" >/dev/null 2>&1 || getent hosts ");
    r.append(host);
    r.append(" >/dev/null 2>&1");
    r
}

/// The remote check that `url` answers over HTTPS; it exits with 42 when curl is missing.
pub open spec fn https_probe_command_spec(url: Seq<char>) -> Seq<char> {
    "if command -v curl >/dev/null 2>&1; then curl -fsSI --max-time 10 "@ + url
        + " >/dev/null; else exit 42; fi"@
}

/// Builds the remote check that `url` answers over HTTPS.
pub fn https_probe_command(url: &str) -> (r: String)
    ensures
        r@ == https_probe_command_spec(url@),
{
    let mut r = String::from_str("if command -v curl >/dev/null 2>&1; then curl -fsSI --max-time 10 ");
    r.append(url);
    r.append(" >/dev/null; else exit 42; fi");
    r
}

/// What an HTTPS probe found.
#[derive(Debug, PartialEq, Eq, Structural, Clone, Copy)]
pub enum HttpsProbeOutcome {
    Reachable,
    CurlMissing,
    Unreachable,
}

/// Reads the exit status of an HTTPS probe: 0 reached the site, 42 means
/// curl is not installed, anything else failed.
pub fn https_probe_outcome(exit: i32) -> (r: HttpsProbeOutcome)
    ensures
        exit == 0 ==> r is Reachable,
        exit == 42 ==> r is CurlMissing,
        exit != 0 && exit != 42 ==> r is Unreachable,
{
    if exit == 0 {
        HttpsProbeOutcome::Reachable
    } else if exit == 42 {
        HttpsProbeOutcome::CurlMissing
    } else {
        HttpsProbeOutcome::Unreachable
    }
}

/// The exposure mode and listen port of a runtime plan, `direct` and
/// [`DEFAULT_SERVER_HTTP_PORT`] without one.
pub fn runtime_settings(runtime: &Option<ServerRuntimePlan>) -> (r: (String, u16))
    ensures
        match runtime {
            Some(plan) => r.0@ == plan.exposure_mode@ && r.1 == plan.listen_port,
            None => r.0@ == "direct"@ && r.1 == DEFAULT_SERVER_HTTP_PORT,
        },
{
    match runtime {
        Some(plan) => (plan.exposure_mode.clone(), plan.listen_port),
        None => (String::from_str("direct"), DEFAULT_SERVER_HTTP_PORT),
    }
}

/// Which firewall check applies.
#[derive(Debug)]
pub enum FirewallCheck {
    /// Reverse-proxy mode: only look for a proxy that forwards to `port`.
    Proxy { port: u16 },
    /// Direct mode: check that ufw lets `port` through.
    Ufw { port: u16 },
}

/// Decides which firewall check the runtime plan calls for: the proxy check
/// in exposure mode `proxy`, the ufw check otherwise.
pub fn firewall_check(runtime: &Option<ServerRuntimePlan>) -> (r: FirewallCheck)
    ensures
        ({
            let (mode, port) = match runtime {
                Some(plan) => (plan.exposure_mode@, plan.listen_port),
                None => ("direct"@, DEFAULT_SERVER_HTTP_PORT),
            };
            if mode == "proxy"@ {
                r matches FirewallCheck::Proxy { port: p } && p == port
            } else {
                r matches FirewallCheck::Ufw { port: p } && p == port
            }
        }),
{
    let (mode, port) = runtime_settings(runtime);
    if crate::text::str_eq(mode.as_str(), "proxy") {
        FirewallCheck::Proxy { port }
    } else {
        FirewallCheck::Ufw { port }
    }
}

/// The lower-case form of `s`, as `str::to_lowercase` gives it.
pub uninterp spec fn lowercase_of(s: Seq<char>) -> Seq<char>;

/// Calls `str::to_lowercase`, which maps each character to its Unicode
/// lower case; the result depends on `s` alone and is named [`lowercase_of`].
#[verifier::external_body]
fn to_lowercase(s: &str) -> (r: String)
    ensures
        r@ == lowercase_of(s@),
{
    s.to_lowercase()
}

/// What `ufw status` says about the listen port.
#[derive(Debug, PartialEq, Eq, Structural, Clone, Copy)]
pub enum UfwAssessment {
    /// The firewall is inactive.
    Inactive,
    /// The status mentions the port and an allow rule.
    AllowsPort,
    /// The firewall is active and does not obviously allow the port.
    NotObviouslyAllowed,
}

/// How a lower-cased `ufw status` output is judged for `port`.
pub open spec fn ufw_assessment_spec(lowered: Seq<char>, port: u16) -> UfwAssessment {
    if contains_spec(lowered, "inactive"@) {
        UfwAssessment::Inactive
    } else if contains_spec(lowered, decimal_spec(port as nat)) && contains_spec(
        lowered,
        "allow"@,
    ) {
        UfwAssessment::AllowsPort
    } else {
        UfwAssessment::NotObviouslyAllowed
    }
}

/// Judges a lower-cased `ufw status` output for `port`.
pub fn assess_lowered_ufw_status(lowered: &str, port: u16) -> (r: UfwAssessment)
    ensures
        r == ufw_assessment_spec(lowered@, port),
{
    if crate::text::contains(lowered, "inactive") {
        UfwAssessment::Inactive
    } else {
        let digits = crate::decimal::u64_to_decimal(port as u64);
        if crate::text::contains(lowered, digits.as_str()) && crate::text::contains(
            lowered,
            "allow",
        ) {
            UfwAssessment::AllowsPort
        } else {
            UfwAssessment::NotObviouslyAllowed
        }
    }
}

/// Judges the output of `ufw status` for `port`, ignoring case.
pub fn assess_ufw_status(status_stdout: &str, port: u16) -> (r: UfwAssessment)
    ensures
        r == ufw_assessment_spec(lowercase_of(status_stdout@), port),
{
    let lowered = to_lowercase(status_stdout);
    assess_lowered_ufw_status(lowered.as_str(), port)
}

} // verus!
