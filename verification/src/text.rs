//! Character-level text utilities with exact specifications.
//!
//! Each function here mirrors the behaviour of a `str` method that the
//! provisioning and camera tools rely on (trimming, line splitting, prefix
//! stripping, substring search), stated over `Seq<char>`.
use vstd::prelude::*;

verus! {

/// The Unicode `White_Space` property, which `char::is_whitespace` tests.
pub open spec fn is_ws(c: char) -> bool {
    let u = c as u32;
    ||| 0x9 <= u <= 0xd
    ||| u == 0x20
    ||| u == 0x85
    ||| u == 0xa0
    ||| u == 0x1680
    ||| 0x2000 <= u <= 0x200a
    ||| u == 0x2028
    ||| u == 0x2029
    ||| u == 0x202f
    ||| u == 0x205f
    ||| u == 0x3000
}

/// Whether `c` is a whitespace character.
pub fn is_whitespace(c: char) -> (b: bool)
    ensures
        b == is_ws(c),
{
    let u = c as u32;
    (0x9 <= u && u <= 0xd) || u == 0x20 || u == 0x85 || u == 0xa0 || u == 0x1680 || (0x2000 <= u
        && u <= 0x200a) || u == 0x2028 || u == 0x2029 || u == 0x202f || u == 0x205f || u == 0x3000
}

/// Copies the characters of `s` into a vector.
pub fn chars_of(s: &str) -> (v: Vec<char>)
    ensures
        v@ == s@,
{
    let mut v: Vec<char> = Vec::new();
    for c in it: s.chars()
        invariant
            v@ == it.seq().take(it.index() as int),
    {
        v.push(c);
    }
    v
}

/// `s` without its leading whitespace.
pub open spec fn trim_start_spec(s: Seq<char>) -> Seq<char>
    decreases s.len(),
{
    if s.len() > 0 && is_ws(s[0]) {
        trim_start_spec(s.drop_first())
    } else {
        s
    }
}

/// `s` without its trailing whitespace.
pub open spec fn trim_end_spec(s: Seq<char>) -> Seq<char>
    decreases s.len(),
{
    if s.len() > 0 && is_ws(s.last()) {
        trim_end_spec(s.drop_last())
    } else {
        s
    }
}

/// `s` without leading and trailing whitespace (`str::trim`).
pub open spec fn trim_spec(s: Seq<char>) -> Seq<char> {
    trim_end_spec(trim_start_spec(s))
}

/// `s` with every trailing occurrence of `c` removed (`str::trim_end_matches`).
pub open spec fn trim_end_char_spec(s: Seq<char>, c: char) -> Seq<char>
    decreases s.len(),
{
    if s.len() > 0 && s.last() == c {
        trim_end_char_spec(s.drop_last(), c)
    } else {
        s
    }
}

/// `s` with every leading occurrence of `c` removed (`str::trim_start_matches`).
pub open spec fn trim_start_char_spec(s: Seq<char>, c: char) -> Seq<char>
    decreases s.len(),
{
    if s.len() > 0 && s[0] == c {
        trim_start_char_spec(s.drop_first(), c)
    } else {
        s
    }
}

/// `s` with every leading and trailing occurrence of `c` removed (`str::trim_matches`).
pub open spec fn trim_char_spec(s: Seq<char>, c: char) -> Seq<char> {
    trim_end_char_spec(trim_start_char_spec(s, c), c)
}

/// Removes leading and trailing whitespace, as `str::trim` does.
pub fn trim(s: &str) -> (r: &str)
    ensures
        r@ == trim_spec(s@),
{
    let v = chars_of(s);
    let n = v.len();
    let mut i: usize = 0;
    assert(s@.subrange(0, n as int) =~= s@);
    while i < n && is_whitespace(v[i])
        invariant
            v@ == s@,
            n == v.len(),
            i <= n,
            trim_start_spec(s@) == trim_start_spec(s@.subrange(i as int, n as int)),
        decreases n - i,
    {
        assert(s@.subrange(i as int, n as int).drop_first() =~= s@.subrange(i + 1, n as int));
        i = i + 1;
    }
    let ghost t = s@.subrange(i as int, n as int);
    assert(trim_start_spec(s@) == t);
    let mut j: usize = n;
    while j > i && is_whitespace(v[j - 1])
        invariant
            v@ == s@,
            n == v.len(),
            i <= j <= n,
            t == s@.subrange(i as int, n as int),
            trim_end_spec(t) == trim_end_spec(s@.subrange(i as int, j as int)),
        decreases j,
    {
        assert(s@.subrange(i as int, j as int).drop_last() =~= s@.subrange(i as int, j - 1));
        j = j - 1;
    }
    s.substring_char(i, j)
}

/// Removes every trailing occurrence of `c`, as `str::trim_end_matches` does with a char.
pub fn trim_end_char(s: &str, c: char) -> (r: &str)
    ensures
        r@ == trim_end_char_spec(s@, c),
{
    let v = chars_of(s);
    let mut j: usize = v.len();
    assert(s@.subrange(0, j as int) =~= s@);
    while j > 0 && v[j - 1] == c
        invariant
            v@ == s@,
            j <= v.len(),
            trim_end_char_spec(s@, c) == trim_end_char_spec(s@.subrange(0, j as int), c),
        decreases j,
    {
        assert(s@.subrange(0, j as int).drop_last() =~= s@.subrange(0, j - 1));
        j = j - 1;
    }
    s.substring_char(0, j)
}

/// Removes every leading and trailing occurrence of `c`, as `str::trim_matches` does with a char.
pub fn trim_char(s: &str, c: char) -> (r: &str)
    ensures
        r@ == trim_char_spec(s@, c),
{
    let v = chars_of(s);
    let n = v.len();
    let mut i: usize = 0;
    assert(s@.subrange(0, n as int) =~= s@);
    while i < n && v[i] == c
        invariant
            v@ == s@,
            n == v.len(),
            i <= n,
            trim_start_char_spec(s@, c) == trim_start_char_spec(
                s@.subrange(i as int, n as int),
                c,
            ),
        decreases n - i,
    {
        assert(s@.subrange(i as int, n as int).drop_first() =~= s@.subrange(i + 1, n as int));
        i = i + 1;
    }
    let ghost t = s@.subrange(i as int, n as int);
    assert(trim_start_char_spec(s@, c) == t);
    let mut j: usize = n;
    while j > i && v[j - 1] == c
        invariant
            v@ == s@,
            n == v.len(),
            i <= j <= n,
            t == s@.subrange(i as int, n as int),
            trim_end_char_spec(t, c) == trim_end_char_spec(s@.subrange(i as int, j as int), c),
        decreases j,
    {
        assert(s@.subrange(i as int, j as int).drop_last() =~= s@.subrange(i as int, j - 1));
        j = j - 1;
    }
    s.substring_char(i, j)
}

/// The rest of `s` after `prefix`, if `s` starts with `prefix` (`str::strip_prefix`).
pub open spec fn strip_prefix_spec(s: Seq<char>, prefix: Seq<char>) -> Option<Seq<char>> {
    if prefix.len() <= s.len() && s.take(prefix.len() as int) == prefix {
        Some(s.skip(prefix.len() as int))
    } else {
        None
    }
}

/// Whether `prefix` is a prefix of `s`.
pub fn starts_with(s: &Vec<char>, prefix: &Vec<char>) -> (b: bool)
    ensures
        b == (prefix@.len() <= s@.len() && s@.take(prefix@.len() as int) == prefix@),
{
    if prefix.len() > s.len() {
        return false;
    }
    let mut i: usize = 0;
    while i < prefix.len()
        invariant
            prefix@.len() <= s@.len(),
            i <= prefix@.len(),
            forall|k: int| 0 <= k < i ==> s@[k] == prefix@[k],
        decreases prefix@.len() - i,
    {
        if s[i] != prefix[i] {
            assert(s@.take(prefix@.len() as int)[i as int] != prefix@[i as int]);
            return false;
        }
        i = i + 1;
    }
    assert(s@.take(prefix@.len() as int) =~= prefix@);
    true
}

/// Strips `prefix` from the front of `s`, as `str::strip_prefix` does.
pub fn strip_prefix<'a>(s: &'a str, prefix: &str) -> (r: Option<&'a str>)
    ensures
        match r {
            Some(rest) => strip_prefix_spec(s@, prefix@) == Some(rest@),
            None => strip_prefix_spec(s@, prefix@) is None,
        },
{
    let sv = chars_of(s);
    let pv = chars_of(prefix);
    if starts_with(&sv, &pv) {
        Some(s.substring_char(pv.len(), sv.len()))
    } else {
        None
    }
}

/// Whether `needle` occurs in `hay` starting at position `i`.
pub open spec fn occurs_at(hay: Seq<char>, needle: Seq<char>, i: int) -> bool {
    0 <= i && i + needle.len() <= hay.len() && hay.subrange(i, i + needle.len()) == needle
}

/// Whether `needle` occurs anywhere in `hay` (`str::contains`).
pub open spec fn contains_spec(hay: Seq<char>, needle: Seq<char>) -> bool {
    exists|i: int| occurs_at(hay, needle, i)
}

/// Whether `needle` occurs in `hay` at position `i`, on character vectors.
fn occurs_at_exec(hay: &Vec<char>, needle: &Vec<char>, i: usize) -> (b: bool)
    requires
        i + needle@.len() <= hay@.len(),
    ensures
        b == occurs_at(hay@, needle@, i as int),
{
    let mut k: usize = 0;
    while k < needle.len()
        invariant
            i + needle@.len() <= hay.len(),
            k <= needle@.len(),
            forall|m: int| 0 <= m < k ==> hay@[i + m] == needle@[m],
        decreases needle@.len() - k,
    {
        if hay[i + k] != needle[k] {
            assert(hay@.subrange(i as int, i + needle@.len())[k as int] != needle@[k as int]);
            return false;
        }
        k = k + 1;
    }
    assert(hay@.subrange(i as int, i + needle@.len()) =~= needle@);
    true
}

/// Whether `needle` occurs in `hay`, as `str::contains` does.
pub fn contains(hay: &str, needle: &str) -> (b: bool)
    ensures
        b == contains_spec(hay@, needle@),
{
    let h = chars_of(hay);
    let n = chars_of(needle);
    if n.len() > h.len() {
        return false;
    }
    let last = h.len() - n.len();
    let mut i: usize = 0;
    loop
        invariant
            h@ == hay@,
            n@ == needle@,
            last == h@.len() - n@.len(),
            n@.len() <= h@.len(),
            i <= last,
            forall|k: int| 0 <= k < i ==> !occurs_at(hay@, needle@, k),
        decreases last - i,
    {
        if occurs_at_exec(&h, &n, i) {
            return true;
        }
        if i == last {
            assert forall|k: int| !occurs_at(hay@, needle@, k) by {
                if 0 <= k && k < i {
                } else if k == i {
                }
            }
            return false;
        }
        i = i + 1;
    }
}

/// ASCII lower-casing of one character (`char::to_ascii_lowercase`).
pub open spec fn ascii_lower(c: char) -> char {
    if 'A' <= c <= 'Z' {
        ((c as u32) + 32) as char
    } else {
        c
    }
}

/// ASCII-case-insensitive equality (`str::eq_ignore_ascii_case`).
pub open spec fn eq_ignore_ascii_case_spec(a: Seq<char>, b: Seq<char>) -> bool {
    a.len() == b.len() && forall|i: int| 0 <= i < a.len() ==> ascii_lower(a[i]) == ascii_lower(b[i])
}

/// Whether two characters are equal up to ASCII case.
fn char_eq_ignore_ascii_case(a: char, b: char) -> (r: bool)
    ensures
        r == (ascii_lower(a) == ascii_lower(b)),
{
    let la: u32 = if 'A' <= a && a <= 'Z' { (a as u32) + 32 } else { a as u32 };
    let lb: u32 = if 'A' <= b && b <= 'Z' { (b as u32) + 32 } else { b as u32 };
    la == lb
}

/// Compares two strings ignoring ASCII case, as `str::eq_ignore_ascii_case` does.
pub fn eq_ignore_ascii_case(a: &str, b: &str) -> (r: bool)
    ensures
        r == eq_ignore_ascii_case_spec(a@, b@),
{
    let av = chars_of(a);
    let bv = chars_of(b);
    if av.len() != bv.len() {
        return false;
    }
    let mut i: usize = 0;
    while i < av.len()
        invariant
            av@ == a@,
            bv@ == b@,
            av@.len() == bv@.len(),
            i <= av@.len(),
            forall|k: int| 0 <= k < i ==> ascii_lower(a@[k]) == ascii_lower(b@[k]),
        decreases av@.len() - i,
    {
        if !char_eq_ignore_ascii_case(av[i], bv[i]) {
            return false;
        }
        i = i + 1;
    }
    true
}

/// Whether two strings hold the same characters.
pub fn str_eq(a: &str, b: &str) -> (r: bool)
    ensures
        r == (a@ == b@),
{
    let av = chars_of(a);
    let bv = chars_of(b);
    if av.len() != bv.len() {
        return false;
    }
    let mut i: usize = 0;
    while i < av.len()
        invariant
            av@ == a@,
            bv@ == b@,
            av@.len() == bv@.len(),
            i <= av@.len(),
            forall|k: int| 0 <= k < i ==> a@[k] == b@[k],
        decreases av@.len() - i,
    {
        if av[i] != bv[i] {
            return false;
        }
        i = i + 1;
    }
    assert(a@ =~= b@);
    true
}

/// Whether `w` occurs in `s` as a whole whitespace-delimited word at `i`.
pub open spec fn is_word_at(s: Seq<char>, w: Seq<char>, i: int) -> bool {
    &&& occurs_at(s, w, i)
    &&& (i == 0 || is_ws(s[i - 1]))
    &&& (i + w.len() == s.len() || is_ws(s[i + w.len()]))
}

/// Whether `w` is one of the words of `s`. For a non-empty `w` without
/// whitespace this is whether `s.split_whitespace()` yields `w`.
pub open spec fn has_word(s: Seq<char>, w: Seq<char>) -> bool {
    exists|i: int| is_word_at(s, w, i)
}

/// Whether `w` is a whitespace-delimited word of `s`.
pub fn contains_word(s: &str, w: &str) -> (b: bool)
    ensures
        b == has_word(s@, w@),
{
    let h = chars_of(s);
    let n = chars_of(w);
    if n.len() > h.len() {
        return false;
    }
    let last = h.len() - n.len();
    let hl = h.len();
    let mut i: usize = 0;
    loop
        invariant
            h@ == s@,
            n@ == w@,
            hl == h@.len(),
            last == h@.len() - n@.len(),
            n@.len() <= h@.len(),
            i <= last,
            forall|k: int| 0 <= k < i ==> !is_word_at(s@, w@, k),
        decreases last - i,
    {
        let here = occurs_at_exec(&h, &n, i);
        let before_ok = i == 0 || is_whitespace(h[i - 1]);
        let after_ok = if i == last {
            true
        } else {
            let j: usize = i + n.len();
            is_whitespace(h[j])
        };
        if here && before_ok && after_ok {
            assert(is_word_at(s@, w@, i as int));
            return true;
        }
        if i == last {
            assert forall|k: int| !is_word_at(s@, w@, k) by {
                if 0 <= k && k < i {
                } else if k == i {
                }
            }
            return false;
        }
        i = i + 1;
    }
}

/// `line` without one trailing carriage return.
pub open spec fn strip_cr(line: Seq<char>) -> Seq<char> {
    if line.len() > 0 && line.last() == '\r' {
        line.drop_last()
    } else {
        line
    }
}

/// The lines of `cur + s`, where `cur` is the unterminated start of the current line.
pub open spec fn lines_from(s: Seq<char>, cur: Seq<char>) -> Seq<Seq<char>>
    decreases s.len(),
{
    if s.len() == 0 {
        if cur.len() == 0 {
            seq![]
        } else {
            seq![cur]
        }
    } else if s[0] == '\n' {
        seq![strip_cr(cur)] + lines_from(s.drop_first(), seq![])
    } else {
        lines_from(s.drop_first(), cur.push(s[0]))
    }
}

/// The lines of `s` as `str::lines` yields them: split at `\n`, a `\r` right
/// before a `\n` dropped, and no empty line after a final `\n`.
pub open spec fn lines_spec(s: Seq<char>) -> Seq<Seq<char>> {
    lines_from(s, seq![])
}

/// Splits `s` into lines, as `str::lines` does.
pub fn lines(s: &str) -> (r: Vec<String>)
    ensures
        r.deep_view() == lines_spec(s@),
{
    let v = chars_of(s);
    let n = v.len();
    let mut acc: Vec<String> = Vec::new();
    let mut start: usize = 0;
    let mut i: usize = 0;
    assert(s@.skip(0) =~= s@);
    assert(s@.subrange(0, 0) =~= Seq::<char>::empty());
    while i < n
        invariant
            v@ == s@,
            n == v.len(),
            start <= i <= n,
            lines_spec(s@) == acc.deep_view() + lines_from(
                s@.skip(i as int),
                s@.subrange(start as int, i as int),
            ),
        decreases n - i,
    {
        let ghost cur = s@.subrange(start as int, i as int);
        let ghost old_acc = acc.deep_view();
        assert(s@.skip(i as int).drop_first() =~= s@.skip(i + 1));
        if v[i] == '\n' {
            let end = if i > start && v[i - 1] == '\r' {
                i - 1
            } else {
                i
            };
            let line = String::from_str(s.substring_char(start, end));
            assert(line@ =~= strip_cr(cur));
            acc.push(line);
            assert(acc.deep_view() =~= old_acc.push(strip_cr(cur)));
            start = i + 1;
            assert(s@.subrange(start as int, i + 1) =~= Seq::<char>::empty());
            assert(old_acc + (seq![strip_cr(cur)] + lines_from(s@.skip(i + 1), seq![]))
                =~= old_acc.push(strip_cr(cur)) + lines_from(s@.skip(i + 1), seq![]));
        } else {
            assert(cur.push(s@[i as int]) =~= s@.subrange(start as int, i + 1));
        }
        i = i + 1;
    }
    if start < n {
        let ghost old_acc = acc.deep_view();
        let line = String::from_str(s.substring_char(start, n));
        acc.push(line);
        assert(acc.deep_view() =~= old_acc.push(s@.subrange(start as int, n as int)));
    }
    assert(acc.deep_view() =~= acc.deep_view() + Seq::<Seq<char>>::empty());
    acc
}

} // verus!
