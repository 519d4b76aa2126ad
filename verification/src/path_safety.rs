//! Path checks that keep per-user file access inside the user's root directory.
//!
//! Paths are Unix paths held as strings. Their meaning is given by
//! [`components_spec`], the component sequence that `std::path::Path::components`
//! yields on Unix, with each component written as text: the root directory as
//! `/`, a leading current-directory marker as `.`, a parent reference as `..`,
//! and any other component as its name (which is never empty, `.`, `..`, and
//! holds no `/`).
use vstd::prelude::*;

verus! {

/// Why a path was refused.
#[derive(Debug)]
pub enum PathError {
    /// The path has the wrong shape (`std::io::ErrorKind::InvalidInput`).
    InvalidInput { message: String },
    /// The path leaves the allowed directory (`std::io::ErrorKind::PermissionDenied`).
    PermissionDenied { message: String },
}

/// The text of the root-directory component.
pub open spec fn root_text() -> Seq<char> {
    seq!['/']
}

/// The text of the current-directory component.
pub open spec fn cur_dir_text() -> Seq<char> {
    seq!['.']
}

/// The text of the parent-directory component.
pub open spec fn parent_dir_text() -> Seq<char> {
    seq!['.', '.']
}

/// The components that one `/`-separated piece contributes: none for an
/// empty piece or `.`, else the piece itself.
pub open spec fn keep_piece(p: Seq<char>) -> Seq<Seq<char>> {
    if p.len() == 0 || p == cur_dir_text() {
        seq![]
    } else {
        seq![p]
    }
}

/// The non-root components of `cur + s`, where `cur` is the unterminated current piece.
pub open spec fn pieces_from(s: Seq<char>, cur: Seq<char>) -> Seq<Seq<char>>
    decreases s.len(),
{
    if s.len() == 0 {
        keep_piece(cur)
    } else if s[0] == '/' {
        keep_piece(cur) + pieces_from(s.drop_first(), seq![])
    } else {
        pieces_from(s.drop_first(), cur.push(s[0]))
    }
}

/// Whether `s` starts at the root directory.
pub open spec fn is_rooted(s: Seq<char>) -> bool {
    s.len() > 0 && s[0] == '/'
}

/// Whether `s` starts with a current-directory marker that `Path::components` keeps.
pub open spec fn has_leading_cur_dir(s: Seq<char>) -> bool {
    s == cur_dir_text() || (s.len() >= 2 && s[0] == '.' && s[1] == '/')
}

/// The components of the Unix path `s`, as `Path::components` yields them.
pub open spec fn components_spec(s: Seq<char>) -> Seq<Seq<char>> {
    (if is_rooted(s) {
        seq![root_text()]
    } else {
        seq![]
    }) + (if has_leading_cur_dir(s) {
        seq![cur_dir_text()]
    } else {
        seq![]
    }) + pieces_from(s, seq![])
}

/// Whether a component is a plain name (`Component::Normal`).
pub open spec fn is_normal_component(c: Seq<char>) -> bool {
    c != root_text() && c != cur_dir_text() && c != parent_dir_text()
}

/// Whether `s` is exactly one plain name: not empty, not `.` or `..`, not
/// rooted, and without a second component.
pub open spec fn is_single_normal_component(s: Seq<char>) -> bool {
    components_spec(s).len() == 1 && is_normal_component(components_spec(s)[0])
}

/// The message of the error that refuses a route parameter.
pub open spec fn component_error_message(label: Seq<char>) -> Seq<char> {
    label + " must be a single non-special path component"@
}

/// `base` joined with `child`, as `Path::join` does on Unix: an absolute
/// `child` replaces `base`; else a `/` is put between them when `base` is not
/// empty and does not already end with one.
pub open spec fn join_spec(base: Seq<char>, child: Seq<char>) -> Seq<char> {
    if is_rooted(child) {
        child
    } else if base.len() > 0 && base.last() != '/' {
        base + seq!['/'] + child
    } else {
        base + child
    }
}

/// Whether the components of `prefix` begin the components of `path`
/// (`Path::starts_with`).
pub open spec fn path_starts_with_spec(path: Seq<char>, prefix: Seq<char>) -> bool {
    let p = components_spec(path);
    let q = components_spec(prefix);
    q.len() <= p.len() && p.take(q.len() as int) == q
}

/// The path written from a component sequence: the root, then the other
/// components joined by `/`.
pub open spec fn render_components(cs: Seq<Seq<char>>) -> Seq<char> {
    if cs.len() > 0 && cs[0] == root_text() {
        root_text() + join_with_slash(cs.drop_first())
    } else {
        join_with_slash(cs)
    }
}

/// The components joined by `/`.
pub open spec fn join_with_slash(cs: Seq<Seq<char>>) -> Seq<char>
    decreases cs.len(),
{
    if cs.len() == 0 {
        seq![]
    } else if cs.len() == 1 {
        cs[0]
    } else {
        join_with_slash(cs.drop_last()) + seq!['/'] + cs.last()
    }
}

/// The parent of `path` (`Path::parent`): none when `path` has no component
/// or ends at the root, else the path of all components but the last.
pub open spec fn parent_spec(path: Seq<char>) -> Option<Seq<char>> {
    let cs = components_spec(path);
    if cs.len() == 0 || cs.last() == root_text() {
        None
    } else {
        Some(render_components(cs.drop_last()))
    }
}

/// Splits a Unix path into its components, as `Path::components` does.
pub fn path_components(s: &str) -> (r: Vec<String>)
    ensures
        r.deep_view() == components_spec(s@),
{
    let v = crate::text::chars_of(s);
    let n = v.len();
    let mut acc: Vec<String> = Vec::new();
    let ghost s0 = s@;
    if n > 0 && v[0] == '/' {
        proof { reveal_strlit("/"); }
        acc.push(String::from_str("/"));
        assert("/"@ =~= root_text());
        assert(!has_leading_cur_dir(s@));
    } else if (n == 1 && v[0] == '.') || (n >= 2 && v[0] == '.' && v[1] == '/') {
        proof { reveal_strlit("."); }
        acc.push(String::from_str("."));
        assert("."@ =~= cur_dir_text());
        assert(n == 1 ==> s@ =~= cur_dir_text());
    } else {
        assert(s@ == cur_dir_text() ==> s@.len() == 1 && s@[0] == '.');
    }
    assert(acc.deep_view() =~= (if is_rooted(s@) {
        seq![root_text()]
    } else {
        seq![]
    }) + (if has_leading_cur_dir(s@) {
        seq![cur_dir_text()]
    } else {
        seq![]
    }));
    let mut start: usize = 0;
    let mut i: usize = 0;
    assert(s@.skip(0) =~= s@);
    assert(s@.subrange(0, 0) =~= Seq::<char>::empty());
    while i < n
        invariant
            v@ == s@,
            n == v.len(),
            start <= i <= n,
            components_spec(s@) == acc.deep_view() + pieces_from(
                s@.skip(i as int),
                s@.subrange(start as int, i as int),
            ),
        decreases n - i,
    {
        let ghost cur = s@.subrange(start as int, i as int);
        let ghost old_acc = acc.deep_view();
        assert(s@.skip(i as int).drop_first() =~= s@.skip(i + 1));
        if v[i] == '/' {
            if i > start && !(i - start == 1 && v[start] == '.') {
                let piece = String::from_str(s.substring_char(start, i));
                assert(cur.len() == i - start);
                proof {
                    if cur == cur_dir_text() {
                        assert(cur[0] == v@[start as int]);
                    }
                }
                acc.push(piece);
                assert(acc.deep_view() =~= old_acc + keep_piece(cur));
            } else {
                assert(cur.len() == 1 ==> cur =~= cur_dir_text());
                assert(keep_piece(cur) =~= Seq::<Seq<char>>::empty());
                assert(acc.deep_view() =~= old_acc + keep_piece(cur));
            }
            start = i + 1;
            assert(s@.subrange(start as int, i + 1) =~= Seq::<char>::empty());
            assert(old_acc + (keep_piece(cur) + pieces_from(s@.skip(i + 1), seq![])) =~= (old_acc
                + keep_piece(cur)) + pieces_from(s@.skip(i + 1), seq![]));
        } else {
            assert(cur.push(s@[i as int]) =~= s@.subrange(start as int, i + 1));
        }
        i = i + 1;
    }
    let ghost cur = s@.subrange(start as int, n as int);
    let ghost old_acc = acc.deep_view();
    if n > start && !(n - start == 1 && v[start] == '.') {
        let piece = String::from_str(s.substring_char(start, n));
        assert(cur.len() == n - start);
        proof {
            if cur == cur_dir_text() {
                assert(cur[0] == v@[start as int]);
            }
        }
        acc.push(piece);
        assert(acc.deep_view() =~= old_acc + keep_piece(cur));
    } else {
        assert(cur.len() == 1 ==> cur =~= cur_dir_text());
        assert(keep_piece(cur) =~= Seq::<Seq<char>>::empty());
        assert(acc.deep_view() =~= old_acc + keep_piece(cur));
    }
    acc
}

/// Whether the component text `c` is a plain name.
fn is_normal_component_text(c: &str) -> (b: bool)
    ensures
        b == is_normal_component(c@),
{
    let v = crate::text::chars_of(c);
    if v.len() == 1 && (v[0] == '/' || v[0] == '.') {
        assert(v@ =~= root_text() || v@ =~= cur_dir_text());
        false
    } else if v.len() == 2 && v[0] == '.' && v[1] == '.' {
        assert(v@ =~= parent_dir_text());
        false
    } else {
        proof {
            if v@ == root_text() || v@ == cur_dir_text() {
                assert(v@[0] == '/' || v@[0] == '.');
            }
            if v@ == parent_dir_text() {
                assert(v@[0] == '.' && v@[1] == '.');
            }
        }
        true
    }
}

/// Accepts `component` only if it is exactly one plain path name, so that a
/// route parameter can neither name the user's root itself (`.`), climb out of
/// it (`..`), reach into nested directories (`a/b`) nor start at the
/// filesystem root. `label` names the parameter in the error message.
pub fn validate_path_component(component: &str, label: &str) -> (r: Result<(), PathError>)
    ensures
        r is Ok <==> is_single_normal_component(component@),
        r matches Err(e) ==> (e matches PathError::InvalidInput { message } && message@
            == component_error_message(label@)),
{
    let comps = path_components(component);
    if comps.len() == 1 && is_normal_component_text(comps[0].as_str()) {
        Ok(())
    } else {
        let mut message = String::from_str(label);
        message.append(" must be a single non-special path component");
        Err(PathError::InvalidInput { message })
    }
}

/// Joins `child` onto `base`, as `Path::join` does on Unix.
pub fn path_join(base: &str, child: &str) -> (r: String)
    ensures
        r@ == join_spec(base@, child@),
{
    let b = crate::text::chars_of(base);
    let c = crate::text::chars_of(child);
    if c.len() > 0 && c[0] == '/' {
        String::from_str(child)
    } else if b.len() > 0 && b[b.len() - 1] != '/' {
        let mut r = String::from_str(base);
        proof { reveal_strlit("/"); }
        r.append("/");
        assert("/"@ =~= seq!['/']);
        r.append(child);
        r
    } else {
        let mut r = String::from_str(base);
        r.append(child);
        r
    }
}

/// Validates `component` (see [`validate_path_component`]) and only then
/// joins it onto `base`, so that callers never treat the user root itself as
/// a camera directory.
pub fn join_validated_child(base: &str, component: &str, label: &str) -> (r: Result<
    String,
    PathError,
>)
    ensures
        r is Ok <==> is_single_normal_component(component@),
        r matches Ok(p) ==> p@ == join_spec(base@, component@),
        r matches Err(e) ==> (e matches PathError::InvalidInput { message } && message@
            == component_error_message(label@)),
{
    match validate_path_component(component, label) {
        Ok(()) => Ok(path_join(base, component)),
        Err(e) => Err(e),
    }
}

/// Whether the components of `prefix` begin those of `path`, as `Path::starts_with` does.
pub fn path_starts_with(path: &str, prefix: &str) -> (b: bool)
    ensures
        b == path_starts_with_spec(path@, prefix@),
{
    let p = path_components(path);
    let q = path_components(prefix);
    if q.len() > p.len() {
        return false;
    }
    let mut i: usize = 0;
    while i < q.len()
        invariant
            p.deep_view() == components_spec(path@),
            q.deep_view() == components_spec(prefix@),
            q.len() <= p.len(),
            i <= q.len(),
            forall|k: int| 0 <= k < i ==> p.deep_view()[k] == q.deep_view()[k],
        decreases q.len() - i,
    {
        if p[i] != q[i] {
            assert(p.deep_view().take(q.len() as int)[i as int] != q.deep_view()[i as int]);
            return false;
        }
        i = i + 1;
    }
    assert(p.deep_view().take(q.len() as int) =~= q.deep_view());
    true
}

/// Whether the component text `c` is the root directory `/`.
fn is_root_component_text(c: &str) -> (b: bool)
    ensures
        b == (c@ == root_text()),
{
    let v = crate::text::chars_of(c);
    proof {
        if v@ == root_text() {
            assert(v@[0] == '/');
        }
    }
    let b = v.len() == 1 && v[0] == '/';
    if b {
        assert(v@ =~= root_text());
    }
    b
}

/// Writes the path of a component sequence (see [`render_components`]).
fn render_path(cs: &Vec<String>) -> (r: String)
    ensures
        r@ == render_components(cs.deep_view()),
{
    let ghost d = cs.deep_view();
    let mut r = String::new();
    let mut k: usize = 0;
    proof { reveal_strlit("/"); }
    assert("/"@ =~= root_text());
    if cs.len() > 0 && is_root_component_text(cs[0].as_str()) {
        r.append("/");
        k = 1;
    }
    let first = k;
    let ghost rest = if first == 1 {
        d.drop_first()
    } else {
        d
    };
    assert(rest =~= d.subrange(first as int, d.len() as int));
    assert(rest.take(0) =~= Seq::<Seq<char>>::empty());
    let ghost lead = r@;
    while k < cs.len()
        invariant
            d == cs.deep_view(),
            first <= k <= cs.len(),
            first <= 1,
            "/"@ == seq!['/'],
            rest =~= d.subrange(first as int, d.len() as int),
            r@ == lead + join_with_slash(rest.take(k - first)),
        decreases cs.len() - k,
    {
        let ghost before = rest.take(k - first);
        assert(rest.take(k - first + 1).drop_last() =~= before);
        assert(rest.take(k - first + 1).last() == d[k as int]);
        assert(d[k as int] == cs@[k as int]@);
        if k > first {
            r.append("/");
        }
        r.append(cs[k].as_str());
        assert(r@ =~= lead + join_with_slash(rest.take(k - first + 1)));
        k = k + 1;
    }
    assert(rest.take(cs.len() - first) =~= rest);
    r
}

/// The parent of `path`, as `Path::parent` does on Unix (see [`parent_spec`]).
pub fn parent_path(path: &str) -> (r: Option<String>)
    ensures
        match r {
            Some(p) => parent_spec(path@) == Some(p@),
            None => parent_spec(path@) is None,
        },
{
    let mut cs = path_components(path);
    if cs.len() == 0 {
        return None;
    }
    if is_root_component_text(cs[cs.len() - 1].as_str()) {
        return None;
    }
    let ghost before = cs.deep_view();
    cs.pop();
    assert(cs.deep_view() =~= before.drop_last());
    Some(render_path(&cs))
}

/// One step of the walk from a target path up to its nearest existing
/// ancestor: the parent of `current`, or an error when it has none.
pub fn sandbox_walk_parent(current: &str) -> (r: Result<String, PathError>)
    ensures
        match r {
            Ok(p) => parent_spec(current@) == Some(p@),
            Err(e) => parent_spec(current@) is None && (e matches PathError::InvalidInput {
                message,
            } && message@ == "No valid parent for target path"@),
        },
{
    match parent_path(current) {
        Some(p) => Ok(p),
        None => Err(
            PathError::InvalidInput { message: String::from_str("No valid parent for target path") },
        ),
    }
}

/// The final decision of the sandbox check: `canonical_check` (the
/// canonical form of the target's nearest existing ancestor) must lie under
/// `canonical_base` (the canonical form of the allowed directory).
pub fn check_path_sandboxed(canonical_base: &str, canonical_check: &str) -> (r: Result<
    (),
    PathError,
>)
    ensures
        r is Ok <==> path_starts_with_spec(canonical_check@, canonical_base@),
        r matches Err(e) ==> (e matches PathError::PermissionDenied { message } && message@
            == "Access outside allowed directory"@),
{
    if path_starts_with(canonical_check, canonical_base) {
        Ok(())
    } else {
        Err(
            PathError::PermissionDenied {
                message: String::from_str("Access outside allowed directory"),
            },
        )
    }
}

/// Splitting at a `/` splits the component pieces.
proof fn lemma_pieces_split(x: Seq<char>, y: Seq<char>, cur: Seq<char>)
    ensures
        pieces_from(x + seq!['/'] + y, cur) == pieces_from(x, cur) + pieces_from(y, seq![]),
    decreases x.len(),
{
    let whole = x + seq!['/'] + y;
    if x.len() == 0 {
        assert(whole.drop_first() =~= y);
        assert(whole[0] == '/');
    } else {
        assert(whole.drop_first() =~= x.drop_first() + seq!['/'] + y);
        assert(whole[0] == x[0]);
        if x[0] == '/' {
            lemma_pieces_split(x.drop_first(), y, seq![]);
            assert(keep_piece(cur) + (pieces_from(x.drop_first(), seq![]) + pieces_from(
                y,
                seq![],
            )) =~= (keep_piece(cur) + pieces_from(x.drop_first(), seq![])) + pieces_from(
                y,
                seq![],
            ));
        } else {
            lemma_pieces_split(x.drop_first(), y, cur.push(x[0]));
        }
    }
}

/// A single plain name has itself as its only component piece.
proof fn lemma_single_name_components(c: Seq<char>)
    requires
        is_single_normal_component(c),
    ensures
        !is_rooted(c),
        !has_leading_cur_dir(c),
        components_spec(c) == pieces_from(c, seq![]),
{
    if is_rooted(c) {
        assert(components_spec(c)[0] == root_text());
    }
    if has_leading_cur_dir(c) {
        assert(components_spec(c)[0] == cur_dir_text());
    }
    assert(components_spec(c) =~= pieces_from(c, seq![]));
}

/// Joining a validated route parameter onto a directory never leaves that
/// directory: the joined path has exactly the directory's components
/// followed by the one plain name, so it starts with the directory and is
/// never the directory itself.
pub proof fn law_join_stays_under_base(base: Seq<char>, child: Seq<char>)
    requires
        is_single_normal_component(child),
    ensures
        components_spec(join_spec(base, child)) == components_spec(base) + components_spec(child),
        components_spec(join_spec(base, child)).len() == components_spec(base).len() + 1,
        is_normal_component(components_spec(join_spec(base, child)).last()),
        path_starts_with_spec(join_spec(base, child), base),
        !path_starts_with_spec(base, join_spec(base, child)),
{
    lemma_single_name_components(child);
    let j = join_spec(base, child);
    let e = Seq::<char>::empty();
    if base.len() == 0 {
        assert(j =~= child);
        assert(!is_rooted(base) && !has_leading_cur_dir(base));
        assert(pieces_from(base, seq![]) =~= Seq::<Seq<char>>::empty());
        assert(components_spec(base) =~= Seq::<Seq<char>>::empty());
    } else if base.last() != '/' {
        assert(j == base + seq!['/'] + child);
        lemma_pieces_split(base, child, seq![]);
        assert(is_rooted(j) == is_rooted(base));
        assert(j[0] == base[0]);
        if base.len() >= 2 {
            assert(j[1] == base[1]);
        } else {
            assert(j[1] == '/');
        }
        assert(j.len() >= 3);
        assert(has_leading_cur_dir(j) == has_leading_cur_dir(base)) by {
            if base.len() == 1 && base[0] == '.' {
                assert(base =~= cur_dir_text());
            }
            if base == cur_dir_text() {
                assert(base[0] == '.');
            }
        }
        assert(components_spec(j) =~= components_spec(base) + components_spec(child));
    } else {
        let x = base.drop_last();
        assert(base =~= x + seq!['/'] + e);
        assert(j =~= x + seq!['/'] + child);
        lemma_pieces_split(x, e, seq![]);
        lemma_pieces_split(x, child, seq![]);
        assert(pieces_from(e, seq![]) =~= Seq::<Seq<char>>::empty());
        assert(j[0] == base[0]);
        if base.len() >= 2 {
            assert(j[1] == base[1]);
        }
        assert(has_leading_cur_dir(j) == has_leading_cur_dir(base)) by {
            if base == cur_dir_text() {
                assert(base.last() == '.');
            }
            if j == cur_dir_text() {
                assert(j.len() == 1);
            }
        }
        assert(components_spec(j) =~= components_spec(base) + components_spec(child));
    }
    let cb = components_spec(base);
    let cj = components_spec(j);
    assert(cj.take(cb.len() as int) =~= cb);
}

/// Whether `p` holds no `/`.
pub open spec fn no_slash(p: Seq<char>) -> bool {
    forall|i: int| 0 <= i < p.len() ==> p[i] != '/'
}

/// Whether `p` is a non-root component piece: not empty, not `.`, no `/`.
pub open spec fn is_piece(p: Seq<char>) -> bool {
    p.len() > 0 && no_slash(p) && p != cur_dir_text()
}

/// The shape of every component sequence that [`components_spec`] yields:
/// pieces, except that the first may be the root or the current directory.
pub open spec fn well_formed_components(cs: Seq<Seq<char>>) -> bool {
    forall|i: int|
        0 <= i < cs.len() ==> is_piece(#[trigger] cs[i]) || (i == 0 && (cs[i] == root_text()
            || cs[i] == cur_dir_text()))
}

proof fn lemma_pieces_of_slash_free(s: Seq<char>, cur: Seq<char>)
    requires
        no_slash(s),
    ensures
        pieces_from(s, cur) == keep_piece(cur + s),
    decreases s.len(),
{
    if s.len() == 0 {
        assert(cur + s =~= cur);
    } else {
        assert(s[0] != '/');
        let rest = s.drop_first();
        assert(no_slash(rest)) by {
            assert forall|i: int| 0 <= i < rest.len() implies rest[i] != '/' by {
                assert(rest[i] == s[i + 1]);
            }
        }
        lemma_pieces_of_slash_free(rest, cur.push(s[0]));
        assert(cur.push(s[0]) + rest =~= cur + s);
    }
}

proof fn lemma_pieces_are_pieces(s: Seq<char>, cur: Seq<char>)
    requires
        no_slash(cur),
    ensures
        forall|i: int| 0 <= i < pieces_from(s, cur).len() ==> is_piece(#[trigger] pieces_from(s, cur)[i]),
    decreases s.len(),
{
    if s.len() == 0 {
        assert(pieces_from(s, cur) == keep_piece(cur));
        if cur.len() > 0 && cur != cur_dir_text() {
            assert(is_piece(cur));
            assert(keep_piece(cur)[0] == cur);
        }
    } else if s[0] == '/' {
        lemma_pieces_are_pieces(s.drop_first(), seq![]);
        let a = keep_piece(cur);
        let b = pieces_from(s.drop_first(), seq![]);
        assert(pieces_from(s, cur) == a + b);
        if cur.len() > 0 && cur != cur_dir_text() {
            assert(is_piece(cur));
            assert(a[0] == cur);
        }
        assert forall|i: int| 0 <= i < (a + b).len() implies is_piece(#[trigger] (a + b)[i]) by {
            if i >= a.len() {
                assert((a + b)[i] == b[i - a.len()]);
            }
        }
    } else {
        let c2 = cur.push(s[0]);
        assert(no_slash(c2)) by {
            assert forall|i: int| 0 <= i < c2.len() implies c2[i] != '/' by {
                if i < cur.len() {
                    assert(c2[i] == cur[i]);
                }
            }
        }
        lemma_pieces_are_pieces(s.drop_first(), c2);
        assert(pieces_from(s, cur) == pieces_from(s.drop_first(), c2));
    }
}

/// Every component sequence of a path is well formed.
proof fn lemma_components_well_formed(s: Seq<char>)
    ensures
        well_formed_components(components_spec(s)),
{
    lemma_pieces_are_pieces(s, seq![]);
    let pre = (if is_rooted(s) {
        seq![root_text()]
    } else {
        seq![]
    }) + (if has_leading_cur_dir(s) {
        seq![cur_dir_text()]
    } else {
        seq![]
    });
    let ps = pieces_from(s, seq![]);
    if is_rooted(s) {
        assert(!has_leading_cur_dir(s)) by {
            if s == cur_dir_text() {
                assert(s[0] == '.');
            }
        }
    }
    assert(pre.len() <= 1);
    let cs = components_spec(s);
    assert(cs == pre + ps);
    assert forall|i: int| 0 <= i < cs.len() implies is_piece(#[trigger] cs[i]) || (i == 0 && (
    cs[i] == root_text() || cs[i] == cur_dir_text())) by {
        if i >= pre.len() {
            assert(cs[i] == ps[i - pre.len()]);
        }
    }
}

proof fn lemma_join_split_first(xs: Seq<Seq<char>>)
    requires
        xs.len() >= 2,
    ensures
        join_with_slash(xs) == xs[0] + seq!['/'] + join_with_slash(xs.drop_first()),
    decreases xs.len(),
{
    let dl = xs.drop_last();
    let df = xs.drop_first();
    assert(join_with_slash(xs) == join_with_slash(dl) + seq!['/'] + xs.last());
    if xs.len() == 2 {
        assert(dl.len() == 1 && dl[0] == xs[0]);
        assert(join_with_slash(dl) == xs[0]);
        assert(df.len() == 1 && df[0] == xs[1]);
        assert(join_with_slash(df) == xs[1]);
    } else {
        lemma_join_split_first(dl);
        assert(dl.drop_first() =~= df.drop_last());
        assert(dl[0] == xs[0]);
        assert(df.last() == xs.last());
        assert(join_with_slash(df) == join_with_slash(df.drop_last()) + seq!['/'] + df.last());
        assert(join_with_slash(xs) =~= xs[0] + seq!['/'] + join_with_slash(df));
    }
}

proof fn lemma_pieces_of_join(xs: Seq<Seq<char>>)
    requires
        forall|i: int| 0 <= i < xs.len() ==> is_piece(#[trigger] xs[i]),
    ensures
        pieces_from(join_with_slash(xs), seq![]) == xs,
    decreases xs.len(),
{
    if xs.len() == 0 {
        assert(pieces_from(seq![], seq![]) =~= Seq::<Seq<char>>::empty());
    } else if xs.len() == 1 {
        assert(is_piece(xs[0]));
        lemma_pieces_of_slash_free(xs[0], seq![]);
        assert(Seq::<char>::empty() + xs[0] =~= xs[0]);
        assert(seq![xs[0]] =~= xs);
    } else {
        let front = xs.drop_last();
        assert forall|i: int| 0 <= i < front.len() implies is_piece(#[trigger] front[i]) by {
            assert(front[i] == xs[i]);
        }
        lemma_pieces_of_join(front);
        lemma_pieces_split(join_with_slash(front), xs.last(), seq![]);
        assert(is_piece(xs[xs.len() - 1]));
        lemma_pieces_of_slash_free(xs.last(), seq![]);
        assert(Seq::<char>::empty() + xs.last() =~= xs.last());
        assert(front + seq![xs.last()] =~= xs);
    }
}

/// Writing a well-formed component sequence as a path and splitting it again
/// gives the same components.
proof fn lemma_render_roundtrip(cs: Seq<Seq<char>>)
    requires
        well_formed_components(cs),
    ensures
        components_spec(render_components(cs)) == cs,
{
    let e = Seq::<char>::empty();
    if cs.len() == 0 {
        assert(render_components(cs) =~= e);
        assert(pieces_from(e, seq![]) =~= Seq::<Seq<char>>::empty());
        assert(components_spec(e) =~= cs);
        return;
    }
    let rest = cs.drop_first();
    assert forall|i: int| 0 <= i < rest.len() implies is_piece(#[trigger] rest[i]) by {
        assert(rest[i] == cs[i + 1]);
        assert(is_piece(cs[i + 1]) || (i + 1 == 0));
    }
    lemma_pieces_of_join(rest);
    if cs[0] == root_text() {
        let r = render_components(cs);
        assert(r == root_text() + join_with_slash(rest));
        assert(r =~= e + seq!['/'] + join_with_slash(rest));
        lemma_pieces_split(e, join_with_slash(rest), seq![]);
        assert(pieces_from(e, seq![]) =~= Seq::<Seq<char>>::empty());
        assert(r[0] == '/');
        assert(!has_leading_cur_dir(r)) by {
            if r == cur_dir_text() {
                assert(r[0] == '.');
            }
        }
        assert(components_spec(r) =~= seq![root_text()] + rest);
        assert(seq![root_text()] + rest =~= cs);
    } else if cs[0] == cur_dir_text() {
        let r = render_components(cs);
        assert(r == join_with_slash(cs));
        if cs.len() == 1 {
            assert(r == cur_dir_text());
            assert(!is_rooted(r));
            lemma_pieces_of_slash_free(r, seq![]);
            assert(e + r =~= r);
            assert(components_spec(r) =~= cs);
        } else {
            lemma_join_split_first(cs);
            assert(r =~= cur_dir_text() + seq!['/'] + join_with_slash(rest));
            lemma_pieces_split(cur_dir_text(), join_with_slash(rest), seq![]);
            lemma_pieces_of_slash_free(cur_dir_text(), seq![]);
            assert(e + cur_dir_text() =~= cur_dir_text());
            assert(r[0] == '.' && r[1] == '/');
            assert(components_spec(r) =~= seq![cur_dir_text()] + rest);
            assert(seq![cur_dir_text()] + rest =~= cs);
        }
    } else {
        assert(is_piece(cs[0]));
        assert forall|i: int| 0 <= i < cs.len() implies is_piece(#[trigger] cs[i]) by {
            if i > 0 {
                assert(cs[i] == rest[i - 1]);
            }
        }
        lemma_pieces_of_join(cs);
        let r = render_components(cs);
        assert(r == join_with_slash(cs));
        let first = cs[0];
        assert(first.len() > 0 && first[0] != '/');
        if cs.len() == 1 {
            assert(r == first);
        } else {
            lemma_join_split_first(cs);
            assert(r[0] == first[0]);
            if first.len() >= 2 {
                assert(r[1] == first[1]);
            } else {
                assert(r[1] == '/');
            }
        }
        assert(r[0] == first[0]);
        assert(!is_rooted(r));
        assert(!has_leading_cur_dir(r)) by {
            if r == cur_dir_text() {
                if cs.len() == 1 {
                    assert(first == cur_dir_text());
                } else {
                    assert(r.len() >= 3);
                }
            }
            if r.len() >= 2 && r[0] == '.' && r[1] == '/' {
                if first.len() >= 2 {
                    assert(first[1] != '/');
                } else {
                    assert(first =~= cur_dir_text());
                }
            }
        }
        assert(components_spec(r) =~= cs);
    }
}

/// The parent of a path has the path's components but the last, so the
/// walk from a target up to its nearest existing ancestor loses one
/// component per step and ends.
pub proof fn law_parent_drops_last_component(path: Seq<char>)
    requires
        parent_spec(path) is Some,
    ensures
        components_spec(parent_spec(path)->0) == components_spec(path).drop_last(),
        components_spec(parent_spec(path)->0).len() + 1 == components_spec(path).len(),
{
    let cs = components_spec(path);
    lemma_components_well_formed(path);
    let d = cs.drop_last();
    assert forall|i: int| 0 <= i < d.len() implies is_piece(#[trigger] d[i]) || (i == 0 && (d[i]
        == root_text() || d[i] == cur_dir_text())) by {
        assert(d[i] == cs[i]);
        assert(is_piece(cs[i]) || (i == 0 && (cs[i] == root_text() || cs[i] == cur_dir_text())));
    }
    lemma_render_roundtrip(d);
}

/// A route parameter that passes [`validate_path_component`] does not start
/// with `/`, has no `..` piece between its slashes, and joined onto any
/// directory names exactly one level below it: the joined path's parent is
/// the directory (component for component), and the joined path is never
/// the directory itself.
pub proof fn law_valid_component_is_one_level_below(base: Seq<char>, child: Seq<char>)
    requires
        is_single_normal_component(child),
    ensures
        !is_rooted(child),
        !pieces_from(child, seq![]).contains(parent_dir_text()),
        parent_spec(join_spec(base, child)) is Some,
        components_spec(parent_spec(join_spec(base, child))->0) == components_spec(base),
        components_spec(join_spec(base, child)) != components_spec(base),
{
    lemma_single_name_components(child);
    if pieces_from(child, seq![]).contains(parent_dir_text()) {
        let k = choose|k: int|
            0 <= k < pieces_from(child, seq![]).len() && pieces_from(child, seq![])[k]
                == parent_dir_text();
        assert(components_spec(child)[k] == parent_dir_text());
        assert(k == 0);
    }
    law_join_stays_under_base(base, child);
    let j = join_spec(base, child);
    let cs = components_spec(j);
    assert(cs.last() == components_spec(child)[0]);
    assert(cs.last() != root_text());
    law_parent_drops_last_component(j);
    assert(cs.drop_last() =~= components_spec(base));
    assert(cs.len() != components_spec(base).len());
}

} // verus!
