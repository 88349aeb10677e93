//! Firmware path resolution: splitting a source path into the prefix written to the
//! firmware search-path register and the suffix handed to the loading write.
//!
//! Paths are compared by their components, as `std::path::Path` does on Unix: a
//! leading `/` is the root; the segments between separators follow, where empty
//! segments and `.` segments are dropped, but for a `.` that begins a relative path.

use vstd::prelude::*;

use crate::error::FpgadError;
use crate::text::{concat2, concat3, contains, str_eq, views};

verus! {

/// Index of the last `/` in `s`, or -1 when there is none.
pub open spec fn last_sep(s: Seq<char>) -> int
    decreases s.len(),
{
    if s.len() == 0 {
        -1
    } else if s.last() == '/' {
        s.len() - 1
    } else {
        last_sep(s.drop_last())
    }
}

pub open spec fn no_sep(s: Seq<char>) -> bool {
    forall|k: int| 0 <= k < s.len() ==> s[k] != '/'
}

/// A segment that is a component wherever it stands: not empty and not `.`.
pub open spec fn is_inner_component(s: Seq<char>) -> bool {
    s.len() > 0 && s != seq!['.']
}

pub open spec fn is_rooted(p: Seq<char>) -> bool {
    p.len() > 0 && p[0] == '/'
}

proof fn lemma_last_sep_bounds(p: Seq<char>)
    ensures
        -1 <= last_sep(p) < p.len(),
        last_sep(p) >= 0 ==> p[last_sep(p)] == '/',
        forall|k: int| last_sep(p) < k < p.len() ==> p[k] != '/',
    decreases p.len(),
{
    if p.len() > 0 && p.last() != '/' {
        lemma_last_sep_bounds(p.drop_last());
        assert forall|k: int| last_sep(p) < k < p.len() implies p[k] != '/' by {
            if k < p.len() - 1 {
                assert(p.drop_last()[k] == p[k]);
            }
        }
    }
}

#[via_fn]
proof fn components_decreases(p: Seq<char>) {
    lemma_last_sep_bounds(p);
}

/// The components of `p` other than the root.
pub open spec fn components(p: Seq<char>) -> Seq<Seq<char>>
    decreases p.len() via components_decreases
{
    let i = last_sep(p);
    if i < 0 {
        if p.len() > 0 {
            seq![p]
        } else {
            Seq::empty()
        }
    } else {
        let seg = p.subrange(i + 1, p.len() as int);
        let before = components(p.subrange(0, i));
        if is_inner_component(seg) {
            before.push(seg)
        } else {
            before
        }
    }
}

/// The root, written `/`, followed by the components.
pub open spec fn full_components(p: Seq<char>) -> Seq<Seq<char>> {
    if is_rooted(p) {
        seq![seq!['/']] + components(p)
    } else {
        components(p)
    }
}

/// The segments `cs` with a separator between each two.
pub open spec fn join_segments(cs: Seq<Seq<char>>) -> Seq<char>
    decreases cs.len(),
{
    if cs.len() == 0 {
        Seq::empty()
    } else if cs.len() == 1 {
        cs[0]
    } else {
        join_segments(cs.drop_last()) + seq!['/'] + cs.last()
    }
}

/// The path made of the root, if `rooted`, and the components `cs`.
pub open spec fn render(rooted: bool, cs: Seq<Seq<char>>) -> Seq<char> {
    if rooted {
        seq!['/'] + join_segments(cs)
    } else {
        join_segments(cs)
    }
}

/// The last component of a path, if it names a file or directory.
pub open spec fn file_name(p: Seq<char>) -> Option<Seq<char>> {
    let c = components(p);
    if c.len() > 0 && c.last() != seq!['.'] && c.last() != seq!['.', '.'] {
        Some(c.last())
    } else {
        None
    }
}

/// The path without its last component; none for an empty path or the root alone.
pub open spec fn parent(p: Seq<char>) -> Option<Seq<char>> {
    let c = components(p);
    if c.len() == 0 {
        None
    } else {
        Some(render(is_rooted(p), c.drop_last()))
    }
}

/// The components of `prefix`, root included, begin those of `source`.
pub open spec fn starts_with_path(source: Seq<char>, prefix: Seq<char>) -> bool {
    let s = full_components(source);
    let q = full_components(prefix);
    q.len() <= s.len() && s.subrange(0, q.len() as int) == q
}

/// The components of `rel`, root included, end those of `p`.
pub open spec fn ends_with_path(p: Seq<char>, rel: Seq<char>) -> bool {
    let s = full_components(p);
    let q = full_components(rel);
    q.len() <= s.len() && s.subrange(s.len() - q.len(), s.len() as int) == q
}

/// The components of `source` that follow those of `prefix`.
pub open spec fn path_remainder(source: Seq<char>, prefix: Seq<char>) -> Seq<Seq<char>> {
    full_components(source).subrange(
        full_components(prefix).len() as int,
        full_components(source).len() as int,
    )
}

/// The (search prefix, relative suffix) pair for `source` and an override `prefix`;
/// none where the pair cannot be formed.
pub open spec fn firmware_pair(source: Seq<char>, prefix: Seq<char>) -> Option<
    (Seq<char>, Seq<char>),
> {
    if prefix.len() == 0 {
        match (parent(source), file_name(source)) {
            (Some(d), Some(n)) => Some((d, n)),
            _ => None,
        }
    } else if starts_with_path(source, prefix) && path_remainder(source, prefix).len() > 0 {
        Some((prefix, join_segments(path_remainder(source, prefix))))
    } else {
        None
    }
}

/// `suffix` appended to `prefix`, with one separator between them.
pub open spec fn join_path(prefix: Seq<char>, suffix: Seq<char>) -> Seq<char> {
    if prefix.len() == 0 || prefix.last() == '/' {
        prefix + suffix
    } else {
        prefix + seq!['/'] + suffix
    }
}

fn last_sep_index(s: &str) -> (r: Option<usize>)
    ensures
        match r {
            Some(i) => i as int == last_sep(s@) && i < s@.len(),
            None => last_sep(s@) == -1,
        },
{
    let n = s.unicode_len();
    let mut j: usize = n;
    assert(s@.subrange(0, n as int) =~= s@);
    while j > 0
        invariant
            j <= n,
            n == s@.len(),
            last_sep(s@.subrange(0, j as int)) == last_sep(s@),
        decreases j,
    {
        let ghost p = s@.subrange(0, j as int);
        assert(p.last() == s@[j - 1]);
        if s.get_char(j - 1) == '/' {
            return Some(j - 1);
        }
        assert(p.drop_last() =~= s@.subrange(0, j - 1));
        j = j - 1;
    }
    None
}

fn is_dot(s: &str) -> (r: bool)
    ensures
        r == (s@ == seq!['.']),
{
    let r = str_eq(s, ".");
    proof {
        reveal_strlit(".");
        assert("."@ =~= seq!['.']);
    }
    r
}

fn is_dot_dot(s: &str) -> (r: bool)
    ensures
        r == (s@ == seq!['.', '.']),
{
    let r = str_eq(s, "..");
    proof {
        reveal_strlit("..");
        assert(".."@ =~= seq!['.', '.']);
    }
    r
}

/// The components of `p`, root aside.
pub fn path_components(p: &str) -> (r: Vec<String>)
    ensures
        views(r@) == components(p@),
    decreases p@.len(),
{
    let n = p.unicode_len();
    match last_sep_index(p) {
        None => {
            let mut v: Vec<String> = Vec::new();
            if n > 0 {
                v.push(String::from_str(p));
            }
            assert(views(v@) =~= components(p@));
            v
        },
        Some(i) => {
            let mut v = path_components(p.substring_char(0, i));
            let seg = p.substring_char(i + 1, n);
            let ghost before = views(v@);
            if seg.unicode_len() > 0 && !is_dot(seg) {
                v.push(String::from_str(seg));
                assert(views(v@) =~= before.push(seg@));
            }
            v
        },
    }
}

/// The components of `p`, the root written `/` first.
pub fn path_full_components(p: &str) -> (r: Vec<String>)
    ensures
        views(r@) == full_components(p@),
{
    let c = path_components(p);
    if p.unicode_len() > 0 && p.get_char(0) == '/' {
        let mut v: Vec<String> = Vec::new();
        v.push(String::from_str("/"));
        proof {
            reveal_strlit("/");
            assert("/"@ =~= seq!['/']);
            assert(views(v@) =~= seq![seq!['/']] + views(c@).subrange(0, 0));
        }
        let mut k: usize = 0;
        while k < c.len()
            invariant
                k <= c.len(),
                views(v@) =~= seq![seq!['/']] + views(c@).subrange(0, k as int),
            decreases c.len() - k,
        {
            let ghost prev = views(v@);
            v.push(c[k].clone());
            assert(views(v@) =~= prev.push(c@[k as int]@));
            k = k + 1;
            assert(views(v@) =~= seq![seq!['/']] + views(c@).subrange(0, k as int));
        }
        assert(views(c@).subrange(0, c@.len() as int) =~= views(c@));
        v
    } else {
        c
    }
}

/// The segments `cs[from..to]` joined with separators.
fn join_range(cs: &Vec<String>, from: usize, to: usize) -> (r: String)
    requires
        from <= to <= cs@.len(),
    ensures
        r@ == join_segments(views(cs@).subrange(from as int, to as int)),
{
    let mut out = String::new();
    let mut k: usize = from;
    while k < to
        invariant
            from <= k <= to <= cs@.len(),
            out@ == join_segments(views(cs@).subrange(from as int, k as int)),
        decreases to - k,
    {
        let ghost next = views(cs@).subrange(from as int, k + 1);
        assert(next.drop_last() =~= views(cs@).subrange(from as int, k as int));
        if k > from {
            out.append("/");
            proof {
                reveal_strlit("/");
            }
        }
        out.append(cs[k].as_str());
        proof {
            if k == from {
                assert(out@ =~= join_segments(next));
            } else {
                assert(out@ =~= join_segments(next));
            }
        }
        k = k + 1;
    }
    out
}

/// Whether the strings of `b` begin `a`.
fn begins_with(a: &Vec<String>, b: &Vec<String>) -> (r: bool)
    ensures
        r == (views(b@).len() <= views(a@).len() && views(a@).subrange(0, b@.len() as int)
            == views(b@)),
{
    if b.len() > a.len() {
        return false;
    }
    let mut k: usize = 0;
    while k < b.len()
        invariant
            b@.len() <= a@.len(),
            k <= b@.len(),
            forall|j: int| 0 <= j < k ==> a@[j]@ == b@[j]@,
        decreases b.len() - k,
    {
        if !str_eq(a[k].as_str(), b[k].as_str()) {
            assert(views(a@).subrange(0, b@.len() as int)[k as int] != views(b@)[k as int]);
            return false;
        }
        k = k + 1;
    }
    assert(views(a@).subrange(0, b@.len() as int) =~= views(b@));
    true
}

/// Whether the strings of `b` end `a`.
fn ends_with_strings(a: &Vec<String>, b: &Vec<String>) -> (r: bool)
    ensures
        r == (views(b@).len() <= views(a@).len() && views(a@).subrange(
            a@.len() - b@.len(),
            a@.len() as int,
        ) == views(b@)),
{
    if b.len() > a.len() {
        return false;
    }
    let n = a.len();
    let off = n - b.len();
    let mut k: usize = 0;
    while k < b.len()
        invariant
            n == a@.len(),
            b@.len() <= a@.len(),
            off + b@.len() == a@.len(),
            k <= b@.len(),
            forall|j: int| 0 <= j < k ==> a@[off + j]@ == b@[j]@,
        decreases b.len() - k,
    {
        if !str_eq(a[off + k].as_str(), b[k].as_str()) {
            assert(views(a@).subrange(off as int, a@.len() as int)[k as int] != views(b@)[k as int]);
            return false;
        }
        k = k + 1;
    }
    assert(views(a@).subrange(off as int, a@.len() as int) =~= views(b@));
    true
}

/// Whether `source` lies at or below `prefix`, component by component.
pub fn path_starts_with(source: &str, prefix: &str) -> (r: bool)
    ensures
        r == starts_with_path(source@, prefix@),
{
    let s = path_full_components(source);
    let q = path_full_components(prefix);
    begins_with(&s, &q)
}

/// Whether `p` ends with the path `rel`, component by component.
pub fn path_ends_with(p: &str, rel: &str) -> (r: bool)
    ensures
        r == ends_with_path(p@, rel@),
{
    let s = path_full_components(p);
    let q = path_full_components(rel);
    ends_with_strings(&s, &q)
}

/// Splits `path` into its parent directory and its file name.
pub fn extract_path_and_filename(path: &str) -> (r: Result<(String, String), FpgadError>)
    ensures
        match r {
            Ok((d, n)) => parent(path@) == Some(d@) && file_name(path@) == Some(n@),
            Err(e) => e is Argument && file_name(path@).is_none(),
        },
        r.is_ok() <==> file_name(path@).is_some(),
{
    let c = path_components(path);
    let k = c.len();
    if k == 0 || is_dot(c[k - 1].as_str()) || is_dot_dot(c[k - 1].as_str()) {
        return Err(
            FpgadError::Argument(
                concat3(
                    "Provided bitstream path \"",
                    path,
                    "\" is not a file or a valid directory.",
                ),
            ),
        );
    }
    assert(views(c@).last() == c@[k - 1]@);
    let joined = join_range(&c, 0, k - 1);
    assert(views(c@).subrange(0, k - 1) =~= views(c@).drop_last());
    let dir = if path.unicode_len() > 0 && path.get_char(0) == '/' {
        let d = concat2("/", joined.as_str());
        proof {
            reveal_strlit("/");
            assert("/"@ =~= seq!['/']);
        }
        d
    } else {
        joined
    };
    Ok((dir, c[k - 1].clone()))
}

/// Resolves a source path into the prefix for the firmware search-path register and
/// the suffix relative to it. With an empty `firmware_path` these are the parent
/// directory and the file name; otherwise `firmware_path` itself and the components
/// that follow it in `source_path`.
pub fn make_firmware_pair(source_path: &str, firmware_path: &str) -> (r: Result<
    (String, String),
    FpgadError,
>)
    ensures
        match r {
            Ok((p, s)) => firmware_pair(source_path@, firmware_path@) == Some((p@, s@)),
            Err(e) => e is Argument && firmware_pair(source_path@, firmware_path@).is_none(),
        },
        firmware_path@.len() > 0 && !starts_with_path(source_path@, firmware_path@) ==> (
        r matches Err(FpgadError::Argument(m)) && contains(m@, "Could not find"@)),
        firmware_path@.len() > 0 && starts_with_path(source_path@, firmware_path@)
            && path_remainder(source_path@, firmware_path@).len() == 0 ==> (r matches Err(
            FpgadError::Argument(m),
        ) && contains(m@, "The resulting filename from stripping"@)),
{
    if firmware_path.unicode_len() == 0 {
        return extract_path_and_filename(source_path);
    }
    let s = path_full_components(source_path);
    let q = path_full_components(firmware_path);
    if !begins_with(&s, &q) {
        let rest = concat3(" \"", source_path, "\" inside the firmware lookup path.");
        let m = concat2("Could not find", rest.as_str());
        proof {
            crate::text::lemma_contains_prefix("Could not find"@, rest@);
        }
        return Err(FpgadError::Argument(m));
    }
    if q.len() == s.len() {
        let rest = concat3(
            " the firmware lookup path from \"",
            source_path,
            "\" was empty. Cannot write empty string to fpga.",
        );
        let m = concat2("The resulting filename from stripping", rest.as_str());
        proof {
            crate::text::lemma_contains_prefix("The resulting filename from stripping"@, rest@);
        }
        return Err(FpgadError::Argument(m));
    }
    let suffix = join_range(&s, q.len(), s.len());
    Ok((String::from_str(firmware_path), suffix))
}

/// Joins a prefix and a suffix with one separator.
pub fn join(prefix: &str, suffix: &str) -> (r: String)
    ensures
        r@ == join_path(prefix@, suffix@),
{
    let m = prefix.unicode_len();
    if m == 0 || prefix.get_char(m - 1) == '/' {
        concat2(prefix, suffix)
    } else {
        let r = concat3(prefix, "/", suffix);
        proof {
            reveal_strlit("/");
            assert("/"@ =~= seq!['/']);
        }
        r
    }
}

proof fn lemma_last_sep_concat(a: Seq<char>, b: Seq<char>)
    requires
        no_sep(b),
    ensures
        last_sep(a + seq!['/'] + b) == a.len(),
    decreases b.len(),
{
    let x = a + seq!['/'] + b;
    if b.len() > 0 {
        assert(x.last() == b.last());
        assert(x.drop_last() =~= a + seq!['/'] + b.drop_last());
        lemma_last_sep_concat(a, b.drop_last());
    } else {
        assert(x.last() == '/');
    }
}

proof fn lemma_components_wf(p: Seq<char>)
    ensures
        forall|k: int|
            0 <= k < components(p).len() ==> {
                &&& (#[trigger] components(p)[k]).len() > 0
                &&& no_sep(components(p)[k])
                &&& ((k > 0 || is_rooted(p)) ==> components(p)[k] != seq!['.'])
            },
        p.len() > 0 && !is_rooted(p) ==> components(p).len() > 0,
    decreases p.len(),
{
    lemma_last_sep_bounds(p);
    let i = last_sep(p);
    if i < 0 {
        if p.len() > 0 {
            assert(p[0] != '/');
        }
    } else {
        let head = p.subrange(0, i);
        let seg = p.subrange(i + 1, p.len() as int);
        lemma_components_wf(head);
        assert(no_sep(seg));
        if i > 0 {
            assert(head[0] == p[0]);
        }
        let c = components(p);
        let b = components(head);
        assert forall|k: int| 0 <= k < c.len() implies {
            &&& (#[trigger] c[k]).len() > 0
            &&& no_sep(c[k])
            &&& ((k > 0 || is_rooted(p)) ==> c[k] != seq!['.'])
        } by {
            if k < b.len() {
                assert(c[k] == b[k]);
            }
        }
    }
}

/// Components of a path, a separator, then well-formed segments.
proof fn lemma_components_join(a: Seq<char>, rest: Seq<Seq<char>>)
    requires
        rest.len() > 0,
        forall|k: int| 0 <= k < rest.len() ==> is_inner_component(#[trigger] rest[k]) && no_sep(
            rest[k],
        ),
    ensures
        components(a + seq!['/'] + join_segments(rest)) == components(a) + rest,
    decreases rest.len(),
{
    let l = rest.last();
    assert(is_inner_component(rest[rest.len() - 1]) && no_sep(rest[rest.len() - 1]));
    if rest.len() == 1 {
        let x = a + seq!['/'] + l;
        lemma_last_sep_concat(a, l);
        assert(x.subrange(0, a.len() as int) =~= a);
        assert(x.subrange(a.len() as int + 1, x.len() as int) =~= l);
        assert(rest =~= seq![l]);
        assert(components(a) + rest =~= components(a).push(l));
    } else {
        let init = rest.drop_last();
        assert forall|k: int| 0 <= k < init.len() implies is_inner_component(#[trigger] init[k])
            && no_sep(init[k]) by {
            assert(init[k] == rest[k]);
        }
        lemma_components_join(a, init);
        let y = a + seq!['/'] + join_segments(init);
        let x = a + seq!['/'] + join_segments(rest);
        assert(x =~= y + seq!['/'] + l);
        lemma_last_sep_concat(y, l);
        assert(x.subrange(0, y.len() as int) =~= y);
        assert(x.subrange(y.len() as int + 1, x.len() as int) =~= l);
        assert(components(a) + rest =~= (components(a) + init).push(l));
    }
}

/// A trailing separator does not change the components.
proof fn lemma_components_trailing_sep(a: Seq<char>)
    ensures
        components(a + seq!['/']) == components(a),
{
    let x = a + seq!['/'];
    lemma_last_sep_concat(a, Seq::<char>::empty());
    assert(x =~= a + seq!['/'] + Seq::<char>::empty());
    assert(x.subrange(0, a.len() as int) =~= a);
    assert(x.subrange(a.len() as int + 1, x.len() as int) =~= Seq::<char>::empty());
}

/// What `render` writes has the components and the root it was given.
pub proof fn lemma_render_components(rooted: bool, cs: Seq<Seq<char>>)
    requires
        forall|k: int|
            0 <= k < cs.len() ==> (#[trigger] cs[k]).len() > 0 && no_sep(cs[k]) && ((k > 0
                || rooted) ==> cs[k] != seq!['.']),
    ensures
        components(render(rooted, cs)) == cs,
        is_rooted(render(rooted, cs)) == (rooted || (cs.len() > 0 && cs[0][0] == '/')),
    decreases cs.len(),
{
    if cs.len() > 0 {
        assert(cs[0].len() > 0 && no_sep(cs[0]));
        assert(cs[0][0] != '/');
    }
    if rooted {
        if cs.len() == 0 {
            lemma_components_trailing_sep(Seq::<char>::empty());
            assert(render(rooted, cs) =~= Seq::<char>::empty() + seq!['/']);
        } else {
            lemma_components_join(Seq::<char>::empty(), cs);
            assert(render(rooted, cs) =~= Seq::<char>::empty() + seq!['/'] + join_segments(cs));
            assert(Seq::<Seq<char>>::empty() + cs =~= cs);
        }
    } else if cs.len() == 1 {
        lemma_last_sep_bounds(cs[0]);
        if last_sep(cs[0]) >= 0 {
            assert(cs[0][last_sep(cs[0])] == '/');
        }
        assert(cs =~= seq![cs[0]]);
    } else if cs.len() > 1 {
        let init = cs.drop_last();
        assert forall|k: int|
            0 <= k < init.len() implies (#[trigger] init[k]).len() > 0 && no_sep(init[k]) && ((k
            > 0 || rooted) ==> init[k] != seq!['.']) by {
            assert(init[k] == cs[k]);
        }
        lemma_render_components(false, init);
        let l = cs.last();
        assert(l == cs[cs.len() - 1]);
        lemma_components_join(join_segments(init), seq![l]);
        assert(join_segments(seq![l]) == l);
        assert(init + seq![l] =~= cs);
        assert(init[0] == cs[0]);
    } else {
        assert(cs =~= Seq::<Seq<char>>::empty());
    }
}

/// Resolution without an override prefix gives the source's parent and file name, and
/// fails where the source has no file name. The parent has the source's root and all
/// of its components but the last.
pub proof fn lemma_firmware_pair_without_prefix(source: Seq<char>)
    ensures
        firmware_pair(source, Seq::<char>::empty()) == match (parent(source), file_name(source)) {
            (Some(d), Some(n)) => Some((d, n)),
            _ => None,
        },
        file_name(source).is_none() ==> firmware_pair(source, Seq::<char>::empty()).is_none(),
        file_name(source) matches Some(n) ==> (parent(source) matches Some(d) && components(d)
            == components(source).drop_last() && is_rooted(d) == is_rooted(source)
            && components(source) == components(d).push(n)),
{
    if file_name(source).is_some() {
        let c = components(source);
        lemma_components_wf(source);
        let init = c.drop_last();
        assert forall|k: int|
            0 <= k < init.len() implies (#[trigger] init[k]).len() > 0 && no_sep(init[k]) && ((k
            > 0 || is_rooted(source)) ==> init[k] != seq!['.']) by {
            assert(init[k] == c[k]);
        }
        lemma_render_components(is_rooted(source), init);
        assert(init.push(c.last()) =~= c);
    }
}

/// Round trip of resolution: where the override prefix is a proper ancestor of the
/// source, resolution keeps that prefix, and joining it with the suffix gives a path
/// with the same root and components as the source.
pub proof fn lemma_firmware_pair_round_trip(source: Seq<char>, prefix: Seq<char>)
    requires
        prefix.len() > 0,
        starts_with_path(source, prefix),
        full_components(prefix).len() < full_components(source).len(),
    ensures
        firmware_pair(source, prefix) matches Some((p, s)) && p == prefix && full_components(
            join_path(p, s),
        ) == full_components(source),
{
    let fs = full_components(source);
    let fq = full_components(prefix);
    let k = fq.len() as int;
    let rest = path_remainder(source, prefix);
    let s = join_segments(rest);
    lemma_components_wf(source);
    lemma_components_wf(prefix);
    let cs = components(source);
    let cq = components(prefix);
    assert(fs =~= fq + rest);
    assert(k > 0);
    // the root agrees
    if is_rooted(prefix) {
        assert(fq[0] == seq!['/']);
        assert(fs[0] == fq[0]);
        if !is_rooted(source) {
            assert(fs[0] == cs[0]);
            assert(no_sep(cs[0]));
            assert(cs[0][0] == '/');
        }
    } else {
        assert(fq[0] == cq[0]);
        assert(no_sep(cq[0]) && cq[0].len() > 0);
        assert(fs[0] == fq[0]);
        if is_rooted(source) {
            assert(fs[0] == seq!['/']);
            assert(cq[0][0] == '/');
        }
    }
    assert(is_rooted(prefix) == is_rooted(source));
    // the remainder is made of inner components
    assert forall|j: int| 0 <= j < rest.len() implies is_inner_component(#[trigger] rest[j])
        && no_sep(rest[j]) by {
        assert(rest[j] == fs[k + j]);
        if is_rooted(source) {
            assert(fs[k + j] == cs[k + j - 1]);
        } else {
            assert(fs[k + j] == cs[k + j]);
        }
    }
    let j = join_path(prefix, s);
    if prefix.last() == '/' {
        let a = prefix.drop_last();
        assert(prefix =~= a + seq!['/']);
        lemma_components_trailing_sep(a);
        lemma_components_join(a, rest);
        assert(j =~= a + seq!['/'] + s);
    } else {
        lemma_components_join(prefix, rest);
    }
    assert(components(j) == cq + rest);
    assert(j[0] == prefix[0]);
    if is_rooted(source) {
        assert(fs =~= seq![seq!['/']] + cq + rest);
        assert(full_components(j) =~= seq![seq!['/']] + (cq + rest));
    } else {
        assert(full_components(j) =~= cq + rest);
    }
}

} // verus!
