//! Paths of the synced tree, written with `/` separators.
use vstd::prelude::*;
use crate::utils::text::{chars_of, push_char, push_str, same_text, string_of_chars};

verus! {

/// Index of the last `/` in `p`, or `-1` when there is none.
pub open spec fn last_slash(p: Seq<char>) -> int
    decreases p.len(),
{
    if p.len() == 0 {
        -1
    } else if p.last() == '/' {
        p.len() - 1
    } else {
        last_slash(p.drop_last())
    }
}

/// `last_slash` lies within the path.
pub proof fn lemma_last_slash_bounds(p: Seq<char>)
    ensures
        -1 <= last_slash(p) < p.len(),
        last_slash(p) >= 0 ==> p[last_slash(p)] == '/',
        forall|j: int| last_slash(p) < j < p.len() ==> p[j] != '/',
    decreases p.len(),
{
    if p.len() > 0 && p.last() != '/' {
        let d = p.drop_last();
        lemma_last_slash_bounds(d);
        assert forall|j: int| last_slash(p) < j < p.len() implies p[j] != '/' by {
            if j < p.len() - 1 {
                assert(d[j] == p[j]);
            }
        }
    }
}

/// The position found by scanning back from the end to the first `/` is `last_slash`.
proof fn lemma_last_slash_scan(p: Seq<char>, start: int)
    requires
        0 <= start <= p.len(),
        forall|j: int| start <= j < p.len() ==> p[j] != '/',
        start == 0 || p[start - 1] == '/',
    ensures
        last_slash(p) == start - 1,
    decreases p.len(),
{
    if p.len() > 0 && start < p.len() {
        lemma_last_slash_scan(p.drop_last(), start);
    }
}

/// The last component of `p` that is neither empty nor `.`, if any.
pub open spec fn last_component(p: Seq<char>) -> Option<Seq<char>>
    decreases p.len(),
{
    let i = last_slash(p);
    let seg = p.subrange(i + 1, p.len() as int);
    if seg.len() == 0 || seg == seq!['.'] {
        if i < 0 {
            None
        } else {
            proof {
                lemma_last_slash_bounds(p);
            }
            last_component(p.subrange(0, i))
        }
    } else {
        Some(seg)
    }
}

/// The final name of a path, as `Path::file_name` gives it on Unix: the last component
/// that is neither empty nor `.`, unless that component is `..` or there is none.
pub open spec fn file_name_of(p: Seq<char>) -> Option<Seq<char>> {
    match last_component(p) {
        Some(s) => if s == seq!['.', '.'] {
            None
        } else {
            Some(s)
        },
        None => None,
    }
}

/// The final name of `path` (see `file_name_of`).
pub fn file_name(path: &str) -> (r: Option<String>)
    ensures
        r is None <==> file_name_of(path@) is None,
        r matches Some(n) ==> file_name_of(path@) == Some(n@),
{
    let cs = chars_of(path);
    let ghost p = cs@;
    let mut end: usize = cs.len();
    assert(p.take(end as int) =~= p);
    loop
        invariant
            p == cs@,
            p == path@,
            end <= cs.len(),
            last_component(p) == last_component(p.take(end as int)),
        decreases end,
    {
        let ghost q = p.take(end as int);
        let mut start: usize = end;
        while start > 0 && cs[start - 1] != '/'
            invariant
                start <= end,
                end <= cs.len(),
                p == cs@,
                forall|j: int| start <= j < end ==> cs@[j] != '/',
            decreases start,
        {
            start = start - 1;
        }
        proof {
            lemma_last_slash_scan(q, start as int);
            assert(q.subrange(start as int, end as int) =~= p.subrange(start as int, end as int));
            assert(q.subrange(start as int, q.len() as int) =~= p.subrange(start as int, end as int));
        }
        let ghost seg_view = p.subrange(start as int, end as int);
        let len = end - start;
        let is_dot = len == 1 && cs[start] == '.';
        if len == 0 || is_dot {
            proof {
                if is_dot {
                    assert(q.subrange(start as int, end as int) =~= seq!['.']);
                }
            }
            assert(seg_view.len() == 0 || seg_view == seq!['.']);
            if start == 0 {
                assert(last_component(q) is None);
                return None;
            }
            proof {
                assert(q.subrange(0, start - 1) =~= p.take(start - 1));
                assert(last_component(q) == last_component(q.subrange(0, start - 1)));
            }
            end = start - 1;
        } else {
            proof {
                if len == 1 {
                    assert(seg_view[0] == cs@[start as int]);
                    assert(seg_view != seq!['.']);
                }
                assert(last_component(q) == Some(seg_view));
            }
            let is_dot_dot = len == 2 && cs[start] == '.' && cs[start + 1] == '.';
            if is_dot_dot {
                assert(q.subrange(start as int, end as int) =~= seq!['.', '.']);
                return None;
            }
            let mut seg: Vec<char> = Vec::new();
            let mut k: usize = start;
            while k < end
                invariant
                    start <= k <= end,
                    end <= cs.len(),
                    p == cs@,
                    seg@ == p.subrange(start as int, k as int),
                decreases end - k,
            {
                seg.push(cs[k]);
                assert(p.subrange(start as int, k + 1) =~= p.subrange(start as int, k as int).push(
                    p[k as int],
                ));
                k = k + 1;
            }
            proof {
                if len == 2 {
                    assert(seg@ != seq!['.', '.']) by {
                        if seg@ == seq!['.', '.'] {
                            assert(seg@[0] == '.' && seg@[1] == '.');
                        }
                    }
                }
            }
            return Some(string_of_chars(&seg));
        }
    }
}

/// `base` extended by `name` as `PathBuf::push` does on Unix: an absolute `name` replaces
/// the base; otherwise a `/` is put between them unless the base is empty or ends in one.
pub open spec fn joined(base: Seq<char>, name: Seq<char>) -> Seq<char> {
    if name.len() > 0 && name[0] == '/' {
        name
    } else if base.len() == 0 || base.last() == '/' {
        base + name
    } else {
        base + seq!['/'] + name
    }
}

/// `base` extended by `name` (see `joined`).
pub fn join(base: &str, name: &str) -> (r: String)
    ensures
        r@ == joined(base@, name@),
{
    let nlen = name.unicode_len();
    if nlen > 0 && name.get_char(0) == '/' {
        return String::from_str(name);
    }
    let blen = base.unicode_len();
    let mut out = String::from_str(base);
    if blen > 0 && base.get_char(blen - 1) != '/' {
        push_str(&mut out, "/");
        proof {
            reveal_strlit("/");
        }
    }
    push_str(&mut out, name);
    out
}

/// How many characters of `p` come before its named components, as `Path::components`
/// reads a Unix path: a leading `/` (the root), or a leading `.` standing alone before a
/// `/` or the end (the current directory). Otherwise none.
pub open spec fn body_start(p: Seq<char>) -> int {
    if p.len() > 0 && (p[0] == '/' || (p[0] == '.' && (p.len() == 1 || p[1] == '/'))) {
        1
    } else {
        0
    }
}

/// The part of `p` before its last `/` that lies past `body_start`, or before the named
/// components when there is no such `/`.
pub open spec fn before_last(p: Seq<char>) -> Seq<char> {
    if last_slash(p) < body_start(p) {
        p.subrange(0, body_start(p))
    } else {
        p.subrange(0, last_slash(p))
    }
}

/// The text after the last `/` of `p`.
pub open spec fn last_segment(p: Seq<char>) -> Seq<char> {
    p.subrange(last_slash(p) + 1, p.len() as int)
}

/// A segment that names nothing: empty (from a doubled or trailing `/`) or `.`.
pub open spec fn is_skipped(seg: Seq<char>) -> bool {
    seg.len() == 0 || seg == seq!['.']
}

/// `p` without the empty and `.` segments at its end, keeping what comes before its
/// named components.
pub open spec fn trim_end(p: Seq<char>) -> Seq<char>
    decreases p.len(),
{
    if p.len() <= body_start(p) {
        p
    } else if is_skipped(last_segment(p)) {
        proof {
            lemma_last_slash_bounds(p);
        }
        trim_end(before_last(p))
    } else {
        p
    }
}

/// The components of `p` as `Path::components` yields them on Unix, each written as
/// text: the root as `/`, a leading current directory as `.`, then every segment
/// between separators that is neither empty nor `.`.
pub open spec fn components_of(p: Seq<char>) -> Seq<Seq<char>>
    decreases p.len(),
{
    if p.len() <= body_start(p) {
        if p.len() == 0 {
            Seq::empty()
        } else {
            seq![p]
        }
    } else {
        proof {
            lemma_last_slash_bounds(p);
        }
        if is_skipped(last_segment(p)) {
            components_of(before_last(p))
        } else {
            components_of(before_last(p)).push(last_segment(p))
        }
    }
}

/// The directory holding `p`, as `Path::parent` gives it on Unix: `p` without its last
/// component (and the empty and `.` segments around it), empty for a path of one name,
/// and nothing for the root or an empty path.
pub open spec fn parent_of(p: Seq<char>) -> Option<Seq<char>> {
    let q = trim_end(p);
    if q.len() <= body_start(q) {
        if q == seq!['.'] {
            Some(Seq::empty())
        } else {
            None
        }
    } else {
        Some(trim_end(before_last(q)))
    }
}

/// The characters `cs[from..to]` as a string.
fn segment_string(cs: &Vec<char>, from: usize, to: usize) -> (r: String)
    requires
        from <= to <= cs.len(),
    ensures
        r@ == cs@.subrange(from as int, to as int),
{
    let mut out = String::new();
    let mut k: usize = from;
    while k < to
        invariant
            from <= k <= to,
            to <= cs.len(),
            out@ == cs@.subrange(from as int, k as int),
        decreases to - k,
    {
        push_char(&mut out, cs[k]);
        assert(cs@.subrange(from as int, k + 1) =~= cs@.subrange(from as int, k as int).push(
            cs@[k as int],
        ));
        k = k + 1;
    }
    out
}

/// One past the last `/` among the first `end` characters of `cs` (zero when none).
fn slash_scan(cs: &Vec<char>, end: usize) -> (start: usize)
    requires
        end <= cs.len(),
    ensures
        start <= end,
        last_slash(cs@.take(end as int)) == start - 1,
{
    let ghost q = cs@.take(end as int);
    let mut start: usize = end;
    while start > 0 && cs[start - 1] != '/'
        invariant
            start <= end,
            end <= cs.len(),
            q == cs@.take(end as int),
            forall|j: int| start <= j < end ==> q[j] != '/',
        decreases start,
    {
        start = start - 1;
    }
    proof {
        lemma_last_slash_scan(q, start as int);
    }
    start
}

/// `body_start` of the first `end` characters of `cs`.
fn body_start_len(cs: &Vec<char>, end: usize) -> (r: usize)
    requires
        end <= cs.len(),
    ensures
        r == body_start(cs@.take(end as int)),
{
    if end > 0 && (cs[0] == '/' || (cs[0] == '.' && (end == 1 || cs[1] == '/'))) {
        1
    } else {
        0
    }
}

proof fn lemma_take_take(p: Seq<char>, a: int, b: int)
    requires
        0 <= a <= b <= p.len(),
    ensures
        p.take(b).subrange(0, a) == p.take(a),
{
    assert(p.take(b).subrange(0, a) =~= p.take(a));
}

/// How many of the first `end` characters of `cs` `trim_end` keeps.
fn trim_end_len(cs: &Vec<char>, end: usize) -> (r: usize)
    requires
        end <= cs.len(),
    ensures
        r <= end,
        cs@.take(r as int) == trim_end(cs@.take(end as int)),
{
    let mut e: usize = end;
    loop
        invariant
            e <= end,
            end <= cs.len(),
            trim_end(cs@.take(e as int)) == trim_end(cs@.take(end as int)),
        decreases e,
    {
        let ghost q = cs@.take(e as int);
        let bs = body_start_len(cs, e);
        if e <= bs {
            return e;
        }
        let s = slash_scan(cs, e);
        let seglen = e - s;
        let skip = seglen == 0 || (seglen == 1 && cs[s] == '.');
        proof {
            lemma_last_slash_bounds(q);
            if seglen == 1 {
                if cs[s as int] == '.' {
                    assert(last_segment(q) =~= seq!['.']);
                } else {
                    assert(last_segment(q)[0] == cs[s as int]);
                }
            }
            assert(skip == is_skipped(last_segment(q)));
        }
        if !skip {
            return e;
        }
        let rest = if s <= bs { bs } else { s - 1 };
        proof {
            lemma_take_take(cs@, rest as int, e as int);
        }
        e = rest;
    }
}

/// The directory holding `path` (see `parent_of`).
pub fn parent(path: &str) -> (r: Option<String>)
    ensures
        r is None <==> parent_of(path@) is None,
        r matches Some(s) ==> parent_of(path@) == Some(s@),
{
    let cs = chars_of(path);
    let ghost p = cs@;
    proof {
        assert(p.take(cs.len() as int) =~= p);
    }
    let q = trim_end_len(&cs, cs.len());
    let bs = body_start_len(&cs, q);
    if q <= bs {
        if q == 1 && cs[0] == '.' {
            assert(p.take(1) =~= seq!['.']);
            return Some(String::new());
        }
        proof {
            if q == 1 {
                assert(p.take(1) != seq!['.']) by {
                    if p.take(1) == seq!['.'] {
                        assert(p.take(1)[0] == '.');
                    }
                }
            }
        }
        return None;
    }
    let s = slash_scan(&cs, q);
    let rest = if s <= bs { bs } else { s - 1 };
    proof {
        lemma_last_slash_bounds(p.take(q as int));
        lemma_take_take(p, rest as int, q as int);
    }
    let t = trim_end_len(&cs, rest);
    let out = segment_string(&cs, 0, t);
    assert(p.subrange(0, t as int) =~= p.take(t as int));
    Some(out)
}

/// The components of the first `end` characters of `cs` (see `components_of`).
fn components_upto(cs: &Vec<char>, end: usize) -> (r: Vec<String>)
    requires
        end <= cs.len(),
    ensures
        r@.map_values(|c: String| c@) == components_of(cs@.take(end as int)),
    decreases end,
{
    let ghost q = cs@.take(end as int);
    let bs = body_start_len(cs, end);
    if end <= bs {
        let mut v: Vec<String> = Vec::new();
        if end == 1 {
            let c = segment_string(cs, 0, 1);
            v.push(c);
            assert(cs@.subrange(0, 1) =~= q);
        }
        assert(v@.map_values(|c: String| c@) =~= components_of(q));
        return v;
    }
    let s = slash_scan(cs, end);
    let rest = if s <= bs { bs } else { s - 1 };
    proof {
        lemma_last_slash_bounds(q);
        lemma_take_take(cs@, rest as int, end as int);
    }
    let mut v = components_upto(cs, rest);
    let seglen = end - s;
    let skip = seglen == 0 || (seglen == 1 && cs[s] == '.');
    proof {
        assert(last_segment(q) =~= cs@.subrange(s as int, end as int));
        if seglen == 1 {
            if cs[s as int] == '.' {
                assert(last_segment(q) =~= seq!['.']);
            } else {
                assert(last_segment(q)[0] == cs[s as int]);
            }
        }
        assert(skip == is_skipped(last_segment(q)));
    }
    if !skip {
        let seg = segment_string(cs, s, end);
        let ghost before = v@;
        v.push(seg);
        assert(v@.map_values(|c: String| c@) =~= before.map_values(|c: String| c@).push(seg@));
    }
    v
}

/// Whether two paths name the same place as `PathBuf`'s `==` judges it on Unix: they
/// have the same components.
pub fn same_path(a: &str, b: &str) -> (r: bool)
    ensures
        r == (components_of(a@) == components_of(b@)),
{
    let ca = chars_of(a);
    let cb = chars_of(b);
    proof {
        assert(ca@.take(ca.len() as int) =~= a@);
        assert(cb@.take(cb.len() as int) =~= b@);
    }
    let va = components_upto(&ca, ca.len());
    let vb = components_upto(&cb, cb.len());
    let ghost sa = va@.map_values(|c: String| c@);
    let ghost sb = vb@.map_values(|c: String| c@);
    if va.len() != vb.len() {
        assert(sa.len() != sb.len());
        return false;
    }
    let mut i: usize = 0;
    while i < va.len()
        invariant
            i <= va.len(),
            va.len() == vb.len(),
            sa == va@.map_values(|c: String| c@),
            sb == vb@.map_values(|c: String| c@),
            sa == components_of(a@),
            sb == components_of(b@),
            forall|j: int| 0 <= j < i ==> sa[j] == sb[j],
        decreases va.len() - i,
    {
        assert(sa[i as int] == va@[i as int]@ && sb[i as int] == vb@[i as int]@);
        if !same_text(va[i].as_str(), vb[i].as_str()) {
            return false;
        }
        i += 1;
    }
    assert(sa =~= sb);
    true
}

/// A plain name: not empty, without `/`, and neither `.` nor `..`.
pub open spec fn is_plain_name(name: Seq<char>) -> bool {
    name.len() > 0 && (forall|j: int| 0 <= j < name.len() ==> name[j] != '/') && name != seq!['.']
        && name != seq!['.', '.']
}

/// A base path that `join` extends with a separator of its own: the root, or a path that
/// does not end in `/`.
pub open spec fn is_join_base(base: Seq<char>) -> bool {
    base == seq!['/'] || (base.len() > 0 && base.last() != '/')
}

proof fn lemma_last_slash_of_joined(base: Seq<char>, name: Seq<char>)
    requires
        is_join_base(base),
        name.len() > 0,
        forall|j: int| 0 <= j < name.len() ==> name[j] != '/',
    ensures
        last_slash(joined(base, name)) == joined(base, name).len() - name.len() - 1,
        joined(base, name).subrange(
            joined(base, name).len() - name.len(),
            joined(base, name).len() as int,
        ) == name,
        joined(base, name).subrange(0, joined(base, name).len() - name.len() - 1) == (if base
            == seq!['/'] {
            Seq::<char>::empty()
        } else {
            base
        }),
{
    let p = joined(base, name);
    let start = p.len() - name.len();
    if base == seq!['/'] {
        assert(p =~= seq!['/'] + name);
    } else {
        assert(p =~= base + seq!['/'] + name);
    }
    assert(p[start - 1] == '/');
    assert forall|j: int| start <= j < p.len() implies p[j] != '/' by {
        assert(p[j] == name[j - start]);
    }
    lemma_last_slash_scan(p, start);
    assert(p.subrange(start, p.len() as int) =~= name);
    if base == seq!['/'] {
        assert(p.subrange(0, start - 1) =~= Seq::<char>::empty());
    } else {
        assert(p.subrange(0, start - 1) =~= base);
    }
}

/// Going up from a directory entered by name leads back where it was entered from: the
/// parent of `base` joined with a plain name is `base`, when `base` does not end in an
/// empty or `.` segment.
pub proof fn lemma_parent_of_joined(base: Seq<char>, name: Seq<char>)
    requires
        is_join_base(base),
        trim_end(base) == base,
        is_plain_name(name),
    ensures
        parent_of(joined(base, name)) == Some(base),
{
    lemma_last_slash_of_joined(base, name);
    let p = joined(base, name);
    let i = last_slash(p);
    assert(last_segment(p) == name);
    assert(!is_skipped(name)) by {
        if name.len() == 1 && name == seq!['.'] {
        }
    }
    assert(p.len() > body_start(p)) by {
        assert(p.len() >= 2) by {
            if base == seq!['/'] {
                assert(p =~= seq!['/'] + name);
            } else {
                assert(p =~= base + seq!['/'] + name);
            }
        }
    }
    assert(trim_end(p) == p);
    if base == seq!['/'] {
        assert(p[0] == '/');
        assert(i == 0);
        assert(before_last(p) =~= seq!['/']);
        assert(trim_end(seq!['/']) == seq!['/']);
    } else {
        assert(i == base.len());
        assert(i >= 1);
        assert(before_last(p) == base);
    }
}

/// The name shown for a directory entered by name is that name: the final name of `base`
/// joined with a plain name is the name.
pub proof fn lemma_file_name_of_joined(base: Seq<char>, name: Seq<char>)
    requires
        is_join_base(base),
        is_plain_name(name),
    ensures
        file_name_of(joined(base, name)) == Some(name),
{
    lemma_last_slash_of_joined(base, name);
    let p = joined(base, name);
    let i = last_slash(p);
    assert(p.subrange(i + 1, p.len() as int) == name);
    assert(last_component(p) == Some(name));
}

}
