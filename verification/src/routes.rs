//! The paths of WebSocket and server-sent-events routes: their `/`
//! segments, `:name` parameters and the path expressions the clients
//! build their URLs with.

use vstd::prelude::*;
use crate::extractors::split_char;
use crate::text::{
    cat2, cat3, chars_of, join, join_seq, owned, push_char, starts_with, string_of_range,
    trim_end_char, trim_end_matches, trim_start_char, trim_start_matches, views,
};

verus! {

/// A route path without its leading and trailing `/`.
pub open spec fn trimmed_path(path: Seq<char>) -> Seq<char> {
    trim_end_char(trim_start_char(path, '/'), '/')
}

/// The `/`-separated segments of a route path.
pub open spec fn segments(path: Seq<char>) -> Seq<Seq<char>> {
    split_char(trimmed_path(path), '/')
}

/// A segment that names a parameter: it starts with `:`.
pub open spec fn is_param(seg: Seq<char>) -> bool {
    seg.len() > 0 && seg[0] == ':'
}

/// The names of the parameter segments, in order.
pub open spec fn param_names(segs: Seq<Seq<char>>) -> Seq<Seq<char>>
    decreases segs.len(),
{
    if segs.len() == 0 {
        Seq::empty()
    } else {
        let rest = param_names(segs.drop_last());
        if is_param(segs.last()) {
            rest.push(segs.last().drop_first())
        } else {
            rest
        }
    }
}

/// Whether some segment names a parameter.
pub open spec fn has_param(segs: Seq<Seq<char>>) -> bool {
    exists|i: int| 0 <= i < segs.len() && is_param(#[trigger] segs[i])
}

/// A segment in a JavaScript template: a parameter becomes its
/// URI-encoded value.
pub open spec fn js_seg(seg: Seq<char>) -> Seq<char> {
    if is_param(seg) {
        "${encodeURIComponent("@ + seg.drop_first() + ")}"@
    } else {
        seg
    }
}

/// A segment in a C# or Rust format string: a parameter becomes `{name}`.
pub open spec fn brace_seg(seg: Seq<char>) -> Seq<char> {
    if is_param(seg) {
        "{"@ + seg.drop_first() + "}"@
    } else {
        seg
    }
}

/// Each segment as a JavaScript template piece (`js`) or as a C# or Rust
/// format piece.
pub open spec fn seg_exprs(segs: Seq<Seq<char>>, js: bool) -> Seq<Seq<char>>
    decreases segs.len(),
{
    if segs.len() == 0 {
        Seq::empty()
    } else {
        seg_exprs(segs.drop_last(), js).push(if js { js_seg(segs.last()) } else { brace_seg(segs.last()) })
    }
}

/// The JavaScript path expression of the segments.
pub open spec fn js_path(segs: Seq<Seq<char>>) -> Seq<char> {
    join_seq(seg_exprs(segs, true), "/"@)
}

/// The C# or Rust path expression of the segments.
pub open spec fn brace_path(segs: Seq<Seq<char>>) -> Seq<char> {
    join_seq(seg_exprs(segs, false), "/"@)
}

proof fn lemma_split_char_nonempty(s: Seq<char>, c: char)
    ensures
        split_char(s, c).len() >= 1,
    decreases s.len(),
{
    if s.len() > 0 {
        lemma_split_char_nonempty(s.drop_last(), c);
    }
}

/// The pieces of `s` between the occurrences of `c` (`str::split`).
pub fn split_text(s: &str, c: char) -> (r: Vec<String>)
    ensures
        views(r@) == split_char(s@, c),
{
    let v = chars_of(s);
    let n = v.len();
    let mut r: Vec<String> = Vec::new();
    let mut start: usize = 0;
    let mut i: usize = 0;
    proof {
        assert(v@.subrange(0, 0) =~= Seq::<char>::empty());
        assert(views(r@) =~= Seq::<Seq<char>>::empty());
    }
    while i < n
        invariant
            v@ == s@,
            n == v@.len(),
            start <= i <= n,
            split_char(v@.subrange(0, i as int), c).len() >= 1,
            split_char(v@.subrange(0, i as int), c).last() == v@.subrange(start as int, i as int),
            views(r@) == split_char(v@.subrange(0, i as int), c).drop_last(),
        decreases n - i,
    {
        let ghost pre = v@.subrange(0, i as int);
        let ghost post = v@.subrange(0, i + 1);
        proof {
            assert(post.drop_last() =~= pre);
            assert(post.last() == v@[i as int]);
            lemma_split_char_nonempty(pre, c);
        }
        let ghost sp = split_char(pre, c);
        if v[i] == c {
            assert(split_char(post, c) == sp.push(Seq::<char>::empty()));
            let piece = string_of_range(&v, start, i);
            let ghost before = r@;
            r.push(piece);
            assert(views(r@) =~= views(before).push(sp.last()));
            assert(split_char(post, c).drop_last() =~= sp);
            assert(sp.drop_last().push(sp.last()) =~= sp);
            start = i + 1;
            assert(v@.subrange(start as int, i + 1) =~= Seq::<char>::empty());
        } else {
            assert(split_char(post, c) == sp.update(sp.len() - 1, sp.last().push(v@[i as int])));
            assert(split_char(post, c).drop_last() =~= sp.drop_last());
            assert(v@.subrange(start as int, i + 1) =~= v@.subrange(start as int, i as int).push(v@[i as int]));
        }
        i = i + 1;
    }
    proof {
        assert(v@.subrange(0, n as int) =~= s@);
        lemma_split_char_nonempty(s@, c);
    }
    let ghost sp = split_char(s@, c);
    let last = string_of_range(&v, start, n);
    let ghost before = r@;
    r.push(last);
    assert(views(r@) =~= views(before).push(sp.last()));
    assert(sp.drop_last().push(sp.last()) =~= sp);
    r
}

/// The segments of a route path.
pub fn route_segments(path: &str) -> (r: Vec<String>)
    ensures
        views(r@) == segments(path@),
{
    let a = trim_start_matches(path, '/');
    let b = trim_end_matches(a.as_str(), '/');
    split_text(b.as_str(), '/')
}

fn is_param_text(seg: &str) -> (r: bool)
    ensures
        r == is_param(seg@),
{
    proof {
        reveal_strlit(":");
    }
    let b = starts_with(seg, ":");
    proof {
        if b {
            assert(":"@[0] == seg@[0]);
        }
        if seg@.len() > 0 && seg@[0] == ':' {
            assert(seg@.subrange(0, 1) =~= ":"@);
        }
    }
    b
}

fn rest_of(seg: &str) -> (r: String)
    requires
        seg@.len() > 0,
    ensures
        r@ == seg@.drop_first(),
{
    let v = chars_of(seg);
    let r = string_of_range(&v, 1, v.len());
    assert(r@ =~= seg@.drop_first());
    r
}

/// The parameter names of the segments.
pub fn route_param_names(segs: &Vec<String>) -> (r: Vec<String>)
    ensures
        views(r@) == param_names(views(segs@)),
{
    let mut r: Vec<String> = Vec::new();
    let mut i: usize = 0;
    assert(views(segs@).subrange(0, 0) =~= Seq::<Seq<char>>::empty());
    assert(views(r@) =~= Seq::<Seq<char>>::empty());
    while i < segs.len()
        invariant
            i <= segs@.len(),
            views(r@) == param_names(views(segs@).subrange(0, i as int)),
        decreases segs@.len() - i,
    {
        let ghost pre = views(segs@).subrange(0, i as int);
        let ghost post = views(segs@).subrange(0, i + 1);
        assert(post.drop_last() =~= pre);
        assert(post.last() == segs@[i as int]@);
        if is_param_text(segs[i].as_str()) {
            let p = rest_of(segs[i].as_str());
            let ghost before = r@;
            r.push(p);
            assert(views(r@) =~= views(before).push(segs@[i as int]@.drop_first()));
        }
        i = i + 1;
    }
    assert(views(segs@).subrange(0, segs@.len() as int) =~= views(segs@));
    r
}

/// Whether some segment names a parameter.
pub fn route_has_param(segs: &Vec<String>) -> (r: bool)
    ensures
        r == has_param(views(segs@)),
{
    let mut i: usize = 0;
    while i < segs.len()
        invariant
            i <= segs@.len(),
            forall|j: int| 0 <= j < i ==> !is_param(#[trigger] views(segs@)[j]),
        decreases segs@.len() - i,
    {
        assert(views(segs@)[i as int] == segs@[i as int]@);
        if is_param_text(segs[i].as_str()) {
            return true;
        }
        i = i + 1;
    }
    false
}

/// The path expression of the segments: JavaScript template pieces when
/// `js`, C# or Rust format pieces otherwise.
pub fn route_path_expr(segs: &Vec<String>, js: bool) -> (r: String)
    ensures
        r@ == if js {
            js_path(views(segs@))
        } else {
            brace_path(views(segs@))
        },
{
    let mut parts: Vec<String> = Vec::new();
    let mut i: usize = 0;
    assert(views(segs@).subrange(0, 0) =~= Seq::<Seq<char>>::empty());
    assert(views(parts@) =~= Seq::<Seq<char>>::empty());
    while i < segs.len()
        invariant
            i <= segs@.len(),
            views(parts@) == seg_exprs(views(segs@).subrange(0, i as int), js),
        decreases segs@.len() - i,
    {
        let s = segs[i].as_str();
        let piece = if is_param_text(s) {
            let p = rest_of(s);
            if js {
                cat3("${encodeURIComponent(", p.as_str(), ")}")
            } else {
                cat3("{", p.as_str(), "}")
            }
        } else {
            owned(s)
        };
        let ghost pre = views(segs@).subrange(0, i as int);
        let ghost post = views(segs@).subrange(0, i + 1);
        assert(post.drop_last() =~= pre);
        assert(post.last() == segs@[i as int]@);
        let ghost before = parts@;
        parts.push(piece);
        assert(views(parts@) =~= views(before).push(piece@));
        i = i + 1;
    }
    assert(views(segs@).subrange(0, segs@.len() as int) =~= views(segs@));
    join(&parts, "/")
}

} // verus!
