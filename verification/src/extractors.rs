//! The extractors of ordinary routes' query strings and path parameters,
//! and the splitting of a query string into its parameters.

use vstd::prelude::*;
use crate::buf::{first_index_of, lemma_first_index_of};
use crate::text::{chars_of, string_of_range};

verus! {

/// URL query parameters (`?key=value&..`) deserialized into `T`.
pub struct Query<T>(pub T);

/// Route path parameters (`:id`, `:name`) deserialized into `T`.
pub struct Param<T>(pub T);

/// The pieces of `s` between the occurrences of `c`, as `str::split`
/// gives them: always at least one, possibly empty.
pub open spec fn split_char(s: Seq<char>, c: char) -> Seq<Seq<char>>
    decreases s.len(),
{
    if s.len() == 0 {
        seq![Seq::empty()]
    } else {
        let rest = split_char(s.drop_last(), c);
        if s.last() == c {
            rest.push(Seq::empty())
        } else {
            rest.update(rest.len() - 1, rest.last().push(s.last()))
        }
    }
}

proof fn lemma_split_char_nonempty(s: Seq<char>, c: char)
    ensures
        split_char(s, c).len() >= 1,
    decreases s.len(),
{
    if s.len() > 0 {
        lemma_split_char_nonempty(s.drop_last(), c);
    }
}

/// A query parameter `key=value` split at its first `=`; a parameter
/// without `=` has an empty value.
pub open spec fn key_value(p: Seq<char>) -> (Seq<char>, Seq<char>) {
    match first_index_of(p, '=') {
        Some(k) => (p.subrange(0, k), p.skip(k + 1)),
        None => (p, Seq::empty()),
    }
}

/// The key/value pairs of the non-empty pieces, in order.
pub open spec fn pairs_of(pieces: Seq<Seq<char>>) -> Seq<(Seq<char>, Seq<char>)>
    decreases pieces.len(),
{
    if pieces.len() == 0 {
        Seq::empty()
    } else {
        let rest = pairs_of(pieces.drop_last());
        if pieces.last().len() == 0 {
            rest
        } else {
            rest.push(key_value(pieces.last()))
        }
    }
}

/// The parameters of a query string: its `&`-separated non-empty pieces,
/// each split at its first `=`.
pub open spec fn query_params(query: Seq<char>) -> Seq<(Seq<char>, Seq<char>)> {
    pairs_of(split_char(query, '&'))
}

/// The views of a list of string pairs.
pub open spec fn pair_views(v: Seq<(String, String)>) -> Seq<(Seq<char>, Seq<char>)> {
    v.map_values(|p: (String, String)| (p.0@, p.1@))
}

fn key_value_of(v: &Vec<char>, lo: usize, hi: usize) -> (r: (String, String))
    requires
        lo <= hi <= v@.len(),
    ensures
        (r.0@, r.1@) == key_value(v@.subrange(lo as int, hi as int)),
{
    let ghost p = v@.subrange(lo as int, hi as int);
    let mut k = lo;
    while k < hi && v[k] != '='
        invariant
            lo <= k <= hi <= v@.len(),
            p == v@.subrange(lo as int, hi as int),
            forall|j: int| 0 <= j < k - lo ==> p[j] != '=',
        decreases hi - k,
    {
        k = k + 1;
    }
    proof {
        lemma_first_index_of(p, '=', k - lo);
    }
    if k < hi {
        let key = string_of_range(v, lo, k);
        let value = string_of_range(v, k + 1, hi);
        assert(key@ =~= p.subrange(0, k - lo));
        assert(value@ =~= p.skip(k - lo + 1));
        (key, value)
    } else {
        let key = string_of_range(v, lo, hi);
        (key, String::new())
    }
}

/// Splits a query string (`key=value&key=value`) into its parameters, in
/// order: empty pieces are left out, and a piece without `=` is a key
/// with an empty value.
pub fn query_pairs(query: &str) -> (r: Vec<(String, String)>)
    ensures
        pair_views(r@) == query_params(query@),
{
    let v = chars_of(query);
    let n = v.len();
    let mut r: Vec<(String, String)> = Vec::new();
    let mut start: usize = 0;
    let mut i: usize = 0;
    proof {
        assert(v@.subrange(0, 0) =~= Seq::<char>::empty());
        assert(pair_views(r@) =~= Seq::<(Seq<char>, Seq<char>)>::empty());
    }
    while i < n
        invariant
            v@ == query@,
            n == v@.len(),
            start <= i <= n,
            split_char(v@.subrange(0, i as int), '&').len() >= 1,
            split_char(v@.subrange(0, i as int), '&').last() == v@.subrange(start as int, i as int),
            pair_views(r@) == pairs_of(split_char(v@.subrange(0, i as int), '&').drop_last()),
        decreases n - i,
    {
        let ghost pre = v@.subrange(0, i as int);
        let ghost post = v@.subrange(0, i + 1);
        proof {
            assert(post.drop_last() =~= pre);
            assert(post.last() == v@[i as int]);
            lemma_split_char_nonempty(pre, '&');
        }
        if v[i] == '&' {
            let ghost sp = split_char(pre, '&');
            assert(split_char(post, '&') == sp.push(Seq::<char>::empty()));
            assert(split_char(post, '&').drop_last() =~= sp);
            assert(sp.drop_last() =~= sp.subrange(0, sp.len() - 1));
            if start < i {
                let kv = key_value_of(&v, start, i);
                let ghost before = r@;
                r.push(kv);
                assert(pair_views(r@) =~= pair_views(before).push(key_value(sp.last())));
            } else {
                assert(sp.last().len() == 0);
            }
            start = i + 1;
            assert(v@.subrange(start as int, i + 1) =~= Seq::<char>::empty());
        } else {
            let ghost sp = split_char(pre, '&');
            assert(split_char(post, '&') == sp.update(sp.len() - 1, sp.last().push(v@[i as int])));
            assert(split_char(post, '&').drop_last() =~= sp.drop_last());
            assert(v@.subrange(start as int, i + 1) =~= v@.subrange(start as int, i as int).push(
                v@[i as int],
            ));
        }
        i = i + 1;
    }
    proof {
        assert(v@.subrange(0, n as int) =~= query@);
    }
    let ghost sp = split_char(query@, '&');
    if start < n {
        let kv = key_value_of(&v, start, n);
        let ghost before = r@;
        r.push(kv);
        assert(pair_views(r@) =~= pair_views(before).push(key_value(sp.last())));
    }
    proof {
        assert(sp.drop_last().push(sp.last()) =~= sp);
    }
    r
}

} // verus!
