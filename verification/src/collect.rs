//! Facts gathered from a service's handler tree: the distinct Custom and
//! Header extractor types, and whether cached or ordinary handlers exist.

use vstd::prelude::*;
use crate::model::{Handler, ParamMeta, TagKind};
use crate::naming::{header_name_of, pascal, to_header_name, to_pascal_case};
use crate::text::{cat2, contains_str, owned, str_eq, trim_start_char, trim_start_matches, views};

verus! {

/// The parameters of every handler of a tree, in depth-first order: a
/// handler's own parameters come before those of its children.
pub open spec fn tree_params(hs: Seq<Handler>) -> Seq<ParamMeta>
    decreases hs,
{
    if hs.len() == 0 {
        Seq::empty()
    } else {
        tree_params(hs.drop_last()) + node_params(hs.last())
    }
}

/// The parameters of a handler and of everything below it.
pub open spec fn node_params(h: Handler) -> Seq<ParamMeta>
    decreases h,
{
    h.meta.params@ + tree_params(h.children@)
}

/// `acc` extended by the items not yet in it, each at its first occurrence.
pub open spec fn add_unique(acc: Seq<Seq<char>>, items: Seq<Seq<char>>) -> Seq<Seq<char>>
    decreases items.len(),
{
    if items.len() == 0 {
        acc
    } else {
        let a = add_unique(acc, items.drop_last());
        if a.contains(items.last()) {
            a
        } else {
            a.push(items.last())
        }
    }
}

/// Adding the items of `a + b` adds those of `a` and then those of `b`.
pub proof fn lemma_add_unique_concat(acc: Seq<Seq<char>>, a: Seq<Seq<char>>, b: Seq<Seq<char>>)
    ensures
        add_unique(acc, a + b) == add_unique(add_unique(acc, a), b),
    decreases b.len(),
{
    if b.len() == 0 {
        assert(a + b =~= a);
    } else {
        lemma_add_unique_concat(acc, a, b.drop_last());
        assert((a + b).drop_last() =~= a + b.drop_last());
        assert((a + b).last() == b.last());
    }
}

/// The types of the parameters with the given extractor, in order.
pub open spec fn types_with(params: Seq<ParamMeta>, extractor: Seq<char>) -> Seq<Seq<char>>
    decreases params.len(),
{
    if params.len() == 0 {
        Seq::empty()
    } else {
        let rest = types_with(params.drop_last(), extractor);
        if params.last().extractor@ == extractor {
            rest.push(params.last().ty@)
        } else {
            rest
        }
    }
}

proof fn lemma_types_with_concat(a: Seq<ParamMeta>, b: Seq<ParamMeta>, e: Seq<char>)
    ensures
        types_with(a + b, e) == types_with(a, e) + types_with(b, e),
    decreases b.len(),
{
    if b.len() == 0 {
        assert(a + b =~= a);
        assert(types_with(a, e) + types_with(b, e) =~= types_with(a, e));
    } else {
        lemma_types_with_concat(a, b.drop_last(), e);
        assert((a + b).drop_last() =~= a + b.drop_last());
        assert((a + b).last() == b.last());
        if b.last().extractor@ == e {
            assert(types_with(a, e) + types_with(b, e) =~= (types_with(a, e) + types_with(
                b.drop_last(),
                e,
            )).push(b.last().ty@));
        }
    }
}

/// The distinct Custom extractor types of a handler tree, in the order of
/// their first appearance.
pub open spec fn customs_of(hs: Seq<Handler>) -> Seq<Seq<char>> {
    add_unique(Seq::empty(), types_with(tree_params(hs), "Custom"@))
}

/// Adds to `acc` the distinct types of parameters with extractor `e` met in
/// the parameters `params`.
fn add_param_types(params: &Vec<ParamMeta>, e: &str, acc: &mut Vec<String>)
    ensures
        views(final(acc)@) == add_unique(views(old(acc)@), types_with(params@, e@)),
{
    let mut i: usize = 0;
    while i < params.len()
        invariant
            i <= params@.len(),
            views(acc@) == add_unique(views(old(acc)@), types_with(params@.subrange(0, i as int), e@)),
        decreases params@.len() - i,
    {
        let p = &params[i];
        proof {
            assert(params@.subrange(0, i + 1).drop_last() =~= params@.subrange(0, i as int));
            assert(params@.subrange(0, i + 1).last() == params@[i as int]);
        }
        let ghost pre = types_with(params@.subrange(0, i as int), e@);
        let ghost post = types_with(params@.subrange(0, i + 1), e@);
        if str_eq(p.extractor.as_str(), e) {
            assert(post == pre.push(p.ty@));
            assert(post.drop_last() =~= pre);
            if !contains_str(acc, p.ty.as_str()) {
                let ghost before = acc@;
                acc.push(owned(p.ty.as_str()));
                assert(views(acc@) =~= views(before).push(p.ty@));
            }
        } else {
            assert(post == pre);
        }
        i = i + 1;
    }
    assert(params@.subrange(0, params@.len() as int) =~= params@);
}

/// Adds to `acc` the distinct types of parameters with extractor `e` met in
/// a depth-first walk of the handler tree `handlers`.
fn collect_types_recursive(handlers: &Vec<Handler>, e: &str, acc: &mut Vec<String>)
    ensures
        views(final(acc)@) == add_unique(views(old(acc)@), types_with(tree_params(handlers@), e@)),
    decreases handlers,
{
    let mut i: usize = 0;
    while i < handlers.len()
        invariant
            i <= handlers@.len(),
            views(acc@) == add_unique(
                views(old(acc)@),
                types_with(tree_params(handlers@.subrange(0, i as int)), e@),
            ),
        decreases handlers@.len() - i,
    {
        let h = &handlers[i];
        let ghost a0 = views(acc@);
        add_param_types(&h.meta.params, e, acc);
        let ghost a1 = views(acc@);
        assert(decreases_to!(handlers => h.children));
        collect_types_recursive(&h.children, e, acc);
        proof {
            let pre = handlers@.subrange(0, i as int);
            let post = handlers@.subrange(0, i + 1);
            assert(post.drop_last() =~= pre);
            assert(post.last() == *h);
            lemma_types_with_concat(tree_params(pre), node_params(*h), e@);
            lemma_types_with_concat(h.meta.params@, tree_params(h.children@), e@);
            lemma_add_unique_concat(
                views(old(acc)@),
                types_with(tree_params(pre), e@),
                types_with(node_params(*h), e@),
            );
            lemma_add_unique_concat(
                a0,
                types_with(h.meta.params@, e@),
                types_with(tree_params(h.children@), e@),
            );
        }
        i = i + 1;
    }
    assert(handlers@.subrange(0, handlers@.len() as int) =~= handlers@);
}

/// The distinct types of the parameters with extractor `e` in a handler
/// tree, in depth-first order of first occurrence.
pub fn collect_types(handlers: &Vec<Handler>, e: &str) -> (r: Vec<String>)
    ensures
        views(r@) == add_unique(Seq::empty(), types_with(tree_params(handlers@), e@)),
{
    let mut acc: Vec<String> = Vec::new();
    proof {
        assert(views(acc@) =~= Seq::<Seq<char>>::empty());
    }
    collect_types_recursive(handlers, e, &mut acc);
    acc
}

/// Collects all unique Custom extractor types from the handler tree depth-first.
pub fn collect_customs(handlers: &Vec<Handler>) -> (r: Vec<String>)
    ensures
        views(r@) == customs_of(handlers@),
{
    let mut customs: Vec<String> = Vec::new();
    proof {
        assert(views(customs@) =~= Seq::<Seq<char>>::empty());
    }
    collect_types_recursive(handlers, "Custom", &mut customs);
    customs
}

/// The position of `x` in `s`, or 0 when it does not occur.
pub open spec fn position_or_zero(s: Seq<Seq<char>>, x: Seq<char>) -> nat
    decreases s.len(),
{
    if s.len() == 0 {
        0
    } else if s[0] == x {
        0
    } else if s.drop_first().contains(x) {
        1 + position_or_zero(s.drop_first(), x)
    } else {
        0
    }
}

/// Returns the index of a Custom type among the tree's distinct Custom
/// types, or 0 when the type is not among them.
pub fn custom_index(handlers: &Vec<Handler>, ty: &str) -> (r: usize)
    ensures
        r == position_or_zero(customs_of(handlers@), ty@),
{
    let customs = collect_customs(handlers);
    let mut i: usize = 0;
    proof {
        let s = views(customs@);
        assert(s.skip(0) =~= s);
        if !s.contains(ty@) && s.len() > 0 {
            assert(s[0] != ty@);
        }
    }
    while i < customs.len()
        invariant
            views(customs@) == customs_of(handlers@),
            i <= customs@.len(),
            forall|j: int| 0 <= j < i ==> customs@[j]@ != ty@,
            position_or_zero(customs_of(handlers@), ty@) == if views(customs@).skip(
                i as int,
            ).contains(ty@) {
                i + position_or_zero(views(customs@).skip(i as int), ty@)
            } else {
                0
            },
        decreases customs@.len() - i,
    {
        if str_eq(customs[i].as_str(), ty) {
            assert(views(customs@).skip(i as int)[0] == ty@);
            assert(views(customs@).skip(i as int).contains(ty@));
            return i;
        }
        proof {
            let s = views(customs@).skip(i as int);
            assert(s.drop_first() =~= views(customs@).skip(i + 1));
            assert(s[0] == customs@[i as int]@);
            if s.contains(ty@) {
                let k = choose|k: int| 0 <= k < s.len() && s[k] == ty@;
                assert(k != 0);
                assert(s.drop_first()[k - 1] == ty@);
            }
            if s.drop_first().contains(ty@) {
                let k = choose|k: int| 0 <= k < s.drop_first().len() && s.drop_first()[k] == ty@;
                assert(s[k + 1] == ty@);
            }
        }
        i = i + 1;
    }
    0
}

/// The types of the Header extractors of a tree, without filtering.
pub open spec fn headers_of(hs: Seq<Handler>) -> Seq<Seq<char>> {
    add_unique(Seq::empty(), types_with(tree_params(hs), "Header"@))
}

/// Collects all unique Header extractor types from the handler tree depth-first.
pub fn collect_headers(handlers: &Vec<Handler>) -> (r: Vec<String>)
    ensures
        views(r@) == headers_of(handlers@),
{
    let mut headers: Vec<String> = Vec::new();
    proof {
        assert(views(headers@) =~= Seq::<Seq<char>>::empty());
    }
    collect_types_recursive(handlers, "Header", &mut headers);
    headers
}

/// Whether some handler of the tree caches its responses.
pub open spec fn any_cache(hs: Seq<Handler>) -> bool
    decreases hs,
{
    if hs.len() == 0 {
        false
    } else {
        any_cache(hs.drop_last()) || hs.last().meta.cache_seconds > 0 || any_cache(
            hs.last().children@,
        )
    }
}

proof fn lemma_any_cache_prefix(hs: Seq<Handler>, i: int)
    requires
        0 <= i < hs.len(),
    ensures
        any_cache(hs.subrange(0, i + 1)) == (any_cache(hs.subrange(0, i)) || hs[i].meta.cache_seconds
            > 0 || any_cache(hs[i].children@)),
{
    assert(hs.subrange(0, i + 1).drop_last() =~= hs.subrange(0, i));
}

/// Returns `true` if any handler in the tree has `cache_seconds > 0`.
pub fn has_cache_handlers(handlers: &Vec<Handler>) -> (r: bool)
    ensures
        r == any_cache(handlers@),
    decreases handlers,
{
    let mut i: usize = 0;
    while i < handlers.len()
        invariant
            i <= handlers@.len(),
            !any_cache(handlers@.subrange(0, i as int)),
        decreases handlers@.len() - i,
    {
        let h = &handlers[i];
        proof {
            lemma_any_cache_prefix(handlers@, i as int);
        }
        if h.meta.cache_seconds > 0 {
            proof {
                lemma_any_cache_mono(handlers@, i + 1);
            }
            return true;
        }
        assert(decreases_to!(handlers => h.children));
        if has_cache_handlers(&h.children) {
            proof {
                lemma_any_cache_mono(handlers@, i + 1);
            }
            return true;
        }
        i = i + 1;
    }
    assert(handlers@.subrange(0, handlers@.len() as int) =~= handlers@);
    false
}

proof fn lemma_any_cache_mono(hs: Seq<Handler>, k: int)
    requires
        0 <= k <= hs.len(),
        any_cache(hs.subrange(0, k)),
    ensures
        any_cache(hs),
    decreases hs.len() - k,
{
    if k < hs.len() {
        lemma_any_cache_prefix(hs, k);
        lemma_any_cache_mono(hs, k + 1);
    } else {
        assert(hs.subrange(0, k) =~= hs);
    }
}

/// Whether some handler of the tree is an ordinary HTTP handler.
pub open spec fn any_ordinary(hs: Seq<Handler>) -> bool
    decreases hs,
{
    if hs.len() == 0 {
        false
    } else {
        any_ordinary(hs.drop_last()) || hs.last().meta.is_ordinary || any_ordinary(
            hs.last().children@,
        )
    }
}

proof fn lemma_any_ordinary_mono(hs: Seq<Handler>, k: int)
    requires
        0 <= k <= hs.len(),
        any_ordinary(hs.subrange(0, k)),
    ensures
        any_ordinary(hs),
    decreases hs.len() - k,
{
    if k < hs.len() {
        assert(hs.subrange(0, k + 1).drop_last() =~= hs.subrange(0, k));
        lemma_any_ordinary_mono(hs, k + 1);
    } else {
        assert(hs.subrange(0, k) =~= hs);
    }
}

/// Returns `true` if any handler in the tree is an ordinary HTTP handler.
pub fn has_ordinary_handlers(handlers: &Vec<Handler>) -> (r: bool)
    ensures
        r == any_ordinary(handlers@),
    decreases handlers,
{
    let mut i: usize = 0;
    while i < handlers.len()
        invariant
            i <= handlers@.len(),
            !any_ordinary(handlers@.subrange(0, i as int)),
        decreases handlers@.len() - i,
    {
        let h = &handlers[i];
        assert(handlers@.subrange(0, i + 1).drop_last() =~= handlers@.subrange(0, i as int));
        if h.meta.is_ordinary {
            proof {
                lemma_any_ordinary_mono(handlers@, i + 1);
            }
            return true;
        }
        assert(decreases_to!(handlers => h.children));
        if has_ordinary_handlers(&h.children) {
            proof {
                lemma_any_ordinary_mono(handlers@, i + 1);
            }
            return true;
        }
        i = i + 1;
    }
    assert(handlers@.subrange(0, handlers@.len() as int) =~= handlers@);
    false
}


proof fn lemma_add_unique_props(acc: Seq<Seq<char>>, items: Seq<Seq<char>>)
    requires
        acc.no_duplicates(),
    ensures
        add_unique(acc, items).no_duplicates(),
        forall|x: Seq<char>| #[trigger] add_unique(acc, items).contains(x) <==> (acc.contains(x) || items.contains(x)),
    decreases items.len(),
{
    if items.len() > 0 {
        let rest = items.drop_last();
        lemma_add_unique_props(acc, rest);
        let a = add_unique(acc, rest);
        assert forall|x: Seq<char>| #[trigger] items.contains(x) <==> (rest.contains(x) || x == items.last()) by {
            if items.contains(x) {
                let k = choose|k: int| 0 <= k < items.len() && items[k] == x;
                if k < items.len() - 1 {
                    assert(rest[k] == x);
                }
            }
            if rest.contains(x) {
                let k = choose|k: int| 0 <= k < rest.len() && rest[k] == x;
                assert(items[k] == x);
            }
            if x == items.last() {
                assert(items[items.len() - 1] == x);
            }
        }
        if !a.contains(items.last()) {
            let b = a.push(items.last());
            assert forall|x: Seq<char>| #[trigger] b.contains(x) <==> (a.contains(x) || x == items.last()) by {
                if b.contains(x) {
                    let k = choose|k: int| 0 <= k < b.len() && b[k] == x;
                    if k < a.len() {
                        assert(a[k] == x);
                    }
                }
                if a.contains(x) {
                    let k = choose|k: int| 0 <= k < a.len() && a[k] == x;
                    assert(b[k] == x);
                }
                if x == items.last() {
                    assert(b[a.len() as int] == x);
                }
            }
        }
    }
}

/// The types collected for an extractor are listed once each: a type is
/// listed exactly when some parameter of the tree has it with that
/// extractor.
pub proof fn law_collected_types_distinct_and_complete(hs: Seq<Handler>, e: Seq<char>)
    ensures
        add_unique(Seq::empty(), types_with(tree_params(hs), e)).no_duplicates(),
        forall|t: Seq<char>| #[trigger] add_unique(Seq::empty(), types_with(tree_params(hs), e)).contains(t)
            <==> types_with(tree_params(hs), e).contains(t),
{
    lemma_add_unique_props(Seq::empty(), types_with(tree_params(hs), e));
}

/// The Custom types of a tree are listed once each: a type is listed
/// exactly when some parameter of the tree has it with the Custom
/// extractor.
pub proof fn law_customs_distinct_and_complete(hs: Seq<Handler>)
    ensures
        customs_of(hs).no_duplicates(),
        forall|t: Seq<char>| #[trigger] customs_of(hs).contains(t) <==> types_with(tree_params(hs), "Custom"@).contains(t),
{
    lemma_add_unique_props(Seq::empty(), types_with(tree_params(hs), "Custom"@));
}

proof fn lemma_position_finds(s: Seq<Seq<char>>, x: Seq<char>)
    requires
        s.contains(x),
    ensures
        position_or_zero(s, x) < s.len(),
        s[position_or_zero(s, x) as int] == x,
    decreases s.len(),
{
    if s[0] != x {
        let k = choose|k: int| 0 <= k < s.len() && s[k] == x;
        assert(k > 0);
        assert(s.drop_first()[k - 1] == x);
        lemma_position_finds(s.drop_first(), x);
    }
}

/// The index a client is given for a Custom type of the tree designates
/// that type among the tree's distinct Custom types.
pub proof fn law_custom_index_designates_type(hs: Seq<Handler>, ty: Seq<char>)
    requires
        customs_of(hs).contains(ty),
    ensures
        position_or_zero(customs_of(hs), ty) < customs_of(hs).len(),
        customs_of(hs)[position_or_zero(customs_of(hs), ty) as int] == ty,
{
    lemma_position_finds(customs_of(hs), ty);
}

} // verus!
