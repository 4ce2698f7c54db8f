//! Run-time tests of the conditions the generators require of their
//! metadata: each tells whether the generator can handle it, exactly.

use vstd::prelude::*;
use crate::cs::exports::{exports_ok, prefix_ok};
use crate::cs::objects::{object_ok, objects_within};
use crate::js::objects::js_object_ok;
use crate::cs::ordinary::ordinary_return_ok;
use crate::meta_spec::{
    field_ok, field_size, fields_ok, fields_size, handler_meta_ok, lemma_field_size_le, lemma_variant_size_le,
    param_ok, tag_ok, tag_size, tree_ok, variants_ok, variants_size,
};
use crate::model::{EnumVariantMeta, FieldMeta, Handler, HandlerMeta, TagKind, TagMeta};
use crate::naming::{
    ascii_run, first_overlap, handler_prefix, handler_prefix_of, is_ascii_char, lemma_ascii_run, lemma_first_overlap_skip,
    overlap_limit, prefixed_type_ok,
};
use crate::rs::codec::ov_ok;
use crate::rs::methods::{rs_meta_ok, rs_return_type, rs_return_type_of};
use crate::rs::service::rs_tree_ok;
use crate::text::{chars_of, owned, starts_with, string_of_range, views};
use crate::typemap::{
    check_inner, inner_of, inner_ok, inner_type, is_option, is_vec, json_inner, lemma_normalize_len, normalize,
    normalize_rust_type, raw_ok, type_ok, unwrap_json_type,
};

verus! {

/// Whether every `Option<..>` and `Vec<..>` met while descending into the
/// normalised type `ty` can be cut out.
pub fn type_is_ok(ty: &str) -> (r: bool)
    ensures
        r == type_ok(ty@),
    decreases ty@.len(),
{
    proof {
        reveal_strlit("Option<");
        reveal_strlit("Vec<");
        lemma_normalize_len(ty@);
    }
    let n = normalize_rust_type(ty);
    if starts_with(n.as_str(), "Option<") {
        if check_inner(n.as_str(), 7) {
            let inner = inner_type(n.as_str(), 7);
            type_is_ok(inner.as_str())
        } else {
            false
        }
    } else if starts_with(n.as_str(), "Vec<") {
        if check_inner(n.as_str(), 4) {
            let inner = inner_type(n.as_str(), 4);
            type_is_ok(inner.as_str())
        } else {
            false
        }
    } else {
        true
    }
}

/// Whether every `Option<..>` and `Vec<..>` at the front of the type as
/// written can be cut out.
pub fn raw_is_ok(ty: &str) -> (r: bool)
    ensures
        r == raw_ok(ty@),
    decreases ty@.len(),
{
    proof {
        reveal_strlit("Option<");
        reveal_strlit("Vec<");
    }
    if starts_with(ty, "Option<") {
        if check_inner(ty, 7) {
            let inner = inner_type(ty, 7);
            raw_is_ok(inner.as_str())
        } else {
            false
        }
    } else if starts_with(ty, "Vec<") {
        if check_inner(ty, 4) {
            let inner = inner_type(ty, 4);
            raw_is_ok(inner.as_str())
        } else {
            false
        }
    } else {
        true
    }
}

/// Whether a tagged type and everything nested in it is well formed.
pub fn tag_is_ok(m: &TagMeta) -> (r: bool)
    ensures
        r == tag_ok(*m),
    decreases tag_size(*m), 0nat,
{
    match &m.kind {
        TagKind::Struct(fs) => {
            assert(fields_size(fs@) < tag_size(*m));
            fields_are_ok(fs)
        },
        TagKind::Enum(vs) => {
            assert(variants_size(vs@) < tag_size(*m));
            variants_are_ok(vs)
        },
    }
}

fn field_is_ok(f: &FieldMeta) -> (r: bool)
    ensures
        r == field_ok(*f),
    decreases field_size(*f), 1nat,
{
    if !type_is_ok(f.ty.as_str()) || !raw_is_ok(f.ty.as_str()) {
        return false;
    }
    match &f.structure {
        Some(s) => {
            assert(tag_size(**s) == field_size(*f));
            tag_is_ok(s)
        },
        None => true,
    }
}

proof fn lemma_fields_ok_prefix(fs: Seq<FieldMeta>, i: int)
    requires
        0 <= i < fs.len(),
    ensures
        fields_ok(fs.subrange(0, i + 1)) == (fields_ok(fs.subrange(0, i)) && field_ok(fs[i])),
{
    let s = fs.subrange(0, i + 1);
    assert(s.drop_last() =~= fs.subrange(0, i));
}

fn fields_are_ok(fs: &Vec<FieldMeta>) -> (r: bool)
    ensures
        r == fields_ok(fs@),
    decreases fields_size(fs@), 2nat,
{
    let mut i: usize = 0;
    assert(fs@.subrange(0, 0) =~= Seq::<FieldMeta>::empty());
    while i < fs.len()
        invariant
            i <= fs@.len(),
            fields_ok(fs@.subrange(0, i as int)),
        decreases fs@.len() - i,
    {
        proof {
            lemma_field_size_le(fs@, i as int);
            lemma_fields_ok_prefix(fs@, i as int);
        }
        if !field_is_ok(&fs[i]) {
            proof {
                lemma_fields_ok_all(fs@, i as int);
            }
            return false;
        }
        i = i + 1;
    }
    assert(fs@.subrange(0, fs@.len() as int) =~= fs@);
    true
}

proof fn lemma_fields_ok_all(fs: Seq<FieldMeta>, i: int)
    requires
        0 <= i < fs.len(),
        !field_ok(fs[i]),
    ensures
        !fields_ok(fs),
    decreases fs.len(),
{
    if i < fs.len() - 1 {
        lemma_fields_ok_all(fs.drop_last(), i);
    }
}

proof fn lemma_variants_ok_all(vs: Seq<EnumVariantMeta>, i: int)
    requires
        0 <= i < vs.len(),
        !fields_ok(vs[i].fields@),
    ensures
        !variants_ok(vs),
    decreases vs.len(),
{
    if i < vs.len() - 1 {
        lemma_variants_ok_all(vs.drop_last(), i);
    }
}

fn variants_are_ok(vs: &Vec<EnumVariantMeta>) -> (r: bool)
    ensures
        r == variants_ok(vs@),
    decreases variants_size(vs@), 3nat,
{
    let mut i: usize = 0;
    assert(vs@.subrange(0, 0) =~= Seq::<EnumVariantMeta>::empty());
    while i < vs.len()
        invariant
            i <= vs@.len(),
            variants_ok(vs@.subrange(0, i as int)),
        decreases vs@.len() - i,
    {
        proof {
            lemma_variant_size_le(vs@, i as int);
            assert(vs@.subrange(0, i + 1).drop_last() =~= vs@.subrange(0, i as int));
        }
        if !fields_are_ok(&vs[i].fields) {
            proof {
                lemma_variants_ok_all(vs@, i as int);
            }
            return false;
        }
        i = i + 1;
    }
    assert(vs@.subrange(0, vs@.len() as int) =~= vs@);
    true
}

/// Whether a handler's return type, parameters and structures are well
/// formed.
pub fn handler_meta_is_ok(meta: &HandlerMeta) -> (r: bool)
    ensures
        r == handler_meta_ok(*meta),
{
    if !type_is_ok(meta.return_type.as_str()) {
        return false;
    }
    let ps = &meta.params;
    let mut i: usize = 0;
    while i < ps.len()
        invariant
            i <= ps@.len(),
            ps == &meta.params,
            forall|j: int| 0 <= j < i ==> #[trigger] param_ok(ps@[j]),
        decreases ps@.len() - i,
    {
        let p = &ps[i];
        let ok = type_is_ok(p.ty.as_str()) && raw_is_ok(p.ty.as_str()) && match &p.structure {
            Some(s) => tag_is_ok(s),
            None => true,
        };
        if !ok {
            assert(!param_ok(ps@[i as int]));
            return false;
        }
        i = i + 1;
    }
    match &meta.return_structure {
        Some(s) => tag_is_ok(s),
        None => true,
    }
}

proof fn lemma_tree_ok_fails(hs: Seq<Handler>, i: int)
    requires
        0 <= i < hs.len(),
        !handler_meta_ok(hs[i].meta) || !tree_ok(hs[i].children@),
    ensures
        !tree_ok(hs),
    decreases hs.len(),
{
    if i < hs.len() - 1 {
        lemma_tree_ok_fails(hs.drop_last(), i);
    }
}

/// Whether every handler of a tree is well formed.
pub fn tree_is_ok(handlers: &Vec<Handler>) -> (r: bool)
    ensures
        r == tree_ok(handlers@),
    decreases handlers,
{
    let mut i: usize = 0;
    while i < handlers.len()
        invariant
            i <= handlers@.len(),
            tree_ok(handlers@.subrange(0, i as int)),
        decreases handlers@.len() - i,
    {
        let h = &handlers[i];
        proof {
            assert(handlers@.subrange(0, i + 1).drop_last() =~= handlers@.subrange(0, i as int));
            assert(handlers@.subrange(0, i + 1).last() == *h);
        }
        assert(decreases_to!(handlers => h.children));
        if !handler_meta_is_ok(&h.meta) || !tree_is_ok(&h.children) {
            proof {
                lemma_tree_ok_fails(handlers@, i as int);
            }
            return false;
        }
        i = i + 1;
    }
    assert(handlers@.subrange(0, handlers@.len() as int) =~= handlers@);
    true
}

/// Whether the named services' handler trees are all well formed.
pub fn services_are_ok(services: &Vec<crate::model::Service>) -> (r: bool)
    ensures
        r == crate::cs::common::services_ok(services@),
{
    let mut i: usize = 0;
    while i < services.len()
        invariant
            i <= services@.len(),
            forall|j: int| 0 <= j < i && #[trigger] services@[j].name@.len() > 0 ==> tree_ok(services@[j].handlers@),
        decreases services@.len() - i,
    {
        let s = &services[i];
        if s.name.unicode_len() > 0 && !tree_is_ok(&s.handlers) {
            assert(services@[i as int].name@.len() > 0);
            return false;
        }
        i = i + 1;
    }
    true
}

/// Whether a type name can be prefixed: the scan for an overlap stops at
/// an overlap or at the end of the prefix's ASCII characters.
pub fn prefixed_type_is_ok(prefix: &str, ty_name: &str) -> (r: bool)
    ensures
        r == prefixed_type_ok(prefix@, ty_name@),
{
    if starts_with(ty_name, prefix) {
        return true;
    }
    let pv = chars_of(prefix);
    let n = pv.len();
    let mut m: usize = 0;
    while m < n && (pv[m] as u32) < 128
        invariant
            pv@ == prefix@,
            n == pv@.len(),
            m <= n,
            forall|j: int| 0 <= j < m ==> is_ascii_char(pv@[j]),
        decreases n - m,
    {
        m = m + 1;
    }
    proof {
        lemma_ascii_run(prefix@, m as int);
    }
    if m == n {
        return true;
    }
    let lim: usize = m + 1;
    let mut k: usize = 1;
    while k < lim
        invariant
            pv@ == prefix@,
            lim == overlap_limit(prefix@),
            lim <= n,
            n == pv@.len(),
            1 <= k,
            ascii_run(prefix@) != prefix@.len(),
            !prefix@.is_prefix_of(ty_name@),
            forall|j: int| 1 <= j < k ==> !prefix@.skip(j).is_prefix_of(ty_name@),
        decreases lim - k,
    {
        let suffix = string_of_range(&pv, k, n);
        assert(suffix@ =~= prefix@.skip(k as int));
        if starts_with(ty_name, suffix.as_str()) {
            proof {
                lemma_first_overlap_skip(prefix@, ty_name@, k as int, lim as int);
            }
            return true;
        }
        k = k + 1;
    }
    proof {
        if lim >= 1 {
            lemma_first_overlap_skip(prefix@, ty_name@, if k > lim { lim as int } else { k as int }, lim as int);
        }
    }
    false
}

/// Whether the type names of a handler's request and return types can be
/// formed with `prefix`.
pub fn prefix_is_ok(prefix: &str, meta: &HandlerMeta) -> (r: bool)
    ensures
        r == prefix_ok(prefix@, *meta),
{
    let ps = &meta.params;
    let mut i: usize = 0;
    while i < ps.len()
        invariant
            i <= ps@.len(),
            ps == &meta.params,
            forall|j: int|
                0 <= j < i && #[trigger] ps@[j].structure is Some ==> prefixed_type_ok(
                    prefix@,
                    ps@[j].structure->0.name@,
                ),
        decreases ps@.len() - i,
    {
        match &ps[i].structure {
            Some(s) => {
                if !prefixed_type_is_ok(prefix, s.name.as_str()) {
                    assert(ps@[i as int].structure is Some);
                    return false;
                }
            },
            None => {},
        }
        i = i + 1;
    }
    match &meta.return_structure {
        Some(s) => prefixed_type_is_ok(prefix, s.name.as_str()),
        None => true,
    }
}

fn child_path_of(path: &Vec<String>, name: &str) -> (r: Vec<String>)
    ensures
        views(r@) == views(path@).push(name@),
{
    let mut r: Vec<String> = path.clone();
    let ghost p0 = r@;
    r.push(owned(name));
    assert(views(r@) =~= views(path@).push(name@)) by {
        assert(views(p0) =~= views(path@));
    }
    r
}

proof fn lemma_exports_fail(hs: Seq<Handler>, path: Seq<Seq<char>>, i: int)
    requires
        0 <= i < hs.len(),
        !({
            let cp = path.push(hs[i].name@);
            &&& handler_meta_ok(hs[i].meta)
            &&& (hs[i].meta.name@.len() > 0 ==> prefix_ok(handler_prefix_of(cp), hs[i].meta))
            &&& exports_ok(hs[i].children@, cp)
        }),
    ensures
        !exports_ok(hs, path),
    decreases hs.len(),
{
    if i < hs.len() - 1 {
        lemma_exports_fail(hs.drop_last(), path, i);
    }
}

/// Whether the types of every handler of the tree below `path` can be
/// declared.
pub fn exports_are_ok(handlers: &Vec<Handler>, path: &Vec<String>) -> (r: bool)
    ensures
        r == exports_ok(handlers@, views(path@)),
    decreases handlers,
{
    let mut i: usize = 0;
    while i < handlers.len()
        invariant
            i <= handlers@.len(),
            exports_ok(handlers@.subrange(0, i as int), views(path@)),
        decreases handlers@.len() - i,
    {
        let h = &handlers[i];
        proof {
            assert(handlers@.subrange(0, i + 1).drop_last() =~= handlers@.subrange(0, i as int));
            assert(handlers@.subrange(0, i + 1).last() == *h);
        }
        let cp = child_path_of(path, h.name.as_str());
        let mut ok = handler_meta_is_ok(&h.meta);
        if ok && h.meta.name.unicode_len() > 0 {
            let prefix = handler_prefix(&cp);
            ok = prefix_is_ok(prefix.as_str(), &h.meta);
        }
        assert(decreases_to!(handlers => h.children));
        if ok {
            ok = exports_are_ok(&h.children, &cp);
        }
        if !ok {
            proof {
                lemma_exports_fail(handlers@, views(path@), i as int);
            }
            return false;
        }
        i = i + 1;
    }
    assert(handlers@.subrange(0, handlers@.len() as int) =~= handlers@);
    true
}

/// Whether the JSON return type of an ordinary handler can be mapped.
pub fn ordinary_return_is_ok(meta: &HandlerMeta) -> (r: bool)
    ensures
        r == ordinary_return_ok(*meta),
{
    if meta.return_structure.is_some() {
        return true;
    }
    match unwrap_json_type(meta.return_type.as_str()) {
        Some(inner) => type_is_ok(inner.as_str()),
        None => {
            let n = normalize_rust_type(meta.return_type.as_str());
            type_is_ok(n.as_str())
        },
    }
}

proof fn lemma_objects_fail(hs: Seq<Handler>, path: Seq<Seq<char>>, limit: int, i: int)
    requires
        0 <= i < hs.len(),
        !({
            let h = hs[i];
            let cp = path.push(h.name@);
            &&& (h.meta.name@.len() > 0 ==> {
                &&& handler_meta_ok(h.meta)
                &&& h.meta.cache_seconds <= limit
                &&& (h.meta.is_ordinary ==> ordinary_return_ok(h.meta))
                &&& (!h.meta.is_ordinary ==> prefix_ok(handler_prefix_of(cp), h.meta))
            })
            &&& objects_within(h.children@, cp, limit)
        }),
    ensures
        !objects_within(hs, path, limit),
    decreases hs.len(),
{
    if i < hs.len() - 1 {
        lemma_objects_fail(hs.drop_last(), path, limit, i);
    }
}

/// Whether every handler of the tree below `path` can be turned into a
/// method whose cache lifetime is at most `limit` seconds.
pub fn objects_within_limit(handlers: &Vec<Handler>, path: &Vec<String>, limit: u64) -> (r: bool)
    ensures
        r == objects_within(handlers@, views(path@), limit as int),
    decreases handlers,
{
    let mut i: usize = 0;
    while i < handlers.len()
        invariant
            i <= handlers@.len(),
            objects_within(handlers@.subrange(0, i as int), views(path@), limit as int),
        decreases handlers@.len() - i,
    {
        let h = &handlers[i];
        proof {
            assert(handlers@.subrange(0, i + 1).drop_last() =~= handlers@.subrange(0, i as int));
            assert(handlers@.subrange(0, i + 1).last() == *h);
        }
        let cp = child_path_of(path, h.name.as_str());
        let mut ok = true;
        if h.meta.name.unicode_len() > 0 {
            ok = handler_meta_is_ok(&h.meta) && h.meta.cache_seconds <= limit;
            if ok {
                if h.meta.is_ordinary {
                    ok = ordinary_return_is_ok(&h.meta);
                } else {
                    let prefix = handler_prefix(&cp);
                    ok = prefix_is_ok(prefix.as_str(), &h.meta);
                }
            }
        }
        assert(decreases_to!(handlers => h.children));
        if ok {
            ok = objects_within_limit(&h.children, &cp, limit);
        }
        if !ok {
            proof {
                lemma_objects_fail(handlers@, views(path@), limit as int, i as int);
            }
            return false;
        }
        i = i + 1;
    }
    assert(handlers@.subrange(0, handlers@.len() as int) =~= handlers@);
    true
}

/// Whether every handler of the tree below `path` can be turned into a C#
/// method.
pub fn objects_are_ok(handlers: &Vec<Handler>, path: &Vec<String>) -> (r: bool)
    ensures
        r == object_ok(handlers@, views(path@)),
{
    objects_within_limit(handlers, path, 1844674407370)
}

/// Whether every handler of the tree below `path` can be turned into a
/// JavaScript method.
pub fn js_objects_are_ok(handlers: &Vec<Handler>, path: &Vec<String>) -> (r: bool)
    ensures
        r == js_object_ok(handlers@, views(path@)),
{
    objects_within_limit(handlers, path, 18446744073709551)
}

/// Whether a Rust override name can be cut out of each `Option<..>` it
/// names.
pub fn override_is_ok(o: &str) -> (r: bool)
    ensures
        r == ov_ok(o@),
    decreases o@.len(),
{
    proof {
        reveal_strlit("Option<");
        lemma_normalize_len(o@);
    }
    let n = normalize_rust_type(o);
    if starts_with(n.as_str(), "Option<") {
        if check_inner(n.as_str(), 7) {
            let inner = inner_type(n.as_str(), 7);
            override_is_ok(inner.as_str())
        } else {
            false
        }
    } else {
        true
    }
}

/// Whether a handler's Rust method can be formed with `prefix`.
pub fn rs_meta_is_ok(prefix: &str, meta: &HandlerMeta) -> (r: bool)
    ensures
        r == rs_meta_ok(prefix@, *meta),
{
    if !handler_meta_is_ok(meta) || !prefix_is_ok(prefix, meta) {
        return false;
    }
    if meta.long_connection {
        return true;
    }
    let ret = rs_return_type_of(prefix, meta);
    override_is_ok(ret.as_str())
}

proof fn lemma_rs_tree_fail(hs: Seq<Handler>, path: Seq<Seq<char>>, i: int)
    requires
        0 <= i < hs.len(),
        !({
            let h = hs[i];
            let cp = path.push(h.name@);
            &&& (h.meta.name@.len() > 0 && !h.meta.is_ordinary ==> rs_meta_ok(handler_prefix_of(cp), h.meta))
            &&& rs_tree_ok(h.children@, cp)
        }),
    ensures
        !rs_tree_ok(hs, path),
    decreases hs.len(),
{
    if i < hs.len() - 1 {
        lemma_rs_tree_fail(hs.drop_last(), path, i);
    }
}

/// Whether every binary handler of the tree below `path` can be turned
/// into a Rust method.
pub fn rs_tree_is_ok(handlers: &Vec<Handler>, path: &Vec<String>) -> (r: bool)
    ensures
        r == rs_tree_ok(handlers@, views(path@)),
    decreases handlers,
{
    let mut i: usize = 0;
    while i < handlers.len()
        invariant
            i <= handlers@.len(),
            rs_tree_ok(handlers@.subrange(0, i as int), views(path@)),
        decreases handlers@.len() - i,
    {
        let h = &handlers[i];
        proof {
            assert(handlers@.subrange(0, i + 1).drop_last() =~= handlers@.subrange(0, i as int));
            assert(handlers@.subrange(0, i + 1).last() == *h);
        }
        let cp = child_path_of(path, h.name.as_str());
        let mut ok = true;
        if h.meta.name.unicode_len() > 0 && !h.meta.is_ordinary {
            let prefix = handler_prefix(&cp);
            ok = rs_meta_is_ok(prefix.as_str(), &h.meta);
        }
        assert(decreases_to!(handlers => h.children));
        if ok {
            ok = rs_tree_is_ok(&h.children, &cp);
        }
        if !ok {
            proof {
                lemma_rs_tree_fail(handlers@, views(path@), i as int);
            }
            return false;
        }
        i = i + 1;
    }
    assert(handlers@.subrange(0, handlers@.len() as int) =~= handlers@);
    true
}

/// Whether a service's C# client can be generated.
pub fn service_is_ok(svc: &crate::model::Service) -> (r: bool)
    ensures
        r == crate::cs::service::service_ok(*svc),
{
    let empty: Vec<String> = Vec::new();
    assert(views(empty@) =~= Seq::<Seq<char>>::empty());
    exports_are_ok(&svc.handlers, &empty) && objects_are_ok(&svc.handlers, &empty)
}

/// Whether a service's JavaScript client (and documentation page) can be
/// generated.
pub fn service_js_is_ok(svc: &crate::model::Service) -> (r: bool)
    ensures
        r == crate::js::service::service_js_ok(*svc),
{
    let empty: Vec<String> = Vec::new();
    assert(views(empty@) =~= Seq::<Seq<char>>::empty());
    exports_are_ok(&svc.handlers, &empty) && js_objects_are_ok(&svc.handlers, &empty)
}

/// Whether a service's Rust client can be generated.
pub fn service_rs_is_ok(svc: &crate::model::Service) -> (r: bool)
    ensures
        r == crate::rs::service::service_rs_ok(*svc),
{
    let empty: Vec<String> = Vec::new();
    assert(views(empty@) =~= Seq::<Seq<char>>::empty());
    exports_are_ok(&svc.handlers, &empty) && rs_tree_is_ok(&svc.handlers, &empty)
}

} // verus!
