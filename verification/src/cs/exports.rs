//! The C# type declarations a client file needs, each emitted once.

use vstd::prelude::*;
use crate::buf::{build_lines, CodeBuf};
use crate::cs::typedefs::{cs_type_def, cs_type_def_named, type_def};
use crate::meta_spec::{
    field_size, fields_size, lemma_field_size_le, lemma_fields_ok_at, lemma_variant_size_le,
    lemma_variants_ok_at, tag_ok, tag_size, fields_ok, variants_ok, variants_size, tree_ok,
    handler_meta_ok, param_ok, lemma_tree_ok_at, reach, reach_fields, reach_variants,
};
use crate::model::{EnumVariantMeta, FieldMeta, Handler, HandlerMeta, ParamMeta, TagKind, TagMeta};
use crate::naming::{
    handler_prefix, handler_prefix_of, ordinary_suffix, ordinary_suffix_of, prefixed, prefixed_type,
    prefixed_type_ok,
};
use crate::text::{cat2, contains_str, owned, str_eq, views};

verus! {

/// Generated lines and the names of the types already declared.
pub type Emission = (Seq<Seq<char>>, Seq<Seq<char>>);

/// `r` continues `st`: lines and names are only appended, one line for
/// every newly declared name, and no name is declared twice.
pub open spec fn extends_once(st: Emission, r: Emission) -> bool {
    &&& st.0.is_prefix_of(r.0)
    &&& st.1.is_prefix_of(r.1)
    &&& r.0.len() - st.0.len() == r.1.len() - st.1.len()
    &&& (st.1.no_duplicates() ==> r.1.no_duplicates())
}

pub(crate) proof fn lemma_extends_refl(st: Emission)
    ensures
        extends_once(st, st),
{
    assert(st.0.subrange(0, st.0.len() as int) =~= st.0);
    assert(st.1.subrange(0, st.1.len() as int) =~= st.1);
}

pub(crate) proof fn lemma_extends_trans(a: Emission, b: Emission, c: Emission)
    requires
        extends_once(a, b),
        extends_once(b, c),
    ensures
        extends_once(a, c),
{
    assert(c.0.subrange(0, a.0.len() as int) =~= a.0) by {
        assert forall|i: int| 0 <= i < a.0.len() implies c.0[i] == a.0[i] by {
            assert(c.0[i] == c.0.subrange(0, b.0.len() as int)[i]);
            assert(b.0[i] == b.0.subrange(0, a.0.len() as int)[i]);
        }
    }
    assert(c.1.subrange(0, a.1.len() as int) =~= a.1) by {
        assert forall|i: int| 0 <= i < a.1.len() implies c.1[i] == a.1[i] by {
            assert(c.1[i] == c.1.subrange(0, b.1.len() as int)[i]);
            assert(b.1[i] == b.1.subrange(0, a.1.len() as int)[i]);
        }
    }
}

/// Declaring a name that is not declared yet, with one line.
pub(crate) proof fn lemma_extends_declare(st: Emission, line: Seq<char>, name: Seq<char>)
    requires
        !st.1.contains(name),
    ensures
        extends_once(st, (st.0.push(line), st.1.push(name))),
        st.1.push(name).contains(name),
{
    let r = (st.0.push(line), st.1.push(name));
    assert(r.0.subrange(0, st.0.len() as int) =~= st.0);
    assert(r.1.subrange(0, st.1.len() as int) =~= st.1);
    assert(r.1[st.1.len() as int] == name);
    if st.1.no_duplicates() {
        assert forall|i: int, j: int| 0 <= i < r.1.len() && 0 <= j < r.1.len() && i != j implies r.1[i]
            != r.1[j] by {
            if i < st.1.len() && j < st.1.len() {
            } else if i < st.1.len() {
                assert(st.1[i] == r.1[i]);
            } else {
                assert(st.1[j] == r.1[j]);
            }
        }
    }
}

/// Every name of `xs` is among `ys`.
pub open spec fn all_in(xs: Seq<Seq<char>>, ys: Seq<Seq<char>>) -> bool {
    forall|k: int| 0 <= k < xs.len() ==> ys.contains(#[trigger] xs[k])
}

pub(crate) proof fn lemma_all_in_kept(xs: Seq<Seq<char>>, st: Emission, r: Emission)
    requires
        extends_once(st, r),
        all_in(xs, st.1),
    ensures
        all_in(xs, r.1),
{
    assert forall|k: int| 0 <= k < xs.len() implies r.1.contains(#[trigger] xs[k]) by {
        lemma_extends_keeps(st, r, xs[k]);
    }
}

pub(crate) proof fn lemma_all_in_concat(xs: Seq<Seq<char>>, zs: Seq<Seq<char>>, ys: Seq<Seq<char>>)
    requires
        all_in(xs, ys),
        all_in(zs, ys),
    ensures
        all_in(xs + zs, ys),
{
    assert forall|k: int| 0 <= k < (xs + zs).len() implies ys.contains(#[trigger] (xs + zs)[k]) by {
        if k < xs.len() {
            assert((xs + zs)[k] == xs[k]);
        } else {
            assert((xs + zs)[k] == zs[k - xs.len()]);
        }
    }
}

/// A name declared in `st` stays declared in every continuation of it.
pub(crate) proof fn lemma_extends_keeps(st: Emission, r: Emission, name: Seq<char>)
    requires
        extends_once(st, r),
        st.1.contains(name),
    ensures
        r.1.contains(name),
{
    let i = choose|i: int| 0 <= i < st.1.len() && st.1[i] == name;
    assert(r.1.subrange(0, st.1.len() as int)[i] == r.1[i]);
}

/// Declares `m` (unless a type of its name was declared already) and then,
/// depth first, every type nested in its included fields.
pub open spec fn nested(m: TagMeta, st: Emission) -> Emission
    decreases tag_size(m), 1nat, 0nat,
{
    let st1 = if !st.1.contains(m.name@) {
        (st.0.push(type_def(m.name@, m)), st.1.push(m.name@))
    } else {
        st
    };
    match m.kind {
        TagKind::Struct(fs) => nested_fields(fs@, st1),
        TagKind::Enum(vs) => nested_variants(vs@, st1),
    }
}

/// [`nested`] for the types of the included fields, in order.
pub open spec fn nested_fields(fs: Seq<FieldMeta>, st: Emission) -> Emission
    decreases fields_size(fs), 2nat, fs.len(),
{
    if fs.len() == 0 {
        st
    } else {
        let st1 = nested_fields(fs.drop_last(), st);
        let f = fs.last();
        if f.skip {
            st1
        } else {
            match f.structure {
                Some(s) => {
                    proof {
                        assert(tag_size(*s) == field_size(f));
                    }
                    nested(*s, st1)
                },
                None => st1,
            }
        }
    }
}

/// [`nested`] for the fields of every variant, in order.
pub open spec fn nested_variants(vs: Seq<EnumVariantMeta>, st: Emission) -> Emission
    decreases variants_size(vs), 3nat, vs.len(),
{
    if vs.len() == 0 {
        st
    } else {
        nested_fields(vs.last().fields@, nested_variants(vs.drop_last(), st))
    }
}

/// Emits `meta` and, recursively, the types nested in its fields, skipping
/// names already in `emitted`.
pub fn extract_nested_types_cs(meta: &TagMeta, cb: &mut CodeBuf, emitted: &mut Vec<String>)
    requires
        tag_ok(*meta),
    ensures
        (final(cb)@, views(final(emitted)@)) == nested(*meta, (old(cb)@, views(old(emitted)@))),
    decreases tag_size(*meta), 1nat, 0nat,
{
    if !contains_str(emitted, meta.name.as_str()) {
        let ghost before = emitted@;
        emitted.push(owned(meta.name.as_str()));
        assert(views(emitted@) =~= views(before).push(meta.name@));
        cb.push(cs_type_def(meta));
    }
    match &meta.kind {
        TagKind::Struct(fs) => {
            assert(fields_size(fs@) < tag_size(*meta));
            nested_fields_cs(fs, cb, emitted);
        },
        TagKind::Enum(vs) => {
            assert(variants_size(vs@) < tag_size(*meta));
            nested_variants_cs(vs, cb, emitted);
        },
    }
}

fn nested_fields_cs(fs: &Vec<FieldMeta>, cb: &mut CodeBuf, emitted: &mut Vec<String>)
    requires
        fields_ok(fs@),
    ensures
        (final(cb)@, views(final(emitted)@)) == nested_fields(fs@, (old(cb)@, views(old(emitted)@))),
    decreases fields_size(fs@), 2nat, fs@.len(),
{
    let mut i: usize = 0;
    while i < fs.len()
        invariant
            fields_ok(fs@),
            i <= fs@.len(),
            (cb@, views(emitted@)) == nested_fields(
                fs@.subrange(0, i as int),
                (old(cb)@, views(old(emitted)@)),
            ),
        decreases fs@.len() - i,
    {
        let f = &fs[i];
        proof {
            lemma_fields_ok_at(fs@, i as int);
            lemma_field_size_le(fs@, i as int);
            assert(fs@.subrange(0, i + 1).drop_last() =~= fs@.subrange(0, i as int));
            assert(fs@.subrange(0, i + 1).last() == *f);
        }
        if !f.skip {
            match &f.structure {
                Some(s) => {
                    assert(tag_size(**s) == field_size(*f));
                    extract_nested_types_cs(s, cb, emitted);
                },
                None => {},
            }
        }
        i = i + 1;
    }
    assert(fs@.subrange(0, fs@.len() as int) =~= fs@);
}

fn nested_variants_cs(vs: &Vec<EnumVariantMeta>, cb: &mut CodeBuf, emitted: &mut Vec<String>)
    requires
        variants_ok(vs@),
    ensures
        (final(cb)@, views(final(emitted)@)) == nested_variants(vs@, (old(cb)@, views(old(emitted)@))),
    decreases variants_size(vs@), 3nat, vs@.len(),
{
    let mut i: usize = 0;
    while i < vs.len()
        invariant
            variants_ok(vs@),
            i <= vs@.len(),
            (cb@, views(emitted@)) == nested_variants(
                vs@.subrange(0, i as int),
                (old(cb)@, views(old(emitted)@)),
            ),
        decreases vs@.len() - i,
    {
        proof {
            lemma_variants_ok_at(vs@, i as int);
            lemma_variant_size_le(vs@, i as int);
            assert(vs@.subrange(0, i + 1).drop_last() =~= vs@.subrange(0, i as int));
            assert(vs@.subrange(0, i + 1).last() == vs@[i as int]);
        }
        nested_fields_cs(&vs[i].fields, cb, emitted);
        i = i + 1;
    }
    assert(vs@.subrange(0, vs@.len() as int) =~= vs@);
}

/// Declaring a type declares, depth first, every type nested in its
/// included fields, each exactly once: names and typedefs are only
/// appended, one typedef for every newly declared name, no name is declared
/// twice, and every reachable type's name is declared afterwards.
pub proof fn law_nested_types_declared_once(m: TagMeta, st: Emission)
    ensures
        extends_once(st, nested(m, st)),
        all_in(reach(m), nested(m, st).1),
    decreases tag_size(m), 1nat, 0nat,
{
    let st1 = if !st.1.contains(m.name@) {
        (st.0.push(type_def(m.name@, m)), st.1.push(m.name@))
    } else {
        st
    };
    if !st.1.contains(m.name@) {
        lemma_extends_declare(st, type_def(m.name@, m), m.name@);
    } else {
        lemma_extends_refl(st);
    }
    assert(st1.1.contains(m.name@));
    let tail = match m.kind {
        TagKind::Struct(fs) => reach_fields(fs@),
        TagKind::Enum(vs) => reach_variants(vs@),
    };
    match m.kind {
        TagKind::Struct(fs) => {
            lemma_nested_fields_once(fs@, st1);
        },
        TagKind::Enum(vs) => {
            lemma_nested_variants_once(vs@, st1);
        },
    }
    let r = nested(m, st);
    lemma_extends_trans(st, st1, r);
    lemma_extends_keeps(st1, r, m.name@);
    assert(all_in(seq![m.name@], r.1));
    lemma_all_in_concat(seq![m.name@], tail, r.1);
}

proof fn lemma_nested_fields_once(fs: Seq<FieldMeta>, st: Emission)
    ensures
        extends_once(st, nested_fields(fs, st)),
        all_in(reach_fields(fs), nested_fields(fs, st).1),
    decreases fields_size(fs), 2nat, fs.len(),
{
    if fs.len() == 0 {
        lemma_extends_refl(st);
    } else {
        let st1 = nested_fields(fs.drop_last(), st);
        lemma_nested_fields_once(fs.drop_last(), st);
        let f = fs.last();
        let r = nested_fields(fs, st);
        if !f.skip && f.structure is Some {
            let s = f.structure->0;
            assert(tag_size(*s) == field_size(f));
            law_nested_types_declared_once(*s, st1);
            lemma_extends_trans(st, st1, r);
            lemma_all_in_kept(reach_fields(fs.drop_last()), st1, r);
            lemma_all_in_concat(reach_fields(fs.drop_last()), reach(*s), r.1);
        } else {
            assert(reach_fields(fs) =~= reach_fields(fs.drop_last()));
        }
    }
}

proof fn lemma_nested_variants_once(vs: Seq<EnumVariantMeta>, st: Emission)
    ensures
        extends_once(st, nested_variants(vs, st)),
        all_in(reach_variants(vs), nested_variants(vs, st).1),
    decreases variants_size(vs), 3nat, vs.len(),
{
    if vs.len() == 0 {
        lemma_extends_refl(st);
    } else {
        let st1 = nested_variants(vs.drop_last(), st);
        lemma_nested_variants_once(vs.drop_last(), st);
        let r = nested_variants(vs, st);
        lemma_nested_fields_once(vs.last().fields@, st1);
        lemma_extends_trans(st, st1, r);
        lemma_all_in_kept(reach_variants(vs.drop_last()), st1, r);
        lemma_all_in_concat(reach_variants(vs.drop_last()), reach_fields(vs.last().fields@), r.1);
    }
}

/// Declares `s` under the name `tn` unless that name is taken, recording
/// both `tn` and the type's own name, then its nested types.
pub open spec fn declare_named(tn: Seq<char>, s: TagMeta, st: Emission) -> Emission {
    if !st.1.contains(tn) {
        nested(s, (st.0.push(type_def(tn, s)), st.1.push(tn).push(s.name@)))
    } else {
        st
    }
}

/// Whether an extractor carries a handler-specific request type.
pub open spec fn is_request_extractor(e: Seq<char>) -> bool {
    e == "Data"@ || e == "Query"@ || e == "Param"@ || e == "Body"@
}

/// The types a handler's parameters declare, with the running count of
/// `Data` parameters of an ordinary handler.
pub open spec fn param_exports(prefix: Seq<char>, ordinary: bool, ps: Seq<ParamMeta>, st: Emission) -> (
    Emission,
    nat,
)
    decreases ps.len(),
{
    if ps.len() == 0 {
        (st, 0)
    } else {
        let (st1, di) = param_exports(prefix, ordinary, ps.drop_last(), st);
        let p = ps.last();
        match p.structure {
            Some(s) => if is_request_extractor(p.extractor@) {
                let tn = if ordinary {
                    prefix + ordinary_suffix_of(p.extractor@, di)
                } else {
                    prefixed(prefix, s.name@)
                };
                let di2 = if ordinary && p.extractor@ == "Data"@ {
                    di + 1
                } else {
                    di
                };
                (declare_named(tn, *s, st1), di2)
            } else {
                (st1, di)
            },
            None => (st1, di),
        }
    }
}

/// The types one handler declares: those of its request parameters, then
/// that of its return value.
pub open spec fn handler_exports(prefix: Seq<char>, meta: HandlerMeta, emitted: Seq<Seq<char>>) -> Emission {
    let st = param_exports(prefix, meta.is_ordinary, meta.params@, (Seq::empty(), emitted)).0;
    if meta.return_type@ != "()"@ {
        match meta.return_structure {
            Some(s) => {
                let tn = if meta.is_ordinary {
                    prefix + "Response"@
                } else {
                    prefixed(prefix, s.name@)
                };
                declare_named(tn, *s, st)
            },
            None => st,
        }
    } else {
        st
    }
}

/// The type names a handler's request and return types are given can be
/// formed: every structure named after `prefix` passes the overlap scan.
pub open spec fn prefix_ok(prefix: Seq<char>, meta: HandlerMeta) -> bool {
    &&& forall|i: int|
        0 <= i < meta.params@.len() && #[trigger] meta.params@[i].structure is Some
            ==> prefixed_type_ok(prefix, meta.params@[i].structure->0.name@)
    &&& meta.return_structure is Some ==> prefixed_type_ok(prefix, meta.return_structure->0.name@)
}

fn declare_named_cs(tn: &str, s: &TagMeta, cb: &mut CodeBuf, emitted: &mut Vec<String>)
    requires
        tag_ok(*s),
    ensures
        (final(cb)@, views(final(emitted)@)) == declare_named(tn@, *s, (old(cb)@, views(old(emitted)@))),
{
    if !contains_str(emitted, tn) {
        cb.push(cs_type_def_named(tn, s));
        let ghost before = emitted@;
        emitted.push(owned(tn));
        emitted.push(owned(s.name.as_str()));
        assert(views(emitted@) =~= views(before).push(tn@).push(s.name@));
        extract_nested_types_cs(s, cb, emitted);
    }
}

/// Generates the declarations of every type one handler references:
/// request types named after the handler, then the return type.
pub fn handler_type_exports_cs(prefix: &str, meta: &HandlerMeta, emitted: &mut Vec<String>) -> (r: String)
    requires
        handler_meta_ok(*meta),
        prefix_ok(prefix@, *meta),
    ensures
        (build_lines(handler_exports(prefix@, *meta, views(old(emitted)@)).0), views(final(emitted)@))
            == (r@, handler_exports(prefix@, *meta, views(old(emitted)@)).1),
{
    let mut cb = CodeBuf::new();
    let mut data_idx: usize = 0;
    let mut i: usize = 0;
    let ghost e0 = views(emitted@);
    while i < meta.params.len()
        invariant
            handler_meta_ok(*meta),
            prefix_ok(prefix@, *meta),
            i <= meta.params@.len(),
            data_idx <= i,
            ((cb@, views(emitted@)), data_idx as nat) == param_exports(
                prefix@,
                meta.is_ordinary,
                meta.params@.subrange(0, i as int),
                (Seq::empty(), e0),
            ),
        decreases meta.params@.len() - i,
    {
        let p = &meta.params[i];
        proof {
            assert(meta.params@.subrange(0, i + 1).drop_last() =~= meta.params@.subrange(0, i as int));
            assert(meta.params@.subrange(0, i + 1).last() == *p);
            assert(param_ok(meta.params@[i as int]));
        }
        match &p.structure {
            Some(s) => {
                let e = p.extractor.as_str();
                if str_eq(e, "Data") || str_eq(e, "Query") || str_eq(e, "Param") || str_eq(e, "Body") {
                    let tn = if meta.is_ordinary {
                        let suffix = ordinary_suffix(e, data_idx);
                        cat2(prefix, suffix.as_str())
                    } else {
                        prefixed_type(prefix, s.name.as_str())
                    };
                    if meta.is_ordinary && str_eq(e, "Data") {
                        data_idx = data_idx + 1;
                    }
                    declare_named_cs(tn.as_str(), s, &mut cb, emitted);
                }
            },
            None => {},
        }
        i = i + 1;
    }
    assert(meta.params@.subrange(0, meta.params@.len() as int) =~= meta.params@);
    if !str_eq(meta.return_type.as_str(), "()") {
        match &meta.return_structure {
            Some(s) => {
                let tn = if meta.is_ordinary {
                    cat2(prefix, "Response")
                } else {
                    prefixed_type(prefix, s.name.as_str())
                };
                declare_named_cs(tn.as_str(), s, &mut cb, emitted);
            },
            None => {},
        }
    }
    cb.build()
}

/// Every handler of the tree below `path` is well formed, and the type
/// names it gives can be formed from its prefix.
pub open spec fn exports_ok(hs: Seq<Handler>, path: Seq<Seq<char>>) -> bool
    decreases hs,
{
    if hs.len() == 0 {
        true
    } else {
        let h = hs.last();
        let cp = path.push(h.name@);
        &&& exports_ok(hs.drop_last(), path)
        &&& handler_meta_ok(h.meta)
        &&& (h.meta.name@.len() > 0 ==> prefix_ok(handler_prefix_of(cp), h.meta))
        &&& exports_ok(h.children@, cp)
    }
}

/// The declarations of a handler tree: for each handler, in depth-first
/// order, the block of types it declares.
pub open spec fn tree_exports(hs: Seq<Handler>, path: Seq<Seq<char>>, st: Emission) -> Emission
    decreases hs,
{
    if hs.len() == 0 {
        st
    } else {
        let st1 = tree_exports(hs.drop_last(), path, st);
        let h = hs.last();
        let cp = path.push(h.name@);
        let st2 = if h.meta.name@.len() > 0 {
            let he = handler_exports(handler_prefix_of(cp), h.meta, st1.1);
            (st1.0.push(build_lines(he.0)), he.1)
        } else {
            st1
        };
        tree_exports(h.children@, cp, st2)
    }
}

proof fn lemma_exports_ok_at(hs: Seq<Handler>, path: Seq<Seq<char>>, i: int)
    requires
        exports_ok(hs, path),
        0 <= i < hs.len(),
    ensures
        handler_meta_ok(hs[i].meta),
        hs[i].meta.name@.len() > 0 ==> prefix_ok(handler_prefix_of(path.push(hs[i].name@)), hs[i].meta),
        exports_ok(hs[i].children@, path.push(hs[i].name@)),
    decreases hs.len(),
{
    if i < hs.len() - 1 {
        lemma_exports_ok_at(hs.drop_last(), path, i);
    }
}

/// Generates the declarations of every handler's types, depth first.
pub fn collect_type_exports_cs(
    handlers: &Vec<Handler>,
    path: &Vec<String>,
    emitted: &mut Vec<String>,
    cb: &mut CodeBuf,
)
    requires
        exports_ok(handlers@, views(path@)),
    ensures
        (final(cb)@, views(final(emitted)@)) == tree_exports(
            handlers@,
            views(path@),
            (old(cb)@, views(old(emitted)@)),
        ),
    decreases handlers,
{
    let mut i: usize = 0;
    while i < handlers.len()
        invariant
            exports_ok(handlers@, views(path@)),
            i <= handlers@.len(),
            (cb@, views(emitted@)) == tree_exports(
                handlers@.subrange(0, i as int),
                views(path@),
                (old(cb)@, views(old(emitted)@)),
            ),
        decreases handlers@.len() - i,
    {
        let h = &handlers[i];
        proof {
            lemma_exports_ok_at(handlers@, views(path@), i as int);
            assert(handlers@.subrange(0, i + 1).drop_last() =~= handlers@.subrange(0, i as int));
            assert(handlers@.subrange(0, i + 1).last() == *h);
        }
        let mut child_path: Vec<String> = path.clone();
        let ghost p0 = child_path@;
        child_path.push(owned(h.name.as_str()));
        assert(views(child_path@) =~= views(path@).push(h.name@)) by {
            assert(views(p0) =~= views(path@));
        }
        let ghost cp = views(path@).push(h.name@);
        let ghost st1 = (cb@, views(emitted@));
        if h.meta.name.unicode_len() > 0 {
            let prefix = handler_prefix(&child_path);
            let text = handler_type_exports_cs(prefix.as_str(), &h.meta, emitted);
            cb.push(text);
        }
        let ghost st2 = if h.meta.name@.len() > 0 {
            let he = handler_exports(handler_prefix_of(cp), h.meta, st1.1);
            (st1.0.push(build_lines(he.0)), he.1)
        } else {
            st1
        };
        assert((cb@, views(emitted@)) == st2);
        assert(decreases_to!(handlers => h.children));
        if h.children.len() > 0 {
            collect_type_exports_cs(&h.children, &child_path, emitted, cb);
        } else {
            assert(h.children@.len() == 0);
        }
        assert((cb@, views(emitted@)) == tree_exports(h.children@, cp, st2));
        assert(tree_exports(handlers@.subrange(0, i + 1), views(path@), (old(cb)@, views(old(emitted)@)))
            == tree_exports(h.children@, cp, st2));
        i = i + 1;
    }
    assert(handlers@.subrange(0, handlers@.len() as int) =~= handlers@);
}


/// Declares `s` under its own name unless that name is taken, then its
/// nested types.
pub open spec fn declare_own(s: TagMeta, st: Emission) -> Emission {
    if !st.1.contains(s.name@) {
        nested(s, (st.0.push(type_def(s.name@, s)), st.1.push(s.name@)))
    } else {
        st
    }
}

/// The shared declarations of the parameters with extractor `e`.
pub open spec fn shared_param_exports(ps: Seq<ParamMeta>, e: Seq<char>, st: Emission) -> Emission
    decreases ps.len(),
{
    if ps.len() == 0 {
        st
    } else {
        let st1 = shared_param_exports(ps.drop_last(), e, st);
        let p = ps.last();
        match p.structure {
            Some(s) => if p.extractor@ == e {
                declare_own(*s, st1)
            } else {
                st1
            },
            None => st1,
        }
    }
}

/// The shared declarations (for a common file) of the types of the
/// extractor `e` in a handler tree, depth first.
pub open spec fn shared_exports(hs: Seq<Handler>, e: Seq<char>, st: Emission) -> Emission
    decreases hs,
{
    if hs.len() == 0 {
        st
    } else {
        let st1 = shared_exports(hs.drop_last(), e, st);
        let h = hs.last();
        let st2 = if h.meta.name@.len() > 0 {
            shared_param_exports(h.meta.params@, e, st1)
        } else {
            st1
        };
        shared_exports(h.children@, e, st2)
    }
}

fn shared_exports_cs(handlers: &Vec<Handler>, e: &str, emitted: &mut Vec<String>, cb: &mut CodeBuf)
    requires
        tree_ok(handlers@),
    ensures
        (final(cb)@, views(final(emitted)@)) == shared_exports(
            handlers@,
            e@,
            (old(cb)@, views(old(emitted)@)),
        ),
    decreases handlers,
{
    let mut i: usize = 0;
    while i < handlers.len()
        invariant
            tree_ok(handlers@),
            i <= handlers@.len(),
            (cb@, views(emitted@)) == shared_exports(
                handlers@.subrange(0, i as int),
                e@,
                (old(cb)@, views(old(emitted)@)),
            ),
        decreases handlers@.len() - i,
    {
        let h = &handlers[i];
        proof {
            lemma_tree_ok_at(handlers@, i as int);
            assert(handlers@.subrange(0, i + 1).drop_last() =~= handlers@.subrange(0, i as int));
            assert(handlers@.subrange(0, i + 1).last() == *h);
        }
        let ghost st1 = (cb@, views(emitted@));
        if h.meta.name.unicode_len() > 0 {
            let mut j: usize = 0;
            while j < h.meta.params.len()
                invariant
                    handler_meta_ok(h.meta),
                    j <= h.meta.params@.len(),
                    (cb@, views(emitted@)) == shared_param_exports(
                        h.meta.params@.subrange(0, j as int),
                        e@,
                        st1,
                    ),
                decreases h.meta.params@.len() - j,
            {
                let p = &h.meta.params[j];
                proof {
                    assert(h.meta.params@.subrange(0, j + 1).drop_last() =~= h.meta.params@.subrange(
                        0,
                        j as int,
                    ));
                    assert(h.meta.params@.subrange(0, j + 1).last() == *p);
                    assert(param_ok(h.meta.params@[j as int]));
                }
                match &p.structure {
                    Some(s) => {
                        if str_eq(p.extractor.as_str(), e) {
                            if !contains_str(emitted, s.name.as_str()) {
                                cb.push(cs_type_def(s));
                                let ghost before = emitted@;
                                emitted.push(owned(s.name.as_str()));
                                assert(views(emitted@) =~= views(before).push(s.name@));
                                extract_nested_types_cs(s, cb, emitted);
                            }
                        }
                    },
                    None => {},
                }
                j = j + 1;
            }
            assert(h.meta.params@.subrange(0, h.meta.params@.len() as int) =~= h.meta.params@);
        }
        let ghost st2 = (cb@, views(emitted@));
        assert(decreases_to!(handlers => h.children));
        if h.children.len() > 0 {
            shared_exports_cs(&h.children, e, emitted, cb);
        }
        assert((cb@, views(emitted@)) == shared_exports(h.children@, e@, st2));
        i = i + 1;
    }
    assert(handlers@.subrange(0, handlers@.len() as int) =~= handlers@);
}

/// Emits the declarations of the Custom extractor types of a handler tree.
pub fn collect_custom_type_exports_cs(
    handlers: &Vec<Handler>,
    _path: &Vec<String>,
    emitted: &mut Vec<String>,
    cb: &mut CodeBuf,
)
    requires
        tree_ok(handlers@),
    ensures
        (final(cb)@, views(final(emitted)@)) == shared_exports(
            handlers@,
            "Custom"@,
            (old(cb)@, views(old(emitted)@)),
        ),
{
    shared_exports_cs(handlers, "Custom", emitted, cb);
}

/// Emits the declarations of the Header extractor types of a handler tree.
pub fn collect_header_type_exports_cs(
    handlers: &Vec<Handler>,
    _path: &Vec<String>,
    emitted: &mut Vec<String>,
    cb: &mut CodeBuf,
)
    requires
        tree_ok(handlers@),
    ensures
        (final(cb)@, views(final(emitted)@)) == shared_exports(
            handlers@,
            "Header"@,
            (old(cb)@, views(old(emitted)@)),
        ),
{
    shared_exports_cs(handlers, "Header", emitted, cb);
}

} // verus!
