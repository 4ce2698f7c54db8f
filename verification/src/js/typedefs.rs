//! JSDoc `@typedef` blocks for transported structs and enums.

use vstd::prelude::*;
use crate::buf::{build_lines, CodeBuf};
use crate::cs::typedefs::{is_tuple_variant, tuple_variant};
use crate::headers::{is_standard_header, standard_header};
use crate::meta_spec::{fields_ok, lemma_fields_ok_at, lemma_variants_ok_at, tag_ok, variants_ok};
use crate::model::{EnumVariantMeta, FieldMeta, TagKind, TagMeta};
use crate::text::{cat2, cat3, cat4, join, join_seq, replace_char, replace_char_seq, str_eq, views};
use crate::typemap::{js_type, rust_type_to_js};

verus! {

/// The writer method for enum tags (one byte with the default tag width).
pub open spec fn js_tag_write() -> Seq<char> {
    "wU8"@
}

/// The reader method for enum tags (one byte with the default tag width).
pub open spec fn js_tag_read() -> Seq<char> {
    "rU8"@
}

/// Returns the JavaScript writer method name for enum tags.
pub fn tag_write() -> (r: &'static str)
    ensures
        r@ == js_tag_write(),
{
    "wU8"
}

/// Returns the JavaScript reader method name for enum tags.
pub fn tag_read() -> (r: &'static str)
    ensures
        r@ == js_tag_read(),
{
    "rU8"
}

/// A ` * @property` line.
pub open spec fn property(ty: Seq<char>, name: Seq<char>) -> Seq<char> {
    " * @property {"@ + js_type(ty) + "} "@ + name
}

/// The property lines of the included fields, each name after `pre`;
/// with `headers_only`, fields naming a standard header are left out.
pub open spec fn property_lines(fields: Seq<FieldMeta>, pre: Seq<char>, headers_only: bool) -> Seq<Seq<char>>
    decreases fields.len(),
{
    if fields.len() == 0 {
        Seq::empty()
    } else {
        let rest = property_lines(fields.drop_last(), pre, headers_only);
        let f = fields.last();
        if f.skip || (headers_only && standard_header(replace_char_seq(f.name@, '_', "-"@))) {
            rest
        } else {
            rest.push(property(f.ty@, pre + f.name@))
        }
    }
}

/// The name of a variant's typedef.
pub open spec fn variant_typedef_name(tn: Seq<char>, v: EnumVariantMeta) -> Seq<char> {
    tn + "_"@ + v.name@
}

/// The typedef block of one enum variant, followed by a blank line.
pub open spec fn variant_block(tn: Seq<char>, v: EnumVariantMeta) -> Seq<Seq<char>> {
    let data = if v.fields@.len() == 0 {
        seq![" * @property {null} data"@]
    } else if is_tuple_variant(v) {
        seq![" * @property {"@ + js_type(v.fields@[0].ty@) + "} data"@]
    } else {
        seq![" * @property {Object} data"@] + property_lines(v.fields@, "data."@, false)
    };
    seq!["/**"@, " * @typedef {Object} "@ + variant_typedef_name(tn, v), " * @property {'"@ + v.name@ + "'} tag"@]
        + data + seq![" */"@, Seq::empty()]
}

/// The blocks of all variants.
pub open spec fn variant_blocks(tn: Seq<char>, vs: Seq<EnumVariantMeta>) -> Seq<Seq<char>>
    decreases vs.len(),
{
    if vs.len() == 0 {
        Seq::empty()
    } else {
        variant_blocks(tn, vs.drop_last()) + variant_block(tn, vs.last())
    }
}

/// The description line, present when the description is not empty and,
/// with `hide_same`, differs from the type's name.
pub open spec fn description(tn: Seq<char>, desc: Seq<char>, hide_same: bool) -> Seq<Seq<char>> {
    if desc.len() > 0 && !(hide_same && desc == tn) {
        seq![" * @description "@ + desc]
    } else {
        Seq::empty()
    }
}

/// The typedef lines of `meta` under the name `tn`: an object typedef for a
/// struct; for an enum one typedef per variant and a union of them.
pub open spec fn typedef_lines(tn: Seq<char>, meta: TagMeta, hide_same: bool) -> Seq<Seq<char>> {
    match meta.kind {
        TagKind::Struct(fields) => seq!["/**"@, " * @typedef {Object} "@ + tn] + description(
            tn,
            meta.desc@,
            hide_same,
        ) + property_lines(fields@, Seq::empty(), false) + seq![" */"@],
        TagKind::Enum(variants) => variant_blocks(tn, variants@) + seq![
            "/**"@,
            " * @typedef {"@ + join_seq(
                variants@.map_values(|v: EnumVariantMeta| variant_typedef_name(tn, v)),
                " | "@,
            ) + "} "@ + tn,
        ] + description(tn, meta.desc@, hide_same) + seq![" */"@],
    }
}

/// The typedef of a header struct: like [`typedef_lines`], with the
/// description first and without the fields that name standard headers.
pub open spec fn header_typedef_lines(meta: TagMeta) -> Seq<Seq<char>> {
    match meta.kind {
        TagKind::Struct(fields) => seq!["/**"@] + description(meta.name@, meta.desc@, false) + seq![
            " * @typedef {Object} "@ + meta.name@,
        ] + property_lines(fields@, Seq::empty(), true) + seq![" */"@],
        TagKind::Enum(_) => typedef_lines(meta.name@, meta, true),
    }
}

fn push_properties(cb: &mut CodeBuf, fields: &Vec<FieldMeta>, pre: &str, headers_only: bool)
    requires
        fields_ok(fields@),
    ensures
        final(cb)@ == old(cb)@ + property_lines(fields@, pre@, headers_only),
{
    let mut i: usize = 0;
    while i < fields.len()
        invariant
            fields_ok(fields@),
            i <= fields@.len(),
            cb@ == old(cb)@ + property_lines(fields@.subrange(0, i as int), pre@, headers_only),
        decreases fields@.len() - i,
    {
        let f = &fields[i];
        proof {
            lemma_fields_ok_at(fields@, i as int);
            assert(fields@.subrange(0, i + 1).drop_last() =~= fields@.subrange(0, i as int));
            assert(fields@.subrange(0, i + 1).last() == *f);
        }
        let skip_it = f.skip || (headers_only && is_standard_header(
            replace_char(f.name.as_str(), '_', "-").as_str(),
        ));
        if !skip_it {
            let t = rust_type_to_js(f.ty.as_str());
            cb.push(cat4(" * @property {", t.as_str(), "} ", cat2(pre, f.name.as_str()).as_str()));
        }
        i = i + 1;
    }
    assert(fields@.subrange(0, fields@.len() as int) =~= fields@);
}

fn push_description(cb: &mut CodeBuf, tn: &str, desc: &str, hide_same: bool)
    ensures
        final(cb)@ == old(cb)@ + description(tn@, desc@, hide_same),
{
    if desc.unicode_len() > 0 && !(hide_same && str_eq(desc, tn)) {
        cb.push(cat2(" * @description ", desc));
        assert(cb@ =~= old(cb)@ + description(tn@, desc@, hide_same));
    } else {
        assert(cb@ =~= old(cb)@ + description(tn@, desc@, hide_same));
    }
}

fn push_variant_block(cb: &mut CodeBuf, tn: &str, v: &EnumVariantMeta)
    requires
        fields_ok(v.fields@),
    ensures
        final(cb)@ == old(cb)@ + variant_block(tn@, *v),
{
    let ghost start = cb@;
    cb.l("/**");
    let head = cat4(" * @typedef {Object} ", tn, "_", v.name.as_str());
    assert(head@ =~= " * @typedef {Object} "@ + variant_typedef_name(tn@, *v));
    cb.push(head);
    cb.push(cat3(" * @property {'", v.name.as_str(), "'} tag"));
    let ghost mid = cb@;
    if v.fields.len() == 0 {
        cb.l(" * @property {null} data");
    } else if tuple_variant(v) {
        proof {
            lemma_fields_ok_at(v.fields@, 0);
        }
        let t = rust_type_to_js(v.fields[0].ty.as_str());
        cb.push(cat3(" * @property {", t.as_str(), "} data"));
    } else {
        cb.l(" * @property {Object} data");
        push_properties(cb, &v.fields, "data.", false);
    }
    let ghost data = if v.fields@.len() == 0 {
        seq![" * @property {null} data"@]
    } else if is_tuple_variant(*v) {
        seq![" * @property {"@ + js_type(v.fields@[0].ty@) + "} data"@]
    } else {
        seq![" * @property {Object} data"@] + property_lines(v.fields@, "data."@, false)
    };
    assert(cb@ =~= mid + data);
    cb.l(" */");
    cb.b();
    assert(cb@ =~= start + variant_block(tn@, *v));
}

fn typedef_buf(tn: &str, meta: &TagMeta, hide_same: bool) -> (r: CodeBuf)
    requires
        tag_ok(*meta),
    ensures
        r@ == typedef_lines(tn@, *meta, hide_same),
{
    let mut cb = CodeBuf::new();
    match &meta.kind {
        TagKind::Struct(fields) => {
            cb.l("/**");
            cb.push(cat2(" * @typedef {Object} ", tn));
            push_description(&mut cb, tn, meta.desc.as_str(), hide_same);
            push_properties(&mut cb, fields, "", false);
            cb.l(" */");
            proof {
                reveal_strlit("");
                assert(""@ =~= Seq::<char>::empty());
            }
            assert(cb@ =~= typedef_lines(tn@, *meta, hide_same));
        },
        TagKind::Enum(variants) => {
            let mut names: Vec<String> = Vec::new();
            let mut i: usize = 0;
            while i < variants.len()
                invariant
                    variants_ok(variants@),
                    i <= variants@.len(),
                    cb@ == variant_blocks(tn@, variants@.subrange(0, i as int)),
                    views(names@) == variants@.subrange(0, i as int).map_values(
                        |v: EnumVariantMeta| variant_typedef_name(tn@, v),
                    ),
                decreases variants@.len() - i,
            {
                let v = &variants[i];
                proof {
                    lemma_variants_ok_at(variants@, i as int);
                    assert(variants@.subrange(0, i + 1).drop_last() =~= variants@.subrange(0, i as int));
                }
                push_variant_block(&mut cb, tn, v);
                let ghost n0 = views(names@);
                names.push(cat3(tn, "_", v.name.as_str()));
                assert(variants@.subrange(0, i + 1) =~= variants@.subrange(0, i as int).push(*v));
                assert(views(names@) =~= n0.push(variant_typedef_name(tn@, *v)));
                assert(views(names@) =~= variants@.subrange(0, i + 1).map_values(
                    |v: EnumVariantMeta| variant_typedef_name(tn@, v),
                ));
                i = i + 1;
            }
            assert(variants@.subrange(0, variants@.len() as int) =~= variants@);
            let ghost blocks = cb@;
            cb.l("/**");
            let joined = join(&names, " | ");
            cb.push(cat4(" * @typedef {", joined.as_str(), "} ", tn));
            push_description(&mut cb, tn, meta.desc.as_str(), hide_same);
            cb.l(" */");
            assert(cb@ =~= typedef_lines(tn@, *meta, hide_same));
        },
    }
    cb
}

/// Emits the JSDoc typedefs of `meta` under its own name; the description
/// is left out when it only repeats the name.
pub fn jsdoc_typedef(meta: &TagMeta) -> (r: String)
    requires
        tag_ok(*meta),
    ensures
        r@ == build_lines(typedef_lines(meta.name@, *meta, true)),
{
    typedef_buf(meta.name.as_str(), meta, true).build()
}

/// Emits the JSDoc typedefs of `meta` under the name `tn`.
pub fn jsdoc_typedef_named(tn: &str, meta: &TagMeta) -> (r: String)
    requires
        tag_ok(*meta),
    ensures
        r@ == build_lines(typedef_lines(tn@, *meta, false)),
{
    typedef_buf(tn, meta, false).build()
}

/// Emits the JSDoc typedef of a header struct, leaving out the fields that
/// name standard headers, which clients set on their own.
pub fn jsdoc_typedef_header(meta: &TagMeta) -> (r: String)
    requires
        tag_ok(*meta),
    ensures
        r@ == build_lines(header_typedef_lines(*meta)),
{
    match &meta.kind {
        TagKind::Struct(fields) => {
            let mut cb = CodeBuf::new();
            cb.l("/**");
            push_description(&mut cb, meta.name.as_str(), meta.desc.as_str(), false);
            cb.push(cat2(" * @typedef {Object} ", meta.name.as_str()));
            push_properties(&mut cb, fields, "", true);
            cb.l(" */");
            proof {
                reveal_strlit("");
                assert(""@ =~= Seq::<char>::empty());
            }
            assert(cb@ =~= header_typedef_lines(*meta));
            cb.build()
        },
        TagKind::Enum(_) => jsdoc_typedef(meta),
    }
}

} // verus!
