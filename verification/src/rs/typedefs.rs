//! Rust declarations of transported structs and enums.

use vstd::prelude::*;
use crate::buf::{build_lines, CodeBuf};
use crate::cs::typedefs::{is_tuple_variant, tuple_variant};
use crate::meta_spec::{fields_ok, lemma_fields_ok_at, lemma_variants_ok_at, tag_ok, variants_ok};
use crate::model::{EnumVariantMeta, FieldMeta, TagKind, TagMeta};
use crate::naming::{prefixed, prefixed_type, prefixed_type_ok, snake, to_snake_case};
use crate::text::{cat2, cat3, cat4, cat5, views};
use crate::typemap::{rs_type, rust_type_to_rs};

verus! {

/// The writer method for enum tags (one byte with the default tag width).
pub open spec fn rs_tag_write() -> Seq<char> {
    "write_u8"@
}

/// The reader method for enum tags (one byte with the default tag width).
pub open spec fn rs_tag_read() -> Seq<char> {
    "read_u8"@
}

/// Returns the Rust writer method name for enum tags.
pub fn tag_write() -> (r: &'static str)
    ensures
        r@ == rs_tag_write(),
{
    "write_u8"
}

/// Returns the Rust reader method name for enum tags.
pub fn tag_read() -> (r: &'static str)
    ensures
        r@ == rs_tag_read(),
{
    "read_u8"
}

/// The name a handler-specific type is given: the type's name after the
/// handler's prefix.
pub fn type_name_for(prefix: &str, meta: &TagMeta) -> (r: String)
    requires
        prefixed_type_ok(prefix@, meta.name@),
    ensures
        r@ == prefixed(prefix@, meta.name@),
{
    prefixed_type(prefix, meta.name.as_str())
}

/// `name: type,` lines for the included fields, each starting with `ind`.
pub open spec fn field_decls(fields: Seq<FieldMeta>, ind: Seq<char>) -> Seq<Seq<char>>
    decreases fields.len(),
{
    if fields.len() == 0 {
        Seq::empty()
    } else {
        let rest = field_decls(fields.drop_last(), ind);
        let f = fields.last();
        if f.skip {
            rest
        } else {
            rest.push(ind + snake(f.name@) + ": "@ + rs_type(f.ty@) + ","@)
        }
    }
}

/// The lines declaring one enum variant.
pub open spec fn variant_decl(v: EnumVariantMeta) -> Seq<Seq<char>> {
    if v.fields@.len() == 0 {
        seq!["    "@ + v.name@ + ","@]
    } else if is_tuple_variant(v) {
        seq!["    "@ + v.name@ + "("@ + rs_type(v.fields@[0].ty@) + "),"@]
    } else {
        seq!["    "@ + v.name@ + " {"@] + field_decls(v.fields@, "        "@) + seq!["    },"@]
    }
}

/// The lines declaring all variants.
pub open spec fn variant_decls(vs: Seq<EnumVariantMeta>) -> Seq<Seq<char>>
    decreases vs.len(),
{
    if vs.len() == 0 {
        Seq::empty()
    } else {
        variant_decls(vs.drop_last()) + variant_decl(vs.last())
    }
}

/// The Rust declaration of `meta` under the name `tn`, deriving `Debug`
/// and `Clone`.
pub open spec fn rs_def_lines(tn: Seq<char>, meta: TagMeta) -> Seq<Seq<char>> {
    match meta.kind {
        TagKind::Struct(fields) => seq!["#[derive(Debug, Clone)]"@, "pub struct "@ + tn + " {"@] + field_decls(
            fields@,
            "    pub "@,
        ) + seq!["}"@],
        TagKind::Enum(variants) => seq!["#[derive(Debug, Clone)]"@, "pub enum "@ + tn + " {"@] + variant_decls(
            variants@,
        ) + seq!["}"@],
    }
}

/// The Rust declaration of `meta` under the name `tn`, as text.
pub open spec fn rs_def(tn: Seq<char>, meta: TagMeta) -> Seq<char> {
    build_lines(rs_def_lines(tn, meta))
}

fn push_field_decls(cb: &mut CodeBuf, fields: &Vec<FieldMeta>, ind: &str)
    requires
        fields_ok(fields@),
    ensures
        final(cb)@ == old(cb)@ + field_decls(fields@, ind@),
{
    let mut i: usize = 0;
    while i < fields.len()
        invariant
            fields_ok(fields@),
            i <= fields@.len(),
            cb@ == old(cb)@ + field_decls(fields@.subrange(0, i as int), ind@),
        decreases fields@.len() - i,
    {
        let f = &fields[i];
        proof {
            lemma_fields_ok_at(fields@, i as int);
            assert(fields@.subrange(0, i + 1).drop_last() =~= fields@.subrange(0, i as int));
            assert(fields@.subrange(0, i + 1).last() == *f);
        }
        if !f.skip {
            let n = to_snake_case(f.name.as_str());
            let t = rust_type_to_rs(f.ty.as_str());
            cb.push(cat5(ind, n.as_str(), ": ", t.as_str(), ","));
        }
        i = i + 1;
    }
    assert(fields@.subrange(0, fields@.len() as int) =~= fields@);
}

fn push_variant_decl(cb: &mut CodeBuf, v: &EnumVariantMeta)
    requires
        fields_ok(v.fields@),
    ensures
        final(cb)@ == old(cb)@ + variant_decl(*v),
{
    let ghost start = cb@;
    if v.fields.len() == 0 {
        cb.push(cat3("    ", v.name.as_str(), ","));
    } else if tuple_variant(v) {
        proof {
            lemma_fields_ok_at(v.fields@, 0);
        }
        let t = rust_type_to_rs(v.fields[0].ty.as_str());
        cb.push(cat5("    ", v.name.as_str(), "(", t.as_str(), "),"));
    } else {
        cb.push(cat3("    ", v.name.as_str(), " {"));
        push_field_decls(cb, &v.fields, "        ");
        cb.l("    },");
    }
    assert(cb@ =~= start + variant_decl(*v));
}

/// Generates the Rust declaration of `meta` under the name `tn`.
pub fn rs_type_def_named(tn: &str, meta: &TagMeta) -> (r: String)
    requires
        tag_ok(*meta),
    ensures
        r@ == rs_def(tn@, *meta),
{
    let mut cb = CodeBuf::new();
    cb.l("#[derive(Debug, Clone)]");
    match &meta.kind {
        TagKind::Struct(fields) => {
            cb.push(cat3("pub struct ", tn, " {"));
            push_field_decls(&mut cb, fields, "    pub ");
            cb.l("}");
        },
        TagKind::Enum(variants) => {
            cb.push(cat3("pub enum ", tn, " {"));
            let ghost head = cb@;
            let mut i: usize = 0;
            while i < variants.len()
                invariant
                    variants_ok(variants@),
                    i <= variants@.len(),
                    cb@ == head + variant_decls(variants@.subrange(0, i as int)),
                decreases variants@.len() - i,
            {
                proof {
                    lemma_variants_ok_at(variants@, i as int);
                    assert(variants@.subrange(0, i + 1).drop_last() =~= variants@.subrange(0, i as int));
                }
                push_variant_decl(&mut cb, &variants[i]);
                i = i + 1;
            }
            assert(variants@.subrange(0, variants@.len() as int) =~= variants@);
            cb.l("}");
        },
    }
    assert(cb@ =~= rs_def_lines(tn@, *meta));
    cb.build()
}

/// Generates the Rust declaration of `meta` under its own name.
pub fn rs_type_def(meta: &TagMeta) -> (r: String)
    requires
        tag_ok(*meta),
    ensures
        r@ == rs_def(meta.name@, *meta),
{
    rs_type_def_named(meta.name.as_str(), meta)
}

} // verus!
