//! C# declarations of transported structs and enums.

use vstd::prelude::*;
use crate::buf::{build_lines, CodeBuf};
use crate::meta_spec::{field_ok, fields_ok, lemma_fields_ok_at, lemma_variants_ok_at, tag_ok, variants_ok};
use crate::model::{EnumVariantMeta, FieldMeta, TagKind, TagMeta};
use crate::naming::{pascal, to_pascal_case};
use crate::text::{cat2, cat3, cat4, cat5, cat6, join, join_seq, starts_with, views};
use crate::typemap::{cs_default_of, cs_default_value, cs_type, rust_type_to_cs};

verus! {

/// The writer method for enum tags (one byte with the default tag width).
pub open spec fn cs_tag_write() -> Seq<char> {
    "WriteU8"@
}

/// The reader method for enum tags (one byte with the default tag width).
pub open spec fn cs_tag_read() -> Seq<char> {
    "ReadU8"@
}

/// Returns the C# writer method name for enum tags.
pub fn tag_write() -> (r: &'static str)
    ensures
        r@ == cs_tag_write(),
{
    "WriteU8"
}

/// Returns the C# reader method name for enum tags.
pub fn tag_read() -> (r: &'static str)
    ensures
        r@ == cs_tag_read(),
{
    "ReadU8"
}

/// A `/// <summary>` line.
pub open spec fn summary(indent: Seq<char>, desc: Seq<char>) -> Seq<char> {
    indent + "/// <summary>"@ + desc + "</summary>"@
}

/// The property lines of a C# class for the included fields.
pub open spec fn prop_lines(fields: Seq<FieldMeta>) -> Seq<Seq<char>>
    decreases fields.len(),
{
    if fields.len() == 0 {
        Seq::empty()
    } else {
        let rest = prop_lines(fields.drop_last());
        let f = fields.last();
        if f.skip {
            rest
        } else {
            let t = cs_type(f.ty@);
            let doc = if f.desc@.len() > 0 {
                seq![summary("    "@, f.desc@)]
            } else {
                Seq::empty()
            };
            rest + doc + seq![
                "    public "@ + t + " "@ + pascal(f.name@) + " { get; set; }"@ + cs_default_of(t),
            ]
        }
    }
}

/// The positional-record parameters for the included fields.
pub open spec fn record_entries(fields: Seq<FieldMeta>) -> Seq<Seq<char>>
    decreases fields.len(),
{
    if fields.len() == 0 {
        Seq::empty()
    } else {
        let rest = record_entries(fields.drop_last());
        let f = fields.last();
        if f.skip {
            rest
        } else {
            rest.push(cs_type(f.ty@) + " "@ + pascal(f.name@))
        }
    }
}

/// Whether a variant carries a single tuple payload (one field named `__..`).
pub open spec fn is_tuple_variant(v: EnumVariantMeta) -> bool {
    v.fields@.len() == 1 && "__"@.is_prefix_of(v.fields@[0].name@)
}

/// The sealed record declaring one enum variant.
pub open spec fn variant_line(tn: Seq<char>, v: EnumVariantMeta) -> Seq<char> {
    if v.fields@.len() == 0 {
        "public sealed record "@ + v.name@ + " : "@ + tn + ";"@
    } else if is_tuple_variant(v) {
        "public sealed record "@ + v.name@ + "("@ + cs_type(v.fields@[0].ty@) + " __0) : "@ + tn
            + ";"@
    } else {
        "public sealed record "@ + v.name@ + "("@ + join_seq(record_entries(v.fields@), ", "@)
            + ") : "@ + tn + ";"@
    }
}

/// The lines declaring `meta` under the name `tn`: a class with properties
/// for a struct, an abstract record with one sealed record per variant for
/// an enum, each preceded by the type's summary when it has a description.
pub open spec fn type_def_lines(tn: Seq<char>, meta: TagMeta) -> Seq<Seq<char>> {
    let doc = if meta.desc@.len() > 0 {
        seq![summary(""@, meta.desc@)]
    } else {
        Seq::empty()
    };
    match meta.kind {
        TagKind::Struct(fields) => doc + seq!["public class "@ + tn, "{"@] + prop_lines(fields@)
            + seq!["}"@],
        TagKind::Enum(variants) => doc + seq!["public abstract record "@ + tn + ";"@, ""@]
            + variants@.map_values(|v: EnumVariantMeta| variant_line(tn, v)),
    }
}

/// The C# declaration of `meta` under the name `tn`.
pub open spec fn type_def(tn: Seq<char>, meta: TagMeta) -> Seq<char> {
    build_lines(type_def_lines(tn, meta))
}

fn push_summary(cb: &mut CodeBuf, indent: &str, desc: &str)
    ensures
        final(cb)@ == old(cb)@.push(summary(indent@, desc@)),
{
    cb.push(cat4(indent, "/// <summary>", desc, "</summary>"));
}

fn push_props(cb: &mut CodeBuf, fields: &Vec<FieldMeta>)
    requires
        fields_ok(fields@),
    ensures
        final(cb)@ == old(cb)@ + prop_lines(fields@),
{
    let mut i: usize = 0;
    while i < fields.len()
        invariant
            fields_ok(fields@),
            i <= fields@.len(),
            cb@ == old(cb)@ + prop_lines(fields@.subrange(0, i as int)),
        decreases fields@.len() - i,
    {
        let f = &fields[i];
        proof {
            lemma_fields_ok_at(fields@, i as int);
            assert(fields@.subrange(0, i + 1).drop_last() =~= fields@.subrange(0, i as int));
            assert(fields@.subrange(0, i + 1).last() == *f);
        }
        let ghost before = cb@;
        if !f.skip {
            let t = rust_type_to_cs(f.ty.as_str());
            let default = cs_default_value(t.as_str());
            if f.desc.unicode_len() > 0 {
                push_summary(cb, "    ", f.desc.as_str());
            }
            let name = to_pascal_case(f.name.as_str());
            cb.push(cat6("    public ", t.as_str(), " ", name.as_str(), " { get; set; }", default));
            proof {
                let doc = if f.desc@.len() > 0 {
                    seq![summary("    "@, f.desc@)]
                } else {
                    Seq::empty()
                };
                assert(cb@ =~= before + doc + seq![
                    "    public "@ + t@ + " "@ + pascal(f.name@) + " { get; set; }"@ + cs_default_of(t@),
                ]);
            }
        }
        i = i + 1;
    }
    assert(fields@.subrange(0, fields@.len() as int) =~= fields@);
}

fn record_entries_of(fields: &Vec<FieldMeta>) -> (r: Vec<String>)
    requires
        fields_ok(fields@),
    ensures
        views(r@) == record_entries(fields@),
{
    let mut r: Vec<String> = Vec::new();
    let mut i: usize = 0;
    assert(views(r@) =~= Seq::<Seq<char>>::empty());
    while i < fields.len()
        invariant
            fields_ok(fields@),
            i <= fields@.len(),
            views(r@) == record_entries(fields@.subrange(0, i as int)),
        decreases fields@.len() - i,
    {
        let f = &fields[i];
        proof {
            lemma_fields_ok_at(fields@, i as int);
            assert(fields@.subrange(0, i + 1).drop_last() =~= fields@.subrange(0, i as int));
            assert(fields@.subrange(0, i + 1).last() == *f);
        }
        if !f.skip {
            let t = rust_type_to_cs(f.ty.as_str());
            let name = to_pascal_case(f.name.as_str());
            let ghost before = r@;
            r.push(cat3(t.as_str(), " ", name.as_str()));
            assert(views(r@) =~= views(before).push(cs_type(f.ty@) + " "@ + pascal(f.name@)));
        }
        i = i + 1;
    }
    assert(fields@.subrange(0, fields@.len() as int) =~= fields@);
    r
}

/// Whether the variant carries a single tuple payload.
pub fn tuple_variant(v: &EnumVariantMeta) -> (r: bool)
    ensures
        r == is_tuple_variant(*v),
{
    v.fields.len() == 1 && starts_with(v.fields[0].name.as_str(), "__")
}

fn variant_decl(tn: &str, v: &EnumVariantMeta) -> (r: String)
    requires
        fields_ok(v.fields@),
    ensures
        r@ == variant_line(tn@, *v),
{
    if v.fields.len() == 0 {
        cat5("public sealed record ", v.name.as_str(), " : ", tn, ";")
    } else if tuple_variant(v) {
        proof {
            lemma_fields_ok_at(v.fields@, 0);
        }
        let t = rust_type_to_cs(v.fields[0].ty.as_str());
        let head = cat4("public sealed record ", v.name.as_str(), "(", t.as_str());
        cat4(head.as_str(), " __0) : ", tn, ";")
    } else {
        let entries = record_entries_of(&v.fields);
        let joined = join(&entries, ", ");
        let head = cat4("public sealed record ", v.name.as_str(), "(", joined.as_str());
        cat4(head.as_str(), ") : ", tn, ";")
    }
}

fn type_def_buf(tn: &str, meta: &TagMeta) -> (r: CodeBuf)
    requires
        tag_ok(*meta),
    ensures
        r@ == type_def_lines(tn@, *meta),
{
    let mut cb = CodeBuf::new();
    if meta.desc.unicode_len() > 0 {
        push_summary(&mut cb, "", meta.desc.as_str());
    }
    let ghost doc = cb@;
    match &meta.kind {
        TagKind::Struct(fields) => {
            cb.push(cat2("public class ", tn));
            cb.l("{");
            push_props(&mut cb, fields);
            cb.l("}");
        },
        TagKind::Enum(variants) => {
            cb.push(cat3("public abstract record ", tn, ";"));
            cb.b();
            let ghost head = cb@;
            let mut i: usize = 0;
            while i < variants.len()
                invariant
                    variants_ok(variants@),
                    i <= variants@.len(),
                    cb@ == head + variants@.subrange(0, i as int).map_values(
                        |v: EnumVariantMeta| variant_line(tn@, v),
                    ),
                decreases variants@.len() - i,
            {
                proof {
                    lemma_variants_ok_at(variants@, i as int);
                }
                let line = variant_decl(tn, &variants[i]);
                cb.push(line);
                proof {
                    assert(variants@.subrange(0, i + 1).map_values(
                        |v: EnumVariantMeta| variant_line(tn@, v),
                    ) =~= variants@.subrange(0, i as int).map_values(
                        |v: EnumVariantMeta| variant_line(tn@, v),
                    ).push(variant_line(tn@, variants@[i as int])));
                }
                i = i + 1;
            }
            assert(variants@.subrange(0, variants@.len() as int) =~= variants@);
        },
    }
    proof {
        reveal_strlit("");
        assert(""@ =~= Seq::<char>::empty());
        assert(cb@ =~= type_def_lines(tn@, *meta));
    }
    cb
}

/// Generates the C# declaration of `meta` under its own name.
pub fn cs_type_def(meta: &TagMeta) -> (r: String)
    requires
        tag_ok(*meta),
    ensures
        r@ == type_def(meta.name@, *meta),
{
    type_def_buf(meta.name.as_str(), meta).build()
}

/// Generates the C# declaration of `meta` under the name `tn`.
pub fn cs_type_def_named(tn: &str, meta: &TagMeta) -> (r: String)
    requires
        tag_ok(*meta),
    ensures
        r@ == type_def(tn@, *meta),
{
    type_def_buf(tn, meta).build()
}

} // verus!
