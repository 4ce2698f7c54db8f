//! Well-formedness of type metadata, as the generators need it.

use vstd::prelude::*;
use crate::model::{EnumVariantMeta, FieldMeta, HandlerMeta, Handler, ParamMeta, TagKind, TagMeta};
use crate::typemap::{raw_ok, type_ok};

verus! {

/// Every field type of `meta`, of its variants and of the types nested in
/// its fields can be mapped: no `Option<..>` or `Vec<..>` in them is cut
/// short, neither as written nor normalised.
pub open spec fn tag_ok(meta: TagMeta) -> bool
    decreases meta,
{
    match meta.kind {
        TagKind::Struct(fields) => fields_ok(fields@),
        TagKind::Enum(variants) => variants_ok(variants@),
    }
}

/// Every field of `fields` is well formed in the sense of [`tag_ok`].
pub open spec fn fields_ok(fields: Seq<FieldMeta>) -> bool
    decreases fields,
{
    if fields.len() == 0 {
        true
    } else {
        fields_ok(fields.drop_last()) && field_ok(fields.last())
    }
}

/// One field is well formed in the sense of [`tag_ok`].
pub open spec fn field_ok(f: FieldMeta) -> bool
    decreases f,
{
    type_ok(f.ty@) && raw_ok(f.ty@) && match f.structure {
        Some(s) => tag_ok(*s),
        None => true,
    }
}

/// Every variant of `variants` is well formed in the sense of [`tag_ok`].
pub open spec fn variants_ok(variants: Seq<EnumVariantMeta>) -> bool
    decreases variants,
{
    if variants.len() == 0 {
        true
    } else {
        variants_ok(variants.drop_last()) && fields_ok(variants.last().fields@)
    }
}

/// A field of `fields` at `i` is well formed when all are.
pub proof fn lemma_fields_ok_at(fields: Seq<FieldMeta>, i: int)
    requires
        fields_ok(fields),
        0 <= i < fields.len(),
    ensures
        field_ok(fields[i]),
        fields_ok(fields.subrange(0, i)),
    decreases fields.len(),
{
    if i == fields.len() - 1 {
        assert(fields.drop_last() =~= fields.subrange(0, i));
    } else {
        lemma_fields_ok_at(fields.drop_last(), i);
        assert(fields.drop_last().subrange(0, i) =~= fields.subrange(0, i));
    }
}

/// A variant of `variants` at `i` is well formed when all are.
pub proof fn lemma_variants_ok_at(variants: Seq<EnumVariantMeta>, i: int)
    requires
        variants_ok(variants),
        0 <= i < variants.len(),
    ensures
        fields_ok(variants[i].fields@),
    decreases variants.len(),
{
    if i < variants.len() - 1 {
        lemma_variants_ok_at(variants.drop_last(), i);
    }
}

/// The parameter types of a handler, and the types nested in their
/// structures and in the returned structure, are well formed.
pub open spec fn handler_meta_ok(meta: HandlerMeta) -> bool {
    &&& type_ok(meta.return_type@)
    &&& (forall|i: int| 0 <= i < meta.params@.len() ==> #[trigger] param_ok(meta.params@[i]))
    &&& match meta.return_structure {
        Some(s) => tag_ok(*s),
        None => true,
    }
}

/// A parameter's type and its structure are well formed.
pub open spec fn param_ok(p: ParamMeta) -> bool {
    type_ok(p.ty@) && raw_ok(p.ty@) && match p.structure {
        Some(s) => tag_ok(*s),
        None => true,
    }
}

/// Every handler of a tree is well formed in the sense of [`handler_meta_ok`].
pub open spec fn tree_ok(hs: Seq<Handler>) -> bool
    decreases hs,
{
    if hs.len() == 0 {
        true
    } else {
        tree_ok(hs.drop_last()) && handler_meta_ok(hs.last().meta) && tree_ok(
            hs.last().children@,
        )
    }
}

/// A handler of a well-formed tree is well formed, and so are its children.
pub proof fn lemma_tree_ok_at(hs: Seq<Handler>, i: int)
    requires
        tree_ok(hs),
        0 <= i < hs.len(),
    ensures
        handler_meta_ok(hs[i].meta),
        tree_ok(hs[i].children@),
    decreases hs.len(),
{
    if i < hs.len() - 1 {
        lemma_tree_ok_at(hs.drop_last(), i);
    }
}

/// The number of tagged types in `meta`, counting nested ones.
pub open spec fn tag_size(meta: TagMeta) -> nat
    decreases meta,
{
    1 + match meta.kind {
        TagKind::Struct(fields) => fields_size(fields@),
        TagKind::Enum(variants) => variants_size(variants@),
    }
}

/// The number of tagged types nested in `fields`.
pub open spec fn fields_size(fields: Seq<FieldMeta>) -> nat
    decreases fields,
{
    if fields.len() == 0 {
        0
    } else {
        fields_size(fields.drop_last()) + field_size(fields.last())
    }
}

/// The number of tagged types nested in one field.
pub open spec fn field_size(f: FieldMeta) -> nat
    decreases f,
{
    match f.structure {
        Some(s) => tag_size(*s),
        None => 0,
    }
}

/// The number of tagged types nested in `variants`.
pub open spec fn variants_size(variants: Seq<EnumVariantMeta>) -> nat
    decreases variants,
{
    if variants.len() == 0 {
        0
    } else {
        variants_size(variants.drop_last()) + fields_size(variants.last().fields@)
    }
}

/// The size of an optional structure (0 for none).
pub open spec fn opt_size(s: Option<Box<TagMeta>>) -> nat {
    match s {
        Some(m) => tag_size(*m),
        None => 0,
    }
}

/// A field's nested types are part of its list's.
pub proof fn lemma_field_size_le(fields: Seq<FieldMeta>, i: int)
    requires
        0 <= i < fields.len(),
    ensures
        field_size(fields[i]) <= fields_size(fields),
    decreases fields.len(),
{
    if i < fields.len() - 1 {
        lemma_field_size_le(fields.drop_last(), i);
    }
}

/// A variant's nested types are part of its enum's.
pub proof fn lemma_variant_size_le(variants: Seq<EnumVariantMeta>, i: int)
    requires
        0 <= i < variants.len(),
    ensures
        fields_size(variants[i].fields@) <= variants_size(variants),
    decreases variants.len(),
{
    if i < variants.len() - 1 {
        lemma_variant_size_le(variants.drop_last(), i);
    }
}

/// The names of `meta` and, depth first, of every type nested in its
/// included (not skipped) fields, repeats kept.
pub open spec fn reach(meta: TagMeta) -> Seq<Seq<char>>
    decreases tag_size(meta), 1nat, 0nat,
{
    seq![meta.name@] + match meta.kind {
        TagKind::Struct(fs) => reach_fields(fs@),
        TagKind::Enum(vs) => reach_variants(vs@),
    }
}

/// [`reach`] for the types of the included fields, in order.
pub open spec fn reach_fields(fs: Seq<FieldMeta>) -> Seq<Seq<char>>
    decreases fields_size(fs), 2nat, fs.len(),
{
    if fs.len() == 0 {
        Seq::empty()
    } else {
        let f = fs.last();
        reach_fields(fs.drop_last()) + if f.skip {
            Seq::empty()
        } else {
            match f.structure {
                Some(s) => {
                    proof {
                        assert(tag_size(*s) == field_size(f));
                    }
                    reach(*s)
                },
                None => Seq::empty(),
            }
        }
    }
}

/// [`reach`] for the fields of every variant, in order.
pub open spec fn reach_variants(vs: Seq<EnumVariantMeta>) -> Seq<Seq<char>>
    decreases variants_size(vs), 3nat, vs.len(),
{
    if vs.len() == 0 {
        Seq::empty()
    } else {
        reach_variants(vs.drop_last()) + reach_fields(vs.last().fields@)
    }
}

/// `meta` and, depth first, every type nested in its included (not
/// skipped) fields, repeats kept.
pub open spec fn reach_tags(meta: TagMeta) -> Seq<TagMeta>
    decreases tag_size(meta), 1nat, 0nat,
{
    seq![meta] + match meta.kind {
        TagKind::Struct(fs) => reach_tags_fields(fs@),
        TagKind::Enum(vs) => reach_tags_variants(vs@),
    }
}

/// [`reach_tags`] for the types of the included fields, in order.
pub open spec fn reach_tags_fields(fs: Seq<FieldMeta>) -> Seq<TagMeta>
    decreases fields_size(fs), 2nat, fs.len(),
{
    if fs.len() == 0 {
        Seq::empty()
    } else {
        let f = fs.last();
        reach_tags_fields(fs.drop_last()) + if f.skip {
            Seq::empty()
        } else {
            match f.structure {
                Some(s) => {
                    proof {
                        assert(tag_size(*s) == field_size(f));
                    }
                    reach_tags(*s)
                },
                None => Seq::empty(),
            }
        }
    }
}

/// [`reach_tags`] for the fields of every variant, in order.
pub open spec fn reach_tags_variants(vs: Seq<EnumVariantMeta>) -> Seq<TagMeta>
    decreases variants_size(vs), 3nat, vs.len(),
{
    if vs.len() == 0 {
        Seq::empty()
    } else {
        reach_tags_variants(vs.drop_last()) + reach_tags_fields(vs.last().fields@)
    }
}

} // verus!
