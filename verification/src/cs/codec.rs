//! C# code that reads responses from and writes requests to the binary protocol.

use vstd::prelude::*;
use crate::buf::CodeBuf;
use crate::cs::typedefs::{cs_tag_read, cs_tag_write, is_tuple_variant, tag_read, tag_write, tuple_variant};
use crate::meta_spec::{
    field_ok, fields_ok, fields_size, lemma_field_size_le, lemma_fields_ok_at, lemma_variant_size_le,
    lemma_variants_ok_at, opt_size, tag_ok, tag_size, variants_ok, variants_size,
};
use crate::model::{EnumVariantMeta, FieldMeta, TagKind, TagMeta};
use crate::wire::{lemma_bit_texts, lemma_number_type_names, number_encoding, width_suffix};
use crate::naming::{pascal, to_pascal_case};
use crate::text::{
    cat2, cat3, cat4, cat5, cat6, dec_nat, dec_usize, join, join_seq, owned, str_eq, trim_end_char,
    trim_end_matches, trim_start_matches_str, trim_start_str, views,
};
use crate::typemap::{check_inner, inner_ok, inner_of, inner_type, is_option, is_vec, normalize, shape_of, type_ok};

verus! {

/// The element-type name an overriding list-type name stands for.
pub open spec fn list_elem_override(o: Seq<char>) -> Seq<char> {
    trim_end_char(trim_start_str(trim_end_char(o, '?'), "List<"@), '>')
}

/// The C# expression reading a value of Rust type `ty` from `reader`.
///
/// Primitives use the matching reader method, `Vec<T>` a LINQ range over a
/// `u32` count, `Option<T>` a presence byte, structs an object initializer
/// (named `ov` when given), enums a `switch` over the tag, and untagged
/// types the raw length-prefixed bytes.
pub open spec fn resp(
    reader: Seq<char>,
    ty: Seq<char>,
    indent: Seq<char>,
    st: Option<Box<TagMeta>>,
    ov: Option<Seq<char>>,
) -> Seq<char>
    decreases opt_size(st), 0nat, ty.len(),
{
    let n = normalize(ty);
    if n == "i8"@ {
        "(sbyte)"@ + reader + ".ReadI8()"@
    } else if n == "i16"@ {
        "(short)"@ + reader + ".ReadI16()"@
    } else if n == "i32"@ {
        reader + ".ReadI32()"@
    } else if n == "i64"@ {
        reader + ".ReadI64()"@
    } else if n == "u8"@ {
        "(byte)"@ + reader + ".ReadU8()"@
    } else if n == "u16"@ {
        "(ushort)"@ + reader + ".ReadU16()"@
    } else if n == "u32"@ {
        reader + ".ReadU32()"@
    } else if n == "u64"@ || n == "usize"@ {
        reader + ".ReadU64()"@
    } else if n == "f32"@ {
        reader + ".ReadF32()"@
    } else if n == "f64"@ {
        reader + ".ReadF64()"@
    } else if n == "bool"@ {
        reader + ".ReadBool()"@
    } else if n == "String"@ || n == "&str"@ {
        reader + ".ReadString()"@
    } else if n == "Vec<u8>"@ {
        reader + ".ReadBytesLen()"@
    } else if is_vec(n) && inner_ok(n, 4) {
        proof {
            crate::typemap::lemma_normalize_len(ty);
        }
        let iov = match ov {
            Some(o) => Some(list_elem_override(o)),
            None => None,
        };
        "Enumerable.Range(0, "@ + reader + ".ReadU32()).Select(_ => "@ + resp(
            reader,
            inner_of(n, 4),
            indent,
            st,
            iov,
        ) + ").ToList()"@
    } else if is_option(n) && inner_ok(n, 7) {
        proof {
            crate::typemap::lemma_normalize_len(ty);
        }
        let iov = match ov {
            Some(o) => Some(trim_end_char(o, '?')),
            None => None,
        };
        reader + ".ReadU8() == 1 ? "@ + resp(reader, inner_of(n, 7), indent, st, iov)
            + " : default"@
    } else {
        match st {
            Some(m) => {
                let tn = match ov {
                    Some(o) => o,
                    None => m.name@,
                };
                match m.kind {
                    TagKind::Struct(fields) => "new "@ + tn + " {\n"@ + join_seq(
                        assigns(reader, fields@, indent + "    "@),
                        ",\n"@,
                    ) + "\n"@ + indent + "}"@,
                    TagKind::Enum(variants) => reader + ".Read"@ + cs_tag_read() + "() switch {\n"@
                        + join_seq(
                        arms(reader, variants@, indent + "    "@).push(
                            indent + "    "@ + "_ => throw new InvalidOperationException(\"unknown enum tag\")"@,
                        ),
                        "\n"@,
                    ) + "\n"@ + indent + "}"@,
                }
            },
            None => reader + ".ReadBytesLen()"@,
        }
    }
}

/// `Name = expr` initializers for the included fields, at indentation `fi`.
pub open spec fn assigns(reader: Seq<char>, fields: Seq<FieldMeta>, fi: Seq<char>) -> Seq<
    Seq<char>,
>
    decreases fields_size(fields), 1nat, fields.len(),
{
    if fields.len() == 0 {
        Seq::empty()
    } else {
        let rest = assigns(reader, fields.drop_last(), fi);
        let f = fields.last();
        if f.skip {
            rest
        } else {
            proof {
                assert(opt_size(f.structure) == crate::meta_spec::field_size(f));
                assert(fields_size(fields) == fields_size(fields.drop_last())
                    + crate::meta_spec::field_size(f));
            }
            rest.push(fi + pascal(f.name@) + " = "@ + resp(reader, f.ty@, fi, f.structure, None))
        }
    }
}

/// The `switch` arms reading each variant, at indentation `ai`.
pub open spec fn arms(reader: Seq<char>, variants: Seq<EnumVariantMeta>, ai: Seq<char>) -> Seq<
    Seq<char>,
>
    decreases variants_size(variants), 2nat, variants.len(),
{
    if variants.len() == 0 {
        Seq::empty()
    } else {
        let rest = arms(reader, variants.drop_last(), ai);
        let v = variants.last();
        let i = dec_nat((variants.len() - 1) as nat);
        if v.fields@.len() == 0 {
            rest.push(ai + i + " => new "@ + v.name@ + "(),"@)
        } else if is_tuple_variant(v) {
            proof {
                lemma_field_size_le(v.fields@, 0);
                assert(opt_size(v.fields@[0].structure) == crate::meta_spec::field_size(
                    v.fields@[0],
                ));
                assert(variants_size(variants) == variants_size(variants.drop_last())
                    + fields_size(v.fields@));
            }
            rest.push(
                ai + i + " => new "@ + v.name@ + "("@ + resp(
                    reader,
                    v.fields@[0].ty@,
                    ai,
                    v.fields@[0].structure,
                    None,
                ) + "),"@,
            )
        } else {
            rest.push(
                ai + i + " => new "@ + v.name@ + " {\n"@ + join_seq(
                    assigns(reader, v.fields@, ai + "    "@),
                    ",\n"@,
                ) + "\n"@ + ai + "},"@,
            )
        }
    }
}


/// An optional borrowed string, by its view.
pub open spec fn opt_view(o: Option<&str>) -> Option<Seq<char>> {
    match o {
        Some(s) => Some(s@),
        None => None,
    }
}

/// An optional structure is well formed when present.
pub open spec fn opt_tag_ok(st: Option<Box<TagMeta>>) -> bool {
    match st {
        Some(m) => tag_ok(*m),
        None => true,
    }
}

fn as_opt_str(o: &Option<String>) -> (r: Option<&str>)
    ensures
        opt_view(r) == match *o {
            Some(s) => Some(s@),
            None => None::<Seq<char>>,
        },
{
    match o {
        Some(s) => Some(s.as_str()),
        None => None,
    }
}

/// Returns the C# expression that reads a value of type `ty` from `reader`.
pub fn response_expr_cs(
    reader: &str,
    ty: &str,
    indent: &str,
    structure: &Option<Box<TagMeta>>,
    override_name: Option<&str>,
) -> (r: String)
    requires
        type_ok(ty@),
        opt_tag_ok(*structure),
    ensures
        r@ == resp(reader@, ty@, indent@, *structure, opt_view(override_name)),
    decreases opt_size(*structure), 0nat, ty@.len(),
{
    proof {
        reveal_strlit("Option<");
        reveal_strlit("Vec<");
        crate::typemap::lemma_normalize_len(ty@);
    }
    let sh = shape_of(ty);
    let n = sh.norm.as_str();
    if str_eq(n, "i8") {
        cat3("(sbyte)", reader, ".ReadI8()")
    } else if str_eq(n, "i16") {
        cat3("(short)", reader, ".ReadI16()")
    } else if str_eq(n, "i32") {
        cat2(reader, ".ReadI32()")
    } else if str_eq(n, "i64") {
        cat2(reader, ".ReadI64()")
    } else if str_eq(n, "u8") {
        cat3("(byte)", reader, ".ReadU8()")
    } else if str_eq(n, "u16") {
        cat3("(ushort)", reader, ".ReadU16()")
    } else if str_eq(n, "u32") {
        cat2(reader, ".ReadU32()")
    } else if str_eq(n, "u64") || str_eq(n, "usize") {
        cat2(reader, ".ReadU64()")
    } else if str_eq(n, "f32") {
        cat2(reader, ".ReadF32()")
    } else if str_eq(n, "f64") {
        cat2(reader, ".ReadF64()")
    } else if str_eq(n, "bool") {
        cat2(reader, ".ReadBool()")
    } else if str_eq(n, "String") || str_eq(n, "&str") {
        cat2(reader, ".ReadString()")
    } else if str_eq(n, "Vec<u8>") {
        cat2(reader, ".ReadBytesLen()")
    } else if sh.vec && check_inner(n, 4) {
        proof {
            assert(n@[0] == "Vec<"@[0]);
            assert(!is_option(n@));
        }
        let inner = inner_type(n, 4);
        let iov: Option<String> = match override_name {
            Some(o) => {
                let a = trim_end_matches(o, '?');
                let b = trim_start_matches_str(a.as_str(), "List<");
                Some(trim_end_matches(b.as_str(), '>'))
            },
            None => None,
        };
        let elem = response_expr_cs(reader, inner.as_str(), indent, structure, as_opt_str(&iov));
        cat5("Enumerable.Range(0, ", reader, ".ReadU32()).Select(_ => ", elem.as_str(), ").ToList()")
    } else if sh.option && check_inner(n, 7) {
        let inner = inner_type(n, 7);
        let iov: Option<String> = match override_name {
            Some(o) => Some(trim_end_matches(o, '?')),
            None => None,
        };
        let body = response_expr_cs(reader, inner.as_str(), indent, structure, as_opt_str(&iov));
        cat4(reader, ".ReadU8() == 1 ? ", body.as_str(), " : default")
    } else {
        match structure {
            Some(m) => {
                let tn: &str = match override_name {
                    Some(o) => o,
                    None => m.name.as_str(),
                };
                match &m.kind {
                    TagKind::Struct(fields) => {
                        let fi = cat2(indent, "    ");
                        proof {
                            assert(fields_size(fields@) < tag_size(**m));
                        }
                        let a = assigns_cs(reader, fields, fi.as_str());
                        let j = join(&a, ",\n");
                        let head = cat4("new ", tn, " {\n", j.as_str());
                        cat4(head.as_str(), "\n", indent, "}")
                    },
                    TagKind::Enum(variants) => {
                        let ai = cat2(indent, "    ");
                        proof {
                            assert(variants_size(variants@) < tag_size(**m));
                        }
                        let mut a = arms_cs(reader, variants, ai.as_str());
                        let ghost before = a@;
                        a.push(cat2(ai.as_str(), "_ => throw new InvalidOperationException(\"unknown enum tag\")"));
                        let j = join(&a, "\n");
                        let head = cat5(reader, ".Read", tag_read(), "() switch {\n", j.as_str());
                        proof {
                            assert(views(a@) =~= views(before).push(
                                ai@ + "_ => throw new InvalidOperationException(\"unknown enum tag\")"@,
                            ));
                        }
                        cat4(head.as_str(), "\n", indent, "}")
                    },
                }
            },
            None => cat2(reader, ".ReadBytesLen()"),
        }
    }
}

fn assigns_cs(reader: &str, fields: &Vec<FieldMeta>, fi: &str) -> (r: Vec<String>)
    requires
        fields_ok(fields@),
    ensures
        views(r@) == assigns(reader@, fields@, fi@),
    decreases fields_size(fields@), 1nat, fields@.len(),
{
    let mut r: Vec<String> = Vec::new();
    let mut i: usize = 0;
    assert(views(r@) =~= Seq::<Seq<char>>::empty());
    while i < fields.len()
        invariant
            fields_ok(fields@),
            i <= fields@.len(),
            views(r@) == assigns(reader@, fields@.subrange(0, i as int), fi@),
        decreases fields@.len() - i,
    {
        let f = &fields[i];
        proof {
            lemma_fields_ok_at(fields@, i as int);
            lemma_field_size_le(fields@, i as int);
            assert(fields@.subrange(0, i + 1).drop_last() =~= fields@.subrange(0, i as int));
            assert(fields@.subrange(0, i + 1).last() == *f);
        }
        if !f.skip {
            let e = response_expr_cs(reader, f.ty.as_str(), fi, &f.structure, None);
            let name = to_pascal_case(f.name.as_str());
            let ghost before = r@;
            r.push(cat4(fi, name.as_str(), " = ", e.as_str()));
            assert(views(r@) =~= views(before).push(
                fi@ + pascal(f.name@) + " = "@ + resp(reader@, f.ty@, fi@, f.structure, None),
            ));
        }
        i = i + 1;
    }
    assert(fields@.subrange(0, fields@.len() as int) =~= fields@);
    r
}

fn arms_cs(reader: &str, variants: &Vec<EnumVariantMeta>, ai: &str) -> (r: Vec<String>)
    requires
        variants_ok(variants@),
    ensures
        views(r@) == arms(reader@, variants@, ai@),
    decreases variants_size(variants@), 2nat, variants@.len(),
{
    let mut r: Vec<String> = Vec::new();
    let mut i: usize = 0;
    assert(views(r@) =~= Seq::<Seq<char>>::empty());
    while i < variants.len()
        invariant
            variants_ok(variants@),
            i <= variants@.len(),
            views(r@) == arms(reader@, variants@.subrange(0, i as int), ai@),
        decreases variants@.len() - i,
    {
        let v = &variants[i];
        proof {
            lemma_variants_ok_at(variants@, i as int);
            lemma_variant_size_le(variants@, i as int);
            assert(variants@.subrange(0, i + 1).drop_last() =~= variants@.subrange(0, i as int));
            assert(variants@.subrange(0, i + 1).last() == *v);
        }
        let idx = dec_usize(i);
        let ghost before = r@;
        if v.fields.len() == 0 {
            r.push(cat5(ai, idx.as_str(), " => new ", v.name.as_str(), "(),"));
        } else if tuple_variant(v) {
            proof {
                lemma_fields_ok_at(v.fields@, 0);
                lemma_field_size_le(v.fields@, 0);
            }
            let e = response_expr_cs(reader, v.fields[0].ty.as_str(), ai, &v.fields[0].structure, None);
            let head = cat5(ai, idx.as_str(), " => new ", v.name.as_str(), "(");
            r.push(cat3(head.as_str(), e.as_str(), "),"));
        } else {
            let fi = cat2(ai, "    ");
            let a = assigns_cs(reader, &v.fields, fi.as_str());
            let j = join(&a, ",\n");
            let head = cat5(ai, idx.as_str(), " => new ", v.name.as_str(), " {\n");
            r.push(cat5(head.as_str(), j.as_str(), "\n", ai, "},"));
        }
        proof {
            assert(views(r@).drop_last() =~= views(before));
        }
        i = i + 1;
    }
    assert(variants@.subrange(0, variants@.len() as int) =~= variants@);
    r
}


/// Appends the statement returning the response of type `ty`, read from
/// `reader`; a unit type returns nothing.
pub open spec fn return_lines(
    reader: Seq<char>,
    ty: Seq<char>,
    resp_type: Seq<char>,
    indent: Seq<char>,
    st: Option<Box<TagMeta>>,
) -> Seq<Seq<char>> {
    if ty == "()"@ {
        seq![indent + "return;"@]
    } else {
        seq![indent + "return "@ + resp(reader, ty, indent, st, Some(resp_type)) + ";"@]
    }
}

/// Emits the statement returning the decoded response.
pub fn generate_return_cs(
    cb: &mut CodeBuf,
    reader: &str,
    ty: &str,
    resp_type: &str,
    indent: &str,
    structure: &Option<Box<TagMeta>>,
)
    requires
        type_ok(ty@),
        opt_tag_ok(*structure),
    ensures
        final(cb)@ == old(cb)@ + return_lines(reader@, ty@, resp_type@, indent@, *structure),
{
    if str_eq(ty, "()") {
        cb.push(cat2(indent, "return;"));
        return;
    }
    let e = response_expr_cs(reader, ty, indent, structure, Some(resp_type));
    cb.push(cat4(indent, "return ", e.as_str(), ";"));
}

/// The C# statements writing `var`, of Rust type `ty`, to the writer `w`.
pub open spec fn ser(var: Seq<char>, ty: Seq<char>, indent: Seq<char>, st: Option<Box<TagMeta>>) -> Seq<
    Seq<char>,
>
    decreases opt_size(st), 0nat, ty.len(),
{
    let n = normalize(ty);
    let one = |m: Seq<char>| seq![indent + "w."@ + m + "("@ + var + ");"@];
    if n == "i8"@ {
        one("WriteI8"@)
    } else if n == "i16"@ {
        one("WriteI16"@)
    } else if n == "i32"@ {
        one("WriteI32"@)
    } else if n == "i64"@ {
        one("WriteI64"@)
    } else if n == "u8"@ {
        one("WriteU8"@)
    } else if n == "u16"@ {
        one("WriteU16"@)
    } else if n == "u32"@ {
        one("WriteU32"@)
    } else if n == "u64"@ {
        one("WriteU64"@)
    } else if n == "usize"@ {
        seq![indent + "w.WriteU64((long)"@ + var + ");"@]
    } else if n == "f32"@ {
        one("WriteF32"@)
    } else if n == "f64"@ {
        one("WriteF64"@)
    } else if n == "bool"@ {
        one("WriteBool"@)
    } else if n == "String"@ || n == "&str"@ {
        one("WriteString"@)
    } else if is_vec(n) && inner_ok(n, 4) {
        proof {
            crate::typemap::lemma_normalize_len(ty);
        }
        seq![
            indent + "w.WriteU32("@ + var + ".Count);"@,
            indent + "foreach (var _e in "@ + var + ")"@,
            indent + "{"@,
        ] + ser("_e"@, inner_of(n, 4), indent + "    "@, st) + seq![indent + "}"@]
    } else if is_option(n) && inner_ok(n, 7) {
        proof {
            crate::typemap::lemma_normalize_len(ty);
        }
        seq![indent + "if ("@ + var + " == default) { w.WriteU8(0); } else { w.WriteU8(1);"@]
            + ser(var, inner_of(n, 7), indent + "    "@, st) + seq![indent + "}"@]
    } else {
        match st {
            Some(m) => match m.kind {
                TagKind::Struct(fields) => ser_fields(var, fields@, indent),
                TagKind::Enum(variants) => seq![indent + "switch ("@ + var + ")"@, indent + "{"@]
                    + ser_variants(variants@, indent) + seq![indent + "}"@],
            },
            None => seq![indent + "w.WriteBytes("@ + var + ".__Raw);"@],
        }
    }
}

/// The statements writing the included fields `base.Field` of a value.
pub open spec fn ser_fields(base: Seq<char>, fields: Seq<FieldMeta>, indent: Seq<char>) -> Seq<
    Seq<char>,
>
    decreases fields_size(fields), 1nat, fields.len(),
{
    if fields.len() == 0 {
        Seq::empty()
    } else {
        let rest = ser_fields(base, fields.drop_last(), indent);
        let f = fields.last();
        if f.skip {
            rest
        } else {
            proof {
                assert(opt_size(f.structure) == crate::meta_spec::field_size(f));
            }
            rest + ser(base + "."@ + pascal(f.name@), f.ty@, indent, f.structure)
        }
    }
}

/// The `case` blocks writing each variant's tag and payload.
pub open spec fn ser_variants(variants: Seq<EnumVariantMeta>, indent: Seq<char>) -> Seq<Seq<char>>
    decreases variants_size(variants), 2nat, variants.len(),
{
    if variants.len() == 0 {
        Seq::empty()
    } else {
        let rest = ser_variants(variants.drop_last(), indent);
        let v = variants.last();
        let i = dec_nat((variants.len() - 1) as nat);
        if v.fields@.len() == 0 {
            rest.push(
                indent + "    case "@ + v.name@ + ": w."@ + cs_tag_write() + "("@ + i + "); break;"@,
            )
        } else if is_tuple_variant(v) {
            proof {
                lemma_field_size_le(v.fields@, 0);
                assert(opt_size(v.fields@[0].structure) == crate::meta_spec::field_size(
                    v.fields@[0],
                ));
            }
            rest + seq![
                indent + "    case "@ + v.name@ + " v: w."@ + cs_tag_write() + "("@ + i + ");"@,
            ] + ser(
                "v."@ + pascal(v.fields@[0].name@),
                v.fields@[0].ty@,
                indent + "        "@,
                v.fields@[0].structure,
            ) + seq![indent + "        break;"@]
        } else {
            rest + seq![
                indent + "    case "@ + v.name@ + " v: w."@ + cs_tag_write() + "("@ + i + ");"@,
            ] + ser_fields("v"@, v.fields@, indent + "        "@) + seq![indent + "        break;"@]
        }
    }
}

fn push_write(cb: &mut CodeBuf, indent: &str, method: &str, var: &str)
    ensures
        final(cb)@ == old(cb)@.push(indent@ + "w."@ + method@ + "("@ + var@ + ");"@),
{
    cb.push(cat6(indent, "w.", method, "(", var, ");"));
}

/// Emits the statements that serialise `var` of type `ty`.
pub fn generate_request_serialize_cs(
    cb: &mut CodeBuf,
    var: &str,
    ty: &str,
    indent: &str,
    structure: &Option<Box<TagMeta>>,
)
    requires
        type_ok(ty@),
        opt_tag_ok(*structure),
    ensures
        final(cb)@ == old(cb)@ + ser(var@, ty@, indent@, *structure),
    decreases opt_size(*structure), 0nat, ty@.len(),
{
    proof {
        reveal_strlit("Option<");
        reveal_strlit("Vec<");
        crate::typemap::lemma_normalize_len(ty@);
    }
    let sh = shape_of(ty);
    let n = sh.norm.as_str();
    let ghost start = cb@;
    if str_eq(n, "i8") {
        push_write(cb, indent, "WriteI8", var);
    } else if str_eq(n, "i16") {
        push_write(cb, indent, "WriteI16", var);
    } else if str_eq(n, "i32") {
        push_write(cb, indent, "WriteI32", var);
    } else if str_eq(n, "i64") {
        push_write(cb, indent, "WriteI64", var);
    } else if str_eq(n, "u8") {
        push_write(cb, indent, "WriteU8", var);
    } else if str_eq(n, "u16") {
        push_write(cb, indent, "WriteU16", var);
    } else if str_eq(n, "u32") {
        push_write(cb, indent, "WriteU32", var);
    } else if str_eq(n, "u64") {
        push_write(cb, indent, "WriteU64", var);
    } else if str_eq(n, "usize") {
        cb.push(cat4(indent, "w.WriteU64((long)", var, ");"));
    } else if str_eq(n, "f32") {
        push_write(cb, indent, "WriteF32", var);
    } else if str_eq(n, "f64") {
        push_write(cb, indent, "WriteF64", var);
    } else if str_eq(n, "bool") {
        push_write(cb, indent, "WriteBool", var);
    } else if str_eq(n, "String") || str_eq(n, "&str") {
        push_write(cb, indent, "WriteString", var);
    } else if sh.vec && check_inner(n, 4) {
        proof {
            assert(n@[0] == "Vec<"@[0]);
            assert(!is_option(n@));
        }
        let inner = inner_type(n, 4);
        cb.push(cat4(indent, "w.WriteU32(", var, ".Count);"));
        cb.push(cat4(indent, "foreach (var _e in ", var, ")"));
        cb.push(cat2(indent, "{"));
        let ii = cat2(indent, "    ");
        let ghost mid = cb@;
        generate_request_serialize_cs(cb, "_e", inner.as_str(), ii.as_str(), structure);
        let ghost after = cb@;
        cb.push(cat2(indent, "}"));
        proof {
            let head = seq![
                indent@ + "w.WriteU32("@ + var@ + ".Count);"@,
                indent@ + "foreach (var _e in "@ + var@ + ")"@,
                indent@ + "{"@,
            ];
            assert(mid =~= start + head);
            assert(cb@ =~= start + (head + ser("_e"@, inner@, ii@, *structure) + seq![indent@ + "}"@]));
        }
    } else if sh.option && check_inner(n, 7) {
        let inner = inner_type(n, 7);
        cb.push(cat4(indent, "if (", var, " == default) { w.WriteU8(0); } else { w.WriteU8(1);"));
        let ii = cat2(indent, "    ");
        generate_request_serialize_cs(cb, var, inner.as_str(), ii.as_str(), structure);
        cb.push(cat2(indent, "}"));
        proof {
            let head = seq![indent@ + "if ("@ + var@ + " == default) { w.WriteU8(0); } else { w.WriteU8(1);"@];
            assert(cb@ =~= start + (head + ser(var@, inner@, ii@, *structure) + seq![indent@ + "}"@]));
        }
    } else {
        match structure {
            Some(m) => {
                match &m.kind {
                    TagKind::Struct(fields) => {
                        proof {
                            assert(fields_size(fields@) < tag_size(**m));
                        }
                        serialize_fields_cs(cb, var, fields, indent);
                    },
                    TagKind::Enum(variants) => {
                        proof {
                            assert(variants_size(variants@) < tag_size(**m));
                        }
                        cb.push(cat4(indent, "switch (", var, ")"));
                        cb.push(cat2(indent, "{"));
                        serialize_variants_cs(cb, variants, indent);
                        cb.push(cat2(indent, "}"));
                        proof {
                            let head = seq![indent@ + "switch ("@ + var@ + ")"@, indent@ + "{"@];
                            assert(cb@ =~= start + (head + ser_variants(variants@, indent@) + seq![
                                indent@ + "}"@,
                            ]));
                        }
                    },
                }
            },
            None => {
                cb.push(cat4(indent, "w.WriteBytes(", var, ".__Raw);"));
            },
        }
    }
}

/// Emits the statements writing the included fields `base.Field`.
pub fn serialize_fields_pub(cb: &mut CodeBuf, base: &str, fields: &Vec<FieldMeta>, indent: &str)
    requires
        fields_ok(fields@),
    ensures
        final(cb)@ == old(cb)@ + ser_fields(base@, fields@, indent@),
{
    serialize_fields_cs(cb, base, fields, indent);
}

fn serialize_fields_cs(cb: &mut CodeBuf, base: &str, fields: &Vec<FieldMeta>, indent: &str)
    requires
        fields_ok(fields@),
    ensures
        final(cb)@ == old(cb)@ + ser_fields(base@, fields@, indent@),
    decreases fields_size(fields@), 1nat, fields@.len(),
{
    let mut i: usize = 0;
    while i < fields.len()
        invariant
            fields_ok(fields@),
            i <= fields@.len(),
            cb@ == old(cb)@ + ser_fields(base@, fields@.subrange(0, i as int), indent@),
        decreases fields@.len() - i,
    {
        let f = &fields[i];
        proof {
            lemma_fields_ok_at(fields@, i as int);
            lemma_field_size_le(fields@, i as int);
            assert(fields@.subrange(0, i + 1).drop_last() =~= fields@.subrange(0, i as int));
            assert(fields@.subrange(0, i + 1).last() == *f);
        }
        if !f.skip {
            let name = to_pascal_case(f.name.as_str());
            let fv = cat3(base, ".", name.as_str());
            let ghost before = cb@;
            generate_request_serialize_cs(cb, fv.as_str(), f.ty.as_str(), indent, &f.structure);
            assert(cb@ =~= before + ser(base@ + "."@ + pascal(f.name@), f.ty@, indent@, f.structure));
        }
        i = i + 1;
    }
    assert(fields@.subrange(0, fields@.len() as int) =~= fields@);
}

fn serialize_variants_cs(cb: &mut CodeBuf, variants: &Vec<EnumVariantMeta>, indent: &str)
    requires
        variants_ok(variants@),
    ensures
        final(cb)@ == old(cb)@ + ser_variants(variants@, indent@),
    decreases variants_size(variants@), 2nat, variants@.len(),
{
    let mut i: usize = 0;
    while i < variants.len()
        invariant
            variants_ok(variants@),
            i <= variants@.len(),
            cb@ == old(cb)@ + ser_variants(variants@.subrange(0, i as int), indent@),
        decreases variants@.len() - i,
    {
        let v = &variants[i];
        proof {
            lemma_variants_ok_at(variants@, i as int);
            lemma_variant_size_le(variants@, i as int);
            assert(variants@.subrange(0, i + 1).drop_last() =~= variants@.subrange(0, i as int));
            assert(variants@.subrange(0, i + 1).last() == *v);
        }
        let idx = dec_usize(i);
        let ghost before = cb@;
        if v.fields.len() == 0 {
            let head = cat5(indent, "    case ", v.name.as_str(), ": w.", tag_write());
            cb.push(cat4(head.as_str(), "(", idx.as_str(), "); break;"));
        } else if tuple_variant(v) {
            proof {
                lemma_fields_ok_at(v.fields@, 0);
                lemma_field_size_le(v.fields@, 0);
            }
            let head = cat5(indent, "    case ", v.name.as_str(), " v: w.", tag_write());
            cb.push(cat4(head.as_str(), "(", idx.as_str(), ");"));
            let name = to_pascal_case(v.fields[0].name.as_str());
            let fv = cat2("v.", name.as_str());
            let ii = cat2(indent, "        ");
            generate_request_serialize_cs(cb, fv.as_str(), v.fields[0].ty.as_str(), ii.as_str(), &v.fields[0].structure);
            cb.push(cat2(indent, "        break;"));
        } else {
            let head = cat5(indent, "    case ", v.name.as_str(), " v: w.", tag_write());
            cb.push(cat4(head.as_str(), "(", idx.as_str(), ");"));
            let ii = cat2(indent, "        ");
            serialize_fields_cs(cb, "v", &v.fields, ii.as_str());
            cb.push(cat2(indent, "        break;"));
        }
        proof {
            let w = ser_variants(variants@.subrange(0, i + 1), indent@);
            assert(cb@ =~= old(cb)@ + w);
        }
        i = i + 1;
    }
    assert(variants@.subrange(0, variants@.len() as int) =~= variants@);
}

/// The C# decoder reads every number at the width and kind the server
/// writes it with: for a Rust type the server encodes as a `k` number of
/// `b` bits, the expression ends with a call of the reader method
/// `Read{k}{b}` on the reader (`ReadI64`, eight bytes, for an `i64`),
/// whatever the indentation, layout or type name given.
pub proof fn law_cs_reads_numbers_at_their_width(
    reader: Seq<char>,
    ty: Seq<char>,
    indent: Seq<char>,
    st: Option<Box<TagMeta>>,
    ov: Option<Seq<char>>,
)
    requires
        number_encoding(normalize(ty)) is Some,
    ensures
        ({
            let e = number_encoding(normalize(ty))->0;
            exists|pre: Seq<char>|
                resp(reader, ty, indent, st, ov) == #[trigger] (pre + reader) + ".Read"@ + width_suffix(e.0, e.1)
                    + "()"@
        }),
{
    lemma_number_type_names();
    reveal_strlit(".Read");
    reveal_strlit("()");
    reveal_strlit(".ReadI8()");
    reveal_strlit(".ReadI16()");
    reveal_strlit(".ReadI32()");
    reveal_strlit(".ReadI64()");
    reveal_strlit(".ReadU8()");
    reveal_strlit(".ReadU16()");
    reveal_strlit(".ReadU32()");
    reveal_strlit(".ReadU64()");
    reveal_strlit(".ReadF32()");
    reveal_strlit(".ReadF64()");
    lemma_bit_texts();
    let n = normalize(ty);
    let e = number_encoding(n)->0;
    let k = e.0;
    let b = e.1;
    let r = resp(reader, ty, indent, st, ov);
    let tail = ".Read"@ + width_suffix(k, b) + "()"@;
    let pre: Seq<char> = if n == "i8"@ {
        "(sbyte)"@
    } else if n == "i16"@ {
        "(short)"@
    } else if n == "u8"@ {
        "(byte)"@
    } else if n == "u16"@ {
        "(ushort)"@
    } else {
        Seq::empty()
    };
    assert(r =~= (pre + reader) + tail);
}

/// The C# encoder writes every number at the width and kind the server
/// reads it with: the statement is one call of the writer method
/// `Write{k}{b}` (`WriteI64` for an `i64`) on the value, cast to `long`
/// for a `usize`.
pub proof fn law_cs_writes_numbers_at_their_width(
    var: Seq<char>,
    ty: Seq<char>,
    indent: Seq<char>,
    st: Option<Box<TagMeta>>,
)
    requires
        number_encoding(normalize(ty)) is Some,
    ensures
        ({
            let e = number_encoding(normalize(ty))->0;
            exists|cast: Seq<char>|
                (cast == Seq::<char>::empty() || cast == "(long)"@) && ser(var, ty, indent, st) == seq![
                    indent + "w.Write"@ + width_suffix(e.0, e.1) + "("@ + #[trigger] (cast + var) + ");"@,
                ]
        }),
{
    lemma_number_type_names();
    lemma_bit_texts();
    reveal_strlit("w.Write");
    reveal_strlit("w.");
    reveal_strlit("w.WriteU64((long)");
    reveal_strlit("(long)");
    reveal_strlit("(");
    reveal_strlit(");");
    reveal_strlit("WriteI8");
    reveal_strlit("WriteI16");
    reveal_strlit("WriteI32");
    reveal_strlit("WriteI64");
    reveal_strlit("WriteU8");
    reveal_strlit("WriteU16");
    reveal_strlit("WriteU32");
    reveal_strlit("WriteU64");
    reveal_strlit("WriteF32");
    reveal_strlit("WriteF64");
    let e = number_encoding(normalize(ty))->0;
    let cast: Seq<char> = if normalize(ty) == "usize"@ { "(long)"@ } else { Seq::empty() };
    let line = indent + "w.Write"@ + width_suffix(e.0, e.1) + "("@ + (cast + var) + ");"@;
    assert(ser(var, ty, indent, st)[0] =~= line);
    assert(ser(var, ty, indent, st) =~= seq![line]);
}

/// The C# decoder reads a list as the server writes it: a 32-bit
/// unsigned count first, then the elements, each decoded as the element
/// type.
pub proof fn law_cs_reads_lists_as_count_then_elements(
    reader: Seq<char>,
    ty: Seq<char>,
    indent: Seq<char>,
    st: Option<Box<TagMeta>>,
    ov: Option<Seq<char>>,
)
    requires
        is_vec(normalize(ty)),
        inner_ok(normalize(ty), 4),
        normalize(ty) != "Vec<u8>"@,
    ensures
        exists|pre: Seq<char>, mid: Seq<char>, post: Seq<char>, iov: Option<Seq<char>>|
            resp(reader, ty, indent, st, ov) == pre + reader + ".Read"@ + width_suffix('U', 32) + "()"@ + mid + resp(reader, inner_of(normalize(ty), 4), indent, st, iov) + post,
{
    lemma_number_type_names();
    lemma_bit_texts();
    reveal_strlit("Vec<");
    let n = normalize(ty);
    assert(n.subrange(0, 4) == "Vec<"@);
    assert(n[0] == "Vec<"@[0]);
    reveal_strlit(".Read");
    reveal_strlit("()");
    reveal_strlit(".ReadU32()).Select(_ => ");
    reveal_strlit(").Select(_ => ");
    reveal_strlit("Enumerable.Range(0, ");
    let iov = match ov {
        Some(o) => Some(list_elem_override(o)),
        None => None,
    };
    let e = resp(reader, inner_of(normalize(ty), 4), indent, st, iov);
    assert(resp(reader, ty, indent, st, ov) =~= "Enumerable.Range(0, "@ + reader + ".Read"@ + width_suffix('U', 32) + "()"@ + ").Select(_ => "@ + e + ").ToList()"@);
}

/// The C# encoder writes a list as the server reads it: a 32-bit
/// unsigned count first, then each element, encoded as the element type.
pub proof fn law_cs_writes_lists_as_count_then_elements(
    var: Seq<char>,
    ty: Seq<char>,
    indent: Seq<char>,
    st: Option<Box<TagMeta>>,
)
    requires
        is_vec(normalize(ty)),
        inner_ok(normalize(ty), 4),
    ensures
        exists|tail: Seq<char>, mid: Seq<Seq<char>>, post: Seq<Seq<char>>|
            ser(var, ty, indent, st) == seq![indent + "w.Write"@ + width_suffix('U', 32) + "("@ + var + tail] + mid + ser("_e"@, inner_of(normalize(ty), 4), indent + "    "@, st) + post,
{
    lemma_number_type_names();
    lemma_bit_texts();
    reveal_strlit("Vec<");
    let n = normalize(ty);
    assert(n.subrange(0, 4) == "Vec<"@);
    assert(n[0] == "Vec<"@[0]);
    reveal_strlit("w.Write");
    reveal_strlit("(");
    reveal_strlit("w.WriteU32(");
    reveal_strlit(".Count);");
    let b = ser("_e"@, inner_of(normalize(ty), 4), indent + "    "@, st);
    let l0 = indent + "w.Write"@ + width_suffix('U', 32) + "("@ + var + ".Count);"@;
    let s = ser(var, ty, indent, st);
    assert(s[0] =~= l0);
    let mid: Seq<Seq<char>> = seq![indent + "foreach (var _e in "@ + var + ")"@, indent + "{"@];
    let post: Seq<Seq<char>> = seq![indent + "}"@];
    assert(s =~= seq![l0] + mid + b + post);
}

/// The C# decoder reads an optional value as the server writes it: a
/// presence byte first (`ReadU8`), then, when it is 1, the value decoded
/// as the inner type.
pub proof fn law_cs_reads_options_as_presence_then_value(
    reader: Seq<char>,
    ty: Seq<char>,
    indent: Seq<char>,
    st: Option<Box<TagMeta>>,
    ov: Option<Seq<char>>,
)
    requires
        is_option(normalize(ty)),
        inner_ok(normalize(ty), 7),
    ensures
        exists|mid: Seq<char>, post: Seq<char>, iov: Option<Seq<char>>|
            resp(reader, ty, indent, st, ov) == reader + ".Read"@ + width_suffix('U', 8) + "() == 1"@ + mid
                + resp(reader, inner_of(normalize(ty), 7), indent, st, iov) + post,
{
    lemma_number_type_names();
    lemma_bit_texts();
    reveal_strlit("Option<");
    reveal_strlit("Vec<");
    let n = normalize(ty);
    assert(n.subrange(0, 7) == "Option<"@);
    assert(n[0] == "Option<"@[0]);
    reveal_strlit(".Read");
    reveal_strlit("() == 1");
    reveal_strlit(".ReadU8() == 1 ? ");
    reveal_strlit(" ? ");
    let iov = match ov {
        Some(o) => Some(trim_end_char(o, '?')),
        None => None,
    };
    let e = resp(reader, inner_of(n, 7), indent, st, iov);
    assert(resp(reader, ty, indent, st, ov) =~= reader + ".Read"@ + width_suffix('U', 8) + "() == 1"@ + " ? "@ + e
        + " : default"@);
}

/// The C# encoder writes an optional value as the server reads it: a
/// presence byte 0 when absent, else 1 followed by the value encoded as the
/// inner type.
pub proof fn law_cs_writes_options_as_presence_then_value(
    var: Seq<char>,
    ty: Seq<char>,
    indent: Seq<char>,
    st: Option<Box<TagMeta>>,
)
    requires
        is_option(normalize(ty)),
        inner_ok(normalize(ty), 7),
    ensures
        exists|a: Seq<char>, b: Seq<char>, post: Seq<Seq<char>>|
            ser(var, ty, indent, st) == seq![
                a + "w.Write"@ + width_suffix('U', 8) + "(0);"@ + b + "w.Write"@ + width_suffix('U', 8) + "(1);"@,
            ] + ser(var, inner_of(normalize(ty), 7), indent + "    "@, st) + post,
{
    lemma_number_type_names();
    lemma_bit_texts();
    reveal_strlit("Option<");
    reveal_strlit("Vec<");
    let n = normalize(ty);
    assert(n.subrange(0, 7) == "Option<"@);
    assert(n[0] == "Option<"@[0]);
    reveal_strlit("w.Write");
    reveal_strlit("(0);");
    reveal_strlit("(1);");
    reveal_strlit(" == default) { w.WriteU8(0); } else { w.WriteU8(1);");
    reveal_strlit("if (");
    reveal_strlit(" } else { ");
    reveal_strlit(" == default) { ");
    let l0 = (indent + "if ("@ + var + " == default) { "@) + "w.Write"@ + width_suffix('U', 8) + "(0);"@ + " } else { "@
        + "w.Write"@ + width_suffix('U', 8) + "(1);"@;
    let s = ser(var, ty, indent, st);
    assert(s[0] =~= l0);
    let b = ser(var, inner_of(n, 7), indent + "    "@, st);
    assert(s =~= seq![l0] + b + seq![indent + "}"@]);
}

/// The C# client reads and writes a `bool` with the one-byte boolean
/// methods (`ReadBool`, `WriteBool`), as the server writes a `bool` as one
/// byte.
pub proof fn law_cs_bools_travel_as_one_byte(
    reader: Seq<char>,
    var: Seq<char>,
    ty: Seq<char>,
    indent: Seq<char>,
    st: Option<Box<TagMeta>>,
    ov: Option<Seq<char>>,
)
    requires
        normalize(ty) == "bool"@,
    ensures
        resp(reader, ty, indent, st, ov) == reader + ".ReadBool()"@,
        ser(var, ty, indent, st) == seq![indent + "w.WriteBool("@ + var + ");"@],
{
    lemma_number_type_names();
    reveal_strlit("WriteBool");
    reveal_strlit("w.WriteBool(");
    reveal_strlit("w.");
    reveal_strlit("(");
    assert(ser(var, ty, indent, st)[0] =~= indent + "w.WriteBool("@ + var + ");"@);
    assert(ser(var, ty, indent, st) =~= seq![indent + "w.WriteBool("@ + var + ");"@]);
}

} // verus!
