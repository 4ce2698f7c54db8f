//! Rust code that reads responses from and writes requests to the binary
//! protocol.

use vstd::prelude::*;
use crate::wire::{lemma_bit_texts, lemma_number_type_names, number_encoding, width_suffix_lower};
use crate::buf::CodeBuf;
use crate::cs::codec::opt_tag_ok;
use crate::cs::typedefs::{is_tuple_variant, tuple_variant};
use crate::meta_spec::{
    field_ok, fields_ok, fields_size, lemma_field_size_le, lemma_fields_ok_at, lemma_variant_size_le,
    lemma_variants_ok_at, opt_size, tag_ok, tag_size, variants_ok, variants_size,
};
use crate::model::{EnumVariantMeta, FieldMeta, TagKind, TagMeta};
use crate::naming::{snake, to_snake_case};
use crate::rs::typedefs::{rs_tag_read, rs_tag_write, tag_read, tag_write};
use crate::text::{cat2, cat3, cat4, cat5, cat6, cat7, dec_nat, dec_usize, join, join_seq, str_eq, views};
use crate::typemap::{
    check_inner, inner_ok, inner_of, inner_type, is_option, is_vec, normalize, normalize_rust_type, raw_ok,
    shape_of, type_ok,
};

verus! {

/// The override name of an optional value's content: the argument of a
/// normalised `Option<..>` override.
pub open spec fn inner_override(ov: Option<Seq<char>>) -> Option<Seq<char>> {
    match ov {
        Some(o) => {
            let n = normalize(o);
            if is_option(n) && inner_ok(n, 7) {
                Some(inner_of(n, 7))
            } else {
                None
            }
        },
        None => None,
    }
}

/// An override name can be cut out, again and again, while it names
/// `Option<..>`.
pub open spec fn ov_ok(o: Seq<char>) -> bool
    decreases o.len(),
{
    let n = normalize(o);
    if is_option(n) {
        inner_ok(n, 7) && {
            proof {
                crate::typemap::lemma_normalize_len(o);
            }
            ov_ok(inner_of(n, 7))
        }
    } else {
        true
    }
}

/// An optional override name can be cut out.
pub open spec fn override_ok(ov: Option<Seq<char>>) -> bool {
    match ov {
        Some(o) => ov_ok(o),
        None => true,
    }
}

/// The Rust expression reading a value of type `ty` from `reader`; structs
/// and enums are named `ov` when given.
pub open spec fn resp(
    reader: Seq<char>,
    ty: Seq<char>,
    indent: Seq<char>,
    st: Option<Box<TagMeta>>,
    ov: Option<Seq<char>>,
) -> Seq<char>
    decreases opt_size(st), 0nat, ty.len(),
{
    let n = normalize(ty);
    let raw_bytes = "{ let _len = "@ + reader + ".read_u32() as usize; "@ + reader + ".read_bytes_len(_len) }"@;
    if n == "i8"@ {
        reader + ".read_i8()"@
    } else if n == "i16"@ {
        reader + ".read_i16()"@
    } else if n == "i32"@ {
        reader + ".read_i32()"@
    } else if n == "i64"@ {
        reader + ".read_i64()"@
    } else if n == "u8"@ {
        reader + ".read_u8()"@
    } else if n == "u16"@ {
        reader + ".read_u16()"@
    } else if n == "u32"@ {
        reader + ".read_u32()"@
    } else if n == "u64"@ || n == "usize"@ {
        reader + ".read_u64()"@
    } else if n == "f32"@ {
        reader + ".read_f32()"@
    } else if n == "f64"@ {
        reader + ".read_f64()"@
    } else if n == "bool"@ {
        reader + ".read_bool()"@
    } else if n == "String"@ || n == "&str"@ {
        reader + ".read_str()"@
    } else if n == "Vec<u8>"@ {
        raw_bytes
    } else if is_vec(n) && inner_ok(n, 4) {
        proof {
            crate::typemap::lemma_normalize_len(ty);
        }
        "{ let _count = "@ + reader + ".read_u32() as usize; (0.._count).map(|_| "@ + resp(
            reader,
            inner_of(n, 4),
            indent,
            st,
            None,
        ) + ").collect::<Vec<_>>() }"@
    } else if is_option(n) && inner_ok(n, 7) {
        proof {
            crate::typemap::lemma_normalize_len(ty);
        }
        "if "@ + reader + ".read_u8() == 1 { Some("@ + resp(reader, inner_of(n, 7), indent, st, inner_override(ov))
            + ") } else { None }"@
    } else {
        match st {
            Some(m) => {
                let tn = match ov {
                    Some(o) => o,
                    None => m.name@,
                };
                let ii = indent + "    "@;
                match m.kind {
                    TagKind::Struct(fields) => tn + " {\n"@ + join_seq(entries(reader, fields@, ii, ii + "    "@), "\n"@)
                        + "\n"@ + indent + "}"@,
                    TagKind::Enum(variants) => "match "@ + reader + "."@ + rs_tag_read() + "() {\n"@ + join_seq(
                        arms(reader, variants@, tn, indent + "        "@, indent + "            "@).push(
                            indent + "        "@ + "    v => panic!(\"unknown enum tag {} for "@ + tn + "\", v),"@,
                        ),
                        "\n"@,
                    ) + "\n"@ + ii + "}"@,
                }
            },
            None => raw_bytes,
        }
    }
}

/// `name: expr,` lines for the included fields: each starts with `li`, the
/// nested expressions are indented by `ei`.
pub open spec fn entries(reader: Seq<char>, fields: Seq<FieldMeta>, ei: Seq<char>, li: Seq<char>) -> Seq<Seq<char>>
    decreases fields_size(fields), 1nat, fields.len(),
{
    if fields.len() == 0 {
        Seq::empty()
    } else {
        let rest = entries(reader, fields.drop_last(), ei, li);
        let f = fields.last();
        if f.skip {
            rest
        } else {
            proof {
                assert(opt_size(f.structure) == crate::meta_spec::field_size(f));
                assert(fields_size(fields) == fields_size(fields.drop_last())
                    + crate::meta_spec::field_size(f));
            }
            rest.push(li + snake(f.name@) + ": "@ + resp(reader, f.ty@, ei, f.structure, None) + ","@)
        }
    }
}

/// The `match` arms reading each variant, at indentation `di`; the fields
/// of struct-like variants are read at indentation `fi`.
pub open spec fn arms(reader: Seq<char>, variants: Seq<EnumVariantMeta>, tn: Seq<char>, di: Seq<char>, fi: Seq<char>) -> Seq<Seq<char>>
    decreases variants_size(variants), 2nat, variants.len(),
{
    if variants.len() == 0 {
        Seq::empty()
    } else {
        let rest = arms(reader, variants.drop_last(), tn, di, fi);
        let v = variants.last();
        let head = di + "    "@ + dec_nat((variants.len() - 1) as nat) + " => "@ + tn + "::"@ + v.name@;
        if v.fields@.len() == 0 {
            rest.push(head + ","@)
        } else if is_tuple_variant(v) {
            proof {
                lemma_field_size_le(v.fields@, 0);
                assert(opt_size(v.fields@[0].structure) == crate::meta_spec::field_size(
                    v.fields@[0],
                ));
                assert(variants_size(variants) == variants_size(variants.drop_last())
                    + fields_size(v.fields@));
            }
            rest.push(head + "("@ + resp(reader, v.fields@[0].ty@, di, v.fields@[0].structure, None) + "),"@)
        } else {
            rest.push(
                head + " {\n"@ + join_seq(entries(reader, v.fields@, fi, di + "        "@), "\n"@) + "\n"@ + di
                    + "    },"@,
            )
        }
    }
}

fn inner_override_text(ov: Option<&str>) -> (r: Option<String>)
    requires
        override_ok(match ov {
            Some(o) => Some(o@),
            None => None,
        }),
    ensures
        match r {
            Some(s) => inner_override(match ov {
                Some(o) => Some(o@),
                None => None,
            }) == Some(s@),
            None => inner_override(match ov {
                Some(o) => Some(o@),
                None => None,
            }) is None,
        },
{
    match ov {
        Some(o) => {
            let n = normalize_rust_type(o);
            proof {
                reveal_strlit("Option<");
            }
            if crate::text::starts_with(n.as_str(), "Option<") && check_inner(n.as_str(), 7) {
                Some(inner_type(n.as_str(), 7))
            } else {
                None
            }
        },
        None => None,
    }
}

fn as_opt_str(o: &Option<String>) -> (r: Option<&str>)
    ensures
        (match r {
            Some(s) => Some(s@),
            None => None,
        }) == (match *o {
            Some(t) => Some(t@),
            None => None::<Seq<char>>,
        }),
{
    match o {
        Some(s) => Some(s.as_str()),
        None => None,
    }
}

/// Returns the Rust expression that reads a value of type `ty` from `reader`.
pub fn response_expr_rs(
    reader: &str,
    ty: &str,
    indent: &str,
    structure: &Option<Box<TagMeta>>,
    override_name: Option<&str>,
) -> (r: String)
    requires
        type_ok(ty@),
        opt_tag_ok(*structure),
        override_ok(match override_name {
            Some(o) => Some(o@),
            None => None,
        }),
    ensures
        r@ == resp(reader@, ty@, indent@, *structure, match override_name {
            Some(o) => Some(o@),
            None => None,
        }),
    decreases opt_size(*structure), 0nat, ty@.len(),
{
    proof {
        reveal_strlit("Option<");
        reveal_strlit("Vec<");
        crate::typemap::lemma_normalize_len(ty@);
    }
    let ghost ov = match override_name {
        Some(o) => Some(o@),
        None => None,
    };
    let sh = shape_of(ty);
    let n = sh.norm.as_str();
    if str_eq(n, "i8") {
        cat2(reader, ".read_i8()")
    } else if str_eq(n, "i16") {
        cat2(reader, ".read_i16()")
    } else if str_eq(n, "i32") {
        cat2(reader, ".read_i32()")
    } else if str_eq(n, "i64") {
        cat2(reader, ".read_i64()")
    } else if str_eq(n, "u8") {
        cat2(reader, ".read_u8()")
    } else if str_eq(n, "u16") {
        cat2(reader, ".read_u16()")
    } else if str_eq(n, "u32") {
        cat2(reader, ".read_u32()")
    } else if str_eq(n, "u64") || str_eq(n, "usize") {
        cat2(reader, ".read_u64()")
    } else if str_eq(n, "f32") {
        cat2(reader, ".read_f32()")
    } else if str_eq(n, "f64") {
        cat2(reader, ".read_f64()")
    } else if str_eq(n, "bool") {
        cat2(reader, ".read_bool()")
    } else if str_eq(n, "String") || str_eq(n, "&str") {
        cat2(reader, ".read_str()")
    } else if str_eq(n, "Vec<u8>") {
        cat5("{ let _len = ", reader, ".read_u32() as usize; ", reader, ".read_bytes_len(_len) }")
    } else if sh.vec && check_inner(n, 4) {
        proof {
            assert(n@[0] == "Vec<"@[0]);
            assert(!is_option(n@));
        }
        let inner = inner_type(n, 4);
        let elem = response_expr_rs(reader, inner.as_str(), indent, structure, None);
        cat5("{ let _count = ", reader, ".read_u32() as usize; (0.._count).map(|_| ", elem.as_str(), ").collect::<Vec<_>>() }")
    } else if sh.option && check_inner(n, 7) {
        let inner = inner_type(n, 7);
        let iov = inner_override_text(override_name);
        let body = response_expr_rs(reader, inner.as_str(), indent, structure, as_opt_str(&iov));
        cat5("if ", reader, ".read_u8() == 1 { Some(", body.as_str(), ") } else { None }")
    } else {
        match structure {
            Some(m) => {
                let tn: &str = match override_name {
                    Some(o) => o,
                    None => m.name.as_str(),
                };
                let ii = cat2(indent, "    ");
                match &m.kind {
                    TagKind::Struct(fields) => {
                        proof {
                            assert(fields_size(fields@) < tag_size(**m));
                        }
                        let li = cat2(ii.as_str(), "    ");
                        let a = entries_rs(reader, fields, ii.as_str(), li.as_str());
                        let j = join(&a, "\n");
                        cat6(tn, " {\n", j.as_str(), "\n", indent, "}")
                    },
                    TagKind::Enum(variants) => {
                        let di = cat2(indent, "        ");
                        let fi = cat2(indent, "            ");
                        proof {
                            assert(variants_size(variants@) < tag_size(**m));
                        }
                        let mut a = arms_rs(reader, variants, tn, di.as_str(), fi.as_str());
                        let ghost before = views(a@);
                        let last = cat4(di.as_str(), "    v => panic!(\"unknown enum tag {} for ", tn, "\", v),");
                        a.push(last);
                        assert(views(a@) =~= before.push(
                            di@ + "    v => panic!(\"unknown enum tag {} for "@ + tn@ + "\", v),"@,
                        ));
                        let j = join(&a, "\n");
                        let head = cat5("match ", reader, ".", tag_read(), "() {\n");
                        cat5(head.as_str(), j.as_str(), "\n", ii.as_str(), "}")
                    },
                }
            },
            None => cat5("{ let _len = ", reader, ".read_u32() as usize; ", reader, ".read_bytes_len(_len) }"),
        }
    }
}

fn entries_rs(reader: &str, fields: &Vec<FieldMeta>, ei: &str, li: &str) -> (r: Vec<String>)
    requires
        fields_ok(fields@),
    ensures
        views(r@) == entries(reader@, fields@, ei@, li@),
    decreases fields_size(fields@), 1nat, fields@.len(),
{
    let mut r: Vec<String> = Vec::new();
    let mut i: usize = 0;
    assert(views(r@) =~= Seq::<Seq<char>>::empty());
    while i < fields.len()
        invariant
            fields_ok(fields@),
            i <= fields@.len(),
            views(r@) == entries(reader@, fields@.subrange(0, i as int), ei@, li@),
        decreases fields@.len() - i,
    {
        let f = &fields[i];
        proof {
            lemma_fields_ok_at(fields@, i as int);
            lemma_field_size_le(fields@, i as int);
            assert(fields@.subrange(0, i + 1).drop_last() =~= fields@.subrange(0, i as int));
            assert(fields@.subrange(0, i + 1).last() == *f);
        }
        if !f.skip {
            let e = response_expr_rs(reader, f.ty.as_str(), ei, &f.structure, None);
            let n = to_snake_case(f.name.as_str());
            let ghost before = r@;
            r.push(cat5(li, n.as_str(), ": ", e.as_str(), ","));
            assert(views(r@) =~= views(before).push(
                li@ + snake(f.name@) + ": "@ + resp(reader@, f.ty@, ei@, f.structure, None) + ","@,
            ));
        }
        i = i + 1;
    }
    assert(fields@.subrange(0, fields@.len() as int) =~= fields@);
    r
}

fn arms_rs(reader: &str, variants: &Vec<EnumVariantMeta>, tn: &str, di: &str, fi: &str) -> (r: Vec<String>)
    requires
        variants_ok(variants@),
    ensures
        views(r@) == arms(reader@, variants@, tn@, di@, fi@),
    decreases variants_size(variants@), 2nat, variants@.len(),
{
    let mut r: Vec<String> = Vec::new();
    let mut i: usize = 0;
    assert(views(r@) =~= Seq::<Seq<char>>::empty());
    while i < variants.len()
        invariant
            variants_ok(variants@),
            i <= variants@.len(),
            views(r@) == arms(reader@, variants@.subrange(0, i as int), tn@, di@, fi@),
        decreases variants@.len() - i,
    {
        let v = &variants[i];
        proof {
            lemma_variants_ok_at(variants@, i as int);
            lemma_variant_size_le(variants@, i as int);
            assert(variants@.subrange(0, i + 1).drop_last() =~= variants@.subrange(0, i as int));
            assert(variants@.subrange(0, i + 1).last() == *v);
        }
        let idx = dec_usize(i);
        let head = cat7(di, "    ", idx.as_str(), " => ", tn, "::", v.name.as_str());
        let ghost before = r@;
        if v.fields.len() == 0 {
            r.push(cat2(head.as_str(), ","));
        } else if tuple_variant(v) {
            proof {
                lemma_fields_ok_at(v.fields@, 0);
                lemma_field_size_le(v.fields@, 0);
            }
            let e = response_expr_rs(reader, v.fields[0].ty.as_str(), di, &v.fields[0].structure, None);
            r.push(cat4(head.as_str(), "(", e.as_str(), "),"));
        } else {
            let li = cat2(di, "        ");
            let a = entries_rs(reader, &v.fields, fi, li.as_str());
            let j = join(&a, "\n");
            r.push(cat6(head.as_str(), " {\n", j.as_str(), "\n", di, "    },"));
        }
        proof {
            assert(views(r@).drop_last() =~= views(before));
        }
        i = i + 1;
    }
    assert(variants@.subrange(0, variants@.len() as int) =~= variants@);
    r
}

/// The statement returning the decoded response of type `ty`, read from
/// `reader` and named `resp_type`; a unit type returns `Ok(())`.
pub open spec fn return_lines(
    reader: Seq<char>,
    ty: Seq<char>,
    resp_type: Seq<char>,
    indent: Seq<char>,
    st: Option<Box<TagMeta>>,
) -> Seq<Seq<char>> {
    if ty == "()"@ {
        seq![indent + "Ok(())"@]
    } else {
        seq![indent + "Ok("@ + resp(reader, ty, indent, st, Some(resp_type)) + ")"@]
    }
}

/// Emits the statement returning the decoded response.
pub fn generate_return_rs(
    cb: &mut CodeBuf,
    reader: &str,
    ty: &str,
    resp_type: &str,
    indent: &str,
    structure: &Option<Box<TagMeta>>,
)
    requires
        type_ok(ty@),
        opt_tag_ok(*structure),
        override_ok(Some(resp_type@)),
    ensures
        final(cb)@ == old(cb)@ + return_lines(reader@, ty@, resp_type@, indent@, *structure),
{
    if str_eq(ty, "()") {
        cb.push(cat2(indent, "Ok(())"));
        return;
    }
    let e = response_expr_rs(reader, ty, indent, structure, Some(resp_type));
    cb.push(cat4(indent, "Ok(", e.as_str(), ")"));
}

/// The Rust statements writing `var`, of Rust type `ty` as written, to the
/// writer `w`; a type with no layout writes nothing.
pub open spec fn ser(var: Seq<char>, ty: Seq<char>, indent: Seq<char>, st: Option<Box<TagMeta>>) -> Seq<Seq<char>>
    decreases opt_size(st), 0nat, ty.len(),
{
    let one = |m: Seq<char>| seq![indent + "w."@ + m + "("@ + var + ");"@];
    if ty == "i8"@ {
        one("write_i8"@)
    } else if ty == "i16"@ {
        one("write_i16"@)
    } else if ty == "i32"@ {
        one("write_i32"@)
    } else if ty == "i64"@ {
        one("write_i64"@)
    } else if ty == "u8"@ {
        one("write_u8"@)
    } else if ty == "u16"@ {
        one("write_u16"@)
    } else if ty == "u32"@ {
        one("write_u32"@)
    } else if ty == "u64"@ {
        one("write_u64"@)
    } else if ty == "usize"@ {
        seq![indent + "w.write_u64("@ + var + " as u64);"@]
    } else if ty == "f32"@ {
        one("write_f32"@)
    } else if ty == "f64"@ {
        one("write_f64"@)
    } else if ty == "bool"@ {
        one("write_bool"@)
    } else if ty == "String"@ || ty == "&str"@ {
        seq![indent + "w.write_str(&"@ + var + ");"@]
    } else if is_vec(ty) && inner_ok(ty, 4) {
        let inner = inner_of(ty, 4);
        seq![indent + "w.write_u32("@ + var + ".len() as u32);"@] + if inner == "u8"@ {
            seq![indent + "w.write_raw(&"@ + var + ");"@]
        } else {
            seq![indent + "for _e in &"@ + var + " {"@] + ser("_e"@, inner, indent + "    "@, st) + seq![
                indent + "}"@,
            ]
        }
    } else if is_option(ty) && inner_ok(ty, 7) {
        seq![indent + "if let Some(ref _v) = "@ + var + " {"@, indent + "    w.write_u8(1);"@] + ser(
            "_v"@,
            inner_of(ty, 7),
            indent + "    "@,
            st,
        ) + seq![indent + "} else {"@, indent + "    w.write_u8(0);"@, indent + "}"@]
    } else {
        match st {
            Some(m) => match m.kind {
                TagKind::Struct(fields) => ser_fields(var, fields@, indent),
                TagKind::Enum(variants) => seq![indent + "match &"@ + var + " {"@] + ser_variants(
                    m.name@,
                    variants@,
                    indent,
                ) + seq![indent + "}"@],
            },
            None => Seq::empty(),
        }
    }
}

/// The statements writing the included fields `base.field` of a value.
pub open spec fn ser_fields(base: Seq<char>, fields: Seq<FieldMeta>, indent: Seq<char>) -> Seq<Seq<char>>
    decreases fields_size(fields), 1nat, fields.len(),
{
    if fields.len() == 0 {
        Seq::empty()
    } else {
        let rest = ser_fields(base, fields.drop_last(), indent);
        let f = fields.last();
        if f.skip {
            rest
        } else {
            proof {
                assert(opt_size(f.structure) == crate::meta_spec::field_size(f));
            }
            rest + ser(base + "."@ + snake(f.name@), f.ty@, indent, f.structure)
        }
    }
}

/// The statements writing the included fields bound as `_field`.
pub open spec fn ser_bound(fields: Seq<FieldMeta>, indent: Seq<char>) -> Seq<Seq<char>>
    decreases fields_size(fields), 1nat, fields.len(),
{
    if fields.len() == 0 {
        Seq::empty()
    } else {
        let rest = ser_bound(fields.drop_last(), indent);
        let f = fields.last();
        if f.skip {
            rest
        } else {
            proof {
                assert(opt_size(f.structure) == crate::meta_spec::field_size(f));
            }
            rest + ser("_"@ + snake(f.name@), f.ty@, indent, f.structure)
        }
    }
}

/// The bindings `name: ref _name` of all fields of a struct-like variant.
pub open spec fn bindings(fields: Seq<FieldMeta>) -> Seq<Seq<char>> {
    fields.map_values(|f: FieldMeta| snake(f.name@) + ": ref _"@ + snake(f.name@))
}

/// The `match` arms writing each variant's tag and payload.
pub open spec fn ser_variants(en: Seq<char>, variants: Seq<EnumVariantMeta>, indent: Seq<char>) -> Seq<Seq<char>>
    decreases variants_size(variants), 2nat, variants.len(),
{
    if variants.len() == 0 {
        Seq::empty()
    } else {
        let rest = ser_variants(en, variants.drop_last(), indent);
        let v = variants.last();
        let di = indent + "        "@;
        let i = dec_nat((variants.len() - 1) as nat);
        let tag = di + "        w."@ + rs_tag_write() + "("@ + i + ");"@;
        if v.fields@.len() == 0 {
            rest.push(di + "    "@ + en + "::"@ + v.name@ + " => w."@ + rs_tag_write() + "("@ + i + "),"@)
        } else if is_tuple_variant(v) {
            proof {
                lemma_field_size_le(v.fields@, 0);
                assert(opt_size(v.fields@[0].structure) == crate::meta_spec::field_size(v.fields@[0]));
            }
            rest + seq![di + "    "@ + en + "::"@ + v.name@ + "(_v) => {"@, tag] + ser(
                "_v"@,
                v.fields@[0].ty@,
                di,
                v.fields@[0].structure,
            ) + seq![di + "    }"@]
        } else {
            rest + seq![
                di + "    "@ + en + "::"@ + v.name@ + " { "@ + join_seq(bindings(v.fields@), ", "@) + " } => {"@,
                tag,
            ] + ser_bound(v.fields@, di) + seq![di + "    }"@]
        }
    }
}

fn push_write(cb: &mut CodeBuf, indent: &str, method: &str, var: &str)
    ensures
        final(cb)@ == old(cb)@.push(indent@ + "w."@ + method@ + "("@ + var@ + ");"@),
{
    cb.push(cat6(indent, "w.", method, "(", var, ");"));
}

/// Emits the statements that serialise `var` of type `ty` (as written).
pub fn generate_request_serialize_rs(
    cb: &mut CodeBuf,
    var: &str,
    ty: &str,
    indent: &str,
    structure: &Option<Box<TagMeta>>,
)
    requires
        raw_ok(ty@),
        opt_tag_ok(*structure),
    ensures
        final(cb)@ == old(cb)@ + ser(var@, ty@, indent@, *structure),
    decreases opt_size(*structure), 0nat, ty@.len(),
{
    proof {
        reveal_strlit("Option<");
        reveal_strlit("Vec<");
    }
    let ghost start = cb@;
    if str_eq(ty, "i8") {
        push_write(cb, indent, "write_i8", var);
    } else if str_eq(ty, "i16") {
        push_write(cb, indent, "write_i16", var);
    } else if str_eq(ty, "i32") {
        push_write(cb, indent, "write_i32", var);
    } else if str_eq(ty, "i64") {
        push_write(cb, indent, "write_i64", var);
    } else if str_eq(ty, "u8") {
        push_write(cb, indent, "write_u8", var);
    } else if str_eq(ty, "u16") {
        push_write(cb, indent, "write_u16", var);
    } else if str_eq(ty, "u32") {
        push_write(cb, indent, "write_u32", var);
    } else if str_eq(ty, "u64") {
        push_write(cb, indent, "write_u64", var);
    } else if str_eq(ty, "usize") {
        cb.push(cat4(indent, "w.write_u64(", var, " as u64);"));
    } else if str_eq(ty, "f32") {
        push_write(cb, indent, "write_f32", var);
    } else if str_eq(ty, "f64") {
        push_write(cb, indent, "write_f64", var);
    } else if str_eq(ty, "bool") {
        push_write(cb, indent, "write_bool", var);
    } else if str_eq(ty, "String") || str_eq(ty, "&str") {
        cb.push(cat4(indent, "w.write_str(&", var, ");"));
    } else if crate::text::starts_with(ty, "Vec<") && check_inner(ty, 4) {
        proof {
            assert(ty@[0] == "Vec<"@[0]);
            assert(!is_option(ty@));
        }
        let inner = inner_type(ty, 4);
        cb.push(cat4(indent, "w.write_u32(", var, ".len() as u32);"));
        if str_eq(inner.as_str(), "u8") {
            cb.push(cat4(indent, "w.write_raw(&", var, ");"));
        } else {
            cb.push(cat4(indent, "for _e in &", var, " {"));
            let ii = cat2(indent, "    ");
            generate_request_serialize_rs(cb, "_e", inner.as_str(), ii.as_str(), structure);
            cb.push(cat2(indent, "}"));
        }
        assert(cb@ =~= start + ser(var@, ty@, indent@, *structure));
    } else if crate::text::starts_with(ty, "Option<") && check_inner(ty, 7) {
        let inner = inner_type(ty, 7);
        cb.push(cat4(indent, "if let Some(ref _v) = ", var, " {"));
        cb.push(cat2(indent, "    w.write_u8(1);"));
        let ii = cat2(indent, "    ");
        generate_request_serialize_rs(cb, "_v", inner.as_str(), ii.as_str(), structure);
        cb.push(cat2(indent, "} else {"));
        cb.push(cat2(indent, "    w.write_u8(0);"));
        cb.push(cat2(indent, "}"));
        assert(cb@ =~= start + ser(var@, ty@, indent@, *structure));
    } else {
        match structure {
            Some(m) => {
                match &m.kind {
                    TagKind::Struct(fields) => {
                        proof {
                            assert(fields_size(fields@) < tag_size(**m));
                        }
                        serialize_fields_rs(cb, var, fields, indent);
                    },
                    TagKind::Enum(variants) => {
                        proof {
                            assert(variants_size(variants@) < tag_size(**m));
                        }
                        cb.push(cat4(indent, "match &", var, " {"));
                        serialize_variants_rs(cb, m.name.as_str(), variants, indent);
                        cb.push(cat2(indent, "}"));
                        assert(cb@ =~= start + (seq![indent@ + "match &"@ + var@ + " {"@] + ser_variants(
                            m.name@,
                            variants@,
                            indent@,
                        ) + seq![indent@ + "}"@]));
                    },
                }
            },
            None => {
                assert(cb@ =~= start + Seq::<Seq<char>>::empty());
            },
        }
    }
}

pub(crate) fn serialize_fields_rs(cb: &mut CodeBuf, base: &str, fields: &Vec<FieldMeta>, indent: &str)
    requires
        fields_ok(fields@),
    ensures
        final(cb)@ == old(cb)@ + ser_fields(base@, fields@, indent@),
    decreases fields_size(fields@), 1nat, fields@.len(),
{
    let mut i: usize = 0;
    while i < fields.len()
        invariant
            fields_ok(fields@),
            i <= fields@.len(),
            cb@ == old(cb)@ + ser_fields(base@, fields@.subrange(0, i as int), indent@),
        decreases fields@.len() - i,
    {
        let f = &fields[i];
        proof {
            lemma_fields_ok_at(fields@, i as int);
            lemma_field_size_le(fields@, i as int);
            assert(fields@.subrange(0, i + 1).drop_last() =~= fields@.subrange(0, i as int));
            assert(fields@.subrange(0, i + 1).last() == *f);
        }
        if !f.skip {
            let n = to_snake_case(f.name.as_str());
            let fv = cat3(base, ".", n.as_str());
            let ghost before = cb@;
            generate_request_serialize_rs(cb, fv.as_str(), f.ty.as_str(), indent, &f.structure);
            assert(cb@ =~= before + ser(base@ + "."@ + snake(f.name@), f.ty@, indent@, f.structure));
        }
        i = i + 1;
    }
    assert(fields@.subrange(0, fields@.len() as int) =~= fields@);
}

fn serialize_bound_rs(cb: &mut CodeBuf, fields: &Vec<FieldMeta>, indent: &str)
    requires
        fields_ok(fields@),
    ensures
        final(cb)@ == old(cb)@ + ser_bound(fields@, indent@),
    decreases fields_size(fields@), 1nat, fields@.len(),
{
    let mut i: usize = 0;
    while i < fields.len()
        invariant
            fields_ok(fields@),
            i <= fields@.len(),
            cb@ == old(cb)@ + ser_bound(fields@.subrange(0, i as int), indent@),
        decreases fields@.len() - i,
    {
        let f = &fields[i];
        proof {
            lemma_fields_ok_at(fields@, i as int);
            lemma_field_size_le(fields@, i as int);
            assert(fields@.subrange(0, i + 1).drop_last() =~= fields@.subrange(0, i as int));
            assert(fields@.subrange(0, i + 1).last() == *f);
        }
        if !f.skip {
            let n = to_snake_case(f.name.as_str());
            let fv = cat2("_", n.as_str());
            let ghost before = cb@;
            generate_request_serialize_rs(cb, fv.as_str(), f.ty.as_str(), indent, &f.structure);
            assert(cb@ =~= before + ser("_"@ + snake(f.name@), f.ty@, indent@, f.structure));
        }
        i = i + 1;
    }
    assert(fields@.subrange(0, fields@.len() as int) =~= fields@);
}

fn bindings_text(fields: &Vec<FieldMeta>) -> (r: String)
    ensures
        r@ == join_seq(bindings(fields@), ", "@),
{
    let mut v: Vec<String> = Vec::new();
    let mut i: usize = 0;
    while i < fields.len()
        invariant
            i <= fields@.len(),
            v@.len() == i,
            views(v@) == bindings(fields@.subrange(0, i as int)),
        decreases fields@.len() - i,
    {
        let n = to_snake_case(fields[i].name.as_str());
        let item = cat3(n.as_str(), ": ref _", n.as_str());
        let ghost old_v = v@;
        v.push(item);
        proof {
            let pre = fields@.subrange(0, i + 1);
            let sub = fields@.subrange(0, i as int);
            assert forall|k: int| 0 <= k < pre.len() implies views(v@)[k] == bindings(pre)[k] by {
                if k < i {
                    assert(pre[k] == sub[k]);
                    assert(v@[k] == old_v[k]);
                    assert(views(old_v)[k] == bindings(sub)[k]);
                }
            }
            assert(views(v@) =~= bindings(pre));
        }
        i = i + 1;
    }
    assert(fields@.subrange(0, fields@.len() as int) =~= fields@);
    join(&v, ", ")
}

fn serialize_variants_rs(cb: &mut CodeBuf, en: &str, variants: &Vec<EnumVariantMeta>, indent: &str)
    requires
        variants_ok(variants@),
    ensures
        final(cb)@ == old(cb)@ + ser_variants(en@, variants@, indent@),
    decreases variants_size(variants@), 2nat, variants@.len(),
{
    let di = cat2(indent, "        ");
    let mut i: usize = 0;
    while i < variants.len()
        invariant
            variants_ok(variants@),
            i <= variants@.len(),
            di@ == indent@ + "        "@,
            cb@ == old(cb)@ + ser_variants(en@, variants@.subrange(0, i as int), indent@),
        decreases variants@.len() - i,
    {
        let v = &variants[i];
        proof {
            lemma_variants_ok_at(variants@, i as int);
            lemma_variant_size_le(variants@, i as int);
            assert(variants@.subrange(0, i + 1).drop_last() =~= variants@.subrange(0, i as int));
            assert(variants@.subrange(0, i + 1).last() == *v);
        }
        let idx = dec_usize(i);
        let ghost before = cb@;
        if v.fields.len() == 0 {
            let head = cat6(di.as_str(), "    ", en, "::", v.name.as_str(), " => w.");
            cb.push(cat5(head.as_str(), tag_write(), "(", idx.as_str(), "),"));
        } else {
            let tag = cat6(di.as_str(), "        w.", tag_write(), "(", idx.as_str(), ");");
            if tuple_variant(v) {
                proof {
                    lemma_fields_ok_at(v.fields@, 0);
                    lemma_field_size_le(v.fields@, 0);
                }
                cb.push(cat6(di.as_str(), "    ", en, "::", v.name.as_str(), "(_v) => {"));
                cb.push(tag);
                generate_request_serialize_rs(cb, "_v", v.fields[0].ty.as_str(), di.as_str(), &v.fields[0].structure);
            } else {
                let b = bindings_text(&v.fields);
                let head = cat6(di.as_str(), "    ", en, "::", v.name.as_str(), " { ");
                cb.push(cat3(head.as_str(), b.as_str(), " } => {"));
                cb.push(tag);
                serialize_bound_rs(cb, &v.fields, di.as_str());
            }
            cb.push(cat2(di.as_str(), "    }"));
        }
        proof {
            let w = ser_variants(en@, variants@.subrange(0, i + 1), indent@);
            assert(cb@ =~= old(cb)@ + w);
        }
        i = i + 1;
    }
    assert(variants@.subrange(0, variants@.len() as int) =~= variants@);
}

/// The Rust decoder reads every number at the width and kind the server
/// writes it with: the expression is one call of the reader method
/// `read_{k}{b}` (`read_i64` for an `i64`).
pub proof fn law_rs_reads_numbers_at_their_width(
    reader: Seq<char>,
    ty: Seq<char>,
    indent: Seq<char>,
    st: Option<Box<TagMeta>>,
    ov: Option<Seq<char>>,
)
    requires
        number_encoding(normalize(ty)) is Some,
    ensures
        ({
            let e = number_encoding(normalize(ty))->0;
            resp(reader, ty, indent, st, ov) == reader + ".read_"@ + width_suffix_lower(e.0, e.1) + "()"@
        }),
{
    lemma_number_type_names();
    lemma_bit_texts();
    reveal_strlit(".read_");
    reveal_strlit("()");
    reveal_strlit(".read_i8()");
    reveal_strlit(".read_i16()");
    reveal_strlit(".read_i32()");
    reveal_strlit(".read_i64()");
    reveal_strlit(".read_u8()");
    reveal_strlit(".read_u16()");
    reveal_strlit(".read_u32()");
    reveal_strlit(".read_u64()");
    reveal_strlit(".read_f32()");
    reveal_strlit(".read_f64()");
    let e = number_encoding(normalize(ty))->0;
    assert(resp(reader, ty, indent, st, ov) =~= reader + ".read_"@ + width_suffix_lower(e.0, e.1) + "()"@);
}

/// The Rust encoder writes every number at the width and kind the server
/// reads it with: the statement is one call of the writer method
/// `write_{k}{b}` (`write_i64` for an `i64`) on the value, converted to
/// `u64` for a `usize`.
pub proof fn law_rs_writes_numbers_at_their_width(
    var: Seq<char>,
    ty: Seq<char>,
    indent: Seq<char>,
    st: Option<Box<TagMeta>>,
)
    requires
        number_encoding(ty) is Some,
    ensures
        ({
            let e = number_encoding(ty)->0;
            exists|conv: Seq<char>|
                (conv == Seq::<char>::empty() || conv == " as u64"@) && ser(var, ty, indent, st) == seq![
                    indent + "w.write_"@ + width_suffix_lower(e.0, e.1) + "("@ + #[trigger] (var + conv) + ");"@,
                ]
        }),
{
    lemma_number_type_names();
    lemma_bit_texts();
    reveal_strlit("w.write_");
    reveal_strlit("w.");
    reveal_strlit("w.write_u64(");
    reveal_strlit(" as u64);");
    reveal_strlit(" as u64");
    reveal_strlit("(");
    reveal_strlit(");");
    reveal_strlit("write_i8");
    reveal_strlit("write_i16");
    reveal_strlit("write_i32");
    reveal_strlit("write_i64");
    reveal_strlit("write_u8");
    reveal_strlit("write_u16");
    reveal_strlit("write_u32");
    reveal_strlit("write_u64");
    reveal_strlit("write_f32");
    reveal_strlit("write_f64");
    let e = number_encoding(ty)->0;
    let conv: Seq<char> = if ty == "usize"@ { " as u64"@ } else { Seq::empty() };
    let line = indent + "w.write_"@ + width_suffix_lower(e.0, e.1) + "("@ + (var + conv) + ");"@;
    assert(ser(var, ty, indent, st)[0] =~= line);
    assert(ser(var, ty, indent, st) =~= seq![line]);
}

/// The Rust decoder reads a list as the server writes it: a 32-bit
/// unsigned count first, then the elements, each decoded as the element
/// type.
pub proof fn law_rs_reads_lists_as_count_then_elements(
    reader: Seq<char>,
    ty: Seq<char>,
    indent: Seq<char>,
    st: Option<Box<TagMeta>>,
    ov: Option<Seq<char>>,
)
    requires
        is_vec(normalize(ty)),
        inner_ok(normalize(ty), 4),
        normalize(ty) != "Vec<u8>"@,
    ensures
        exists|pre: Seq<char>, mid: Seq<char>, post: Seq<char>|
            resp(reader, ty, indent, st, ov) == pre + reader + ".read_"@ + width_suffix_lower('U', 32) + "()"@ + mid + resp(reader, inner_of(normalize(ty), 4), indent, st, None) + post,
{
    lemma_number_type_names();
    lemma_bit_texts();
    reveal_strlit("Vec<");
    let n = normalize(ty);
    assert(n.subrange(0, 4) == "Vec<"@);
    assert(n[0] == "Vec<"@[0]);
    reveal_strlit(".read_");
    reveal_strlit("()");
    reveal_strlit(".read_u32() as usize; (0.._count).map(|_| ");
    reveal_strlit(" as usize; (0.._count).map(|_| ");
    reveal_strlit("{ let _count = ");
    let e = resp(reader, inner_of(normalize(ty), 4), indent, st, None);
    assert(resp(reader, ty, indent, st, ov) =~= "{ let _count = "@ + reader + ".read_"@ + width_suffix_lower('U', 32) + "()"@ + " as usize; (0.._count).map(|_| "@ + e + ").collect::<Vec<_>>() }"@);
}

/// The Rust encoder writes a list as the server reads it: a 32-bit unsigned
/// count first, then each element, encoded as the element type (bytes of
/// a `Vec<u8>` are written raw after the count).
pub proof fn law_rs_writes_lists_as_count_then_elements(
    var: Seq<char>,
    ty: Seq<char>,
    indent: Seq<char>,
    st: Option<Box<TagMeta>>,
)
    requires
        is_vec(ty),
        inner_ok(ty, 4),
        inner_of(ty, 4) != "u8"@,
    ensures
        exists|tail: Seq<char>, mid: Seq<Seq<char>>, post: Seq<Seq<char>>|
            ser(var, ty, indent, st) == seq![indent + "w.write_"@ + width_suffix_lower('U', 32) + "("@ + var + tail]
                + mid + ser("_e"@, inner_of(ty, 4), indent + "    "@, st) + post,
{
    lemma_number_type_names();
    lemma_bit_texts();
    reveal_strlit("Vec<");
    assert(ty.subrange(0, 4) == "Vec<"@);
    assert(ty[0] == "Vec<"@[0]);
    reveal_strlit("w.write_");
    reveal_strlit("(");
    reveal_strlit("w.write_u32(");
    reveal_strlit(".len() as u32);");
    let b = ser("_e"@, inner_of(ty, 4), indent + "    "@, st);
    let l0 = indent + "w.write_"@ + width_suffix_lower('U', 32) + "("@ + var + ".len() as u32);"@;
    let s = ser(var, ty, indent, st);
    assert(s[0] =~= l0);
    let mid: Seq<Seq<char>> = seq![indent + "for _e in &"@ + var + " {"@];
    let post: Seq<Seq<char>> = seq![indent + "}"@];
    assert(s =~= seq![l0] + mid + b + post);
}

/// The Rust decoder reads an optional value as the server writes it: a
/// presence byte first (`read_u8`), then, when it is 1, the value decoded
/// as the inner type, and `None` otherwise.
pub proof fn law_rs_reads_options_as_presence_then_value(
    reader: Seq<char>,
    ty: Seq<char>,
    indent: Seq<char>,
    st: Option<Box<TagMeta>>,
    ov: Option<Seq<char>>,
)
    requires
        is_option(normalize(ty)),
        inner_ok(normalize(ty), 7),
    ensures
        exists|pre: Seq<char>, mid: Seq<char>, post: Seq<char>, iov: Option<Seq<char>>|
            resp(reader, ty, indent, st, ov) == pre + reader + ".read_"@ + width_suffix_lower('U', 8) + "() == 1"@
                + mid + resp(reader, inner_of(normalize(ty), 7), indent, st, iov) + post,
{
    lemma_number_type_names();
    lemma_bit_texts();
    reveal_strlit("Option<");
    reveal_strlit("Vec<");
    let n = normalize(ty);
    assert(n.subrange(0, 7) == "Option<"@);
    assert(n[0] == "Option<"@[0]);
    reveal_strlit(".read_");
    reveal_strlit("() == 1");
    reveal_strlit(".read_u8() == 1 { Some(");
    reveal_strlit(" { Some(");
    reveal_strlit("if ");
    let e = resp(reader, inner_of(n, 7), indent, st, inner_override(ov));
    assert(resp(reader, ty, indent, st, ov) =~= "if "@ + reader + ".read_"@ + width_suffix_lower('U', 8) + "() == 1"@
        + " { Some("@ + e + ") } else { None }"@);
}

/// The Rust encoder writes an optional value as the server reads it: a
/// presence byte 1 followed by the value encoded as the inner type when
/// there is one, else a presence byte 0.
pub proof fn law_rs_writes_options_as_presence_then_value(
    var: Seq<char>,
    ty: Seq<char>,
    indent: Seq<char>,
    st: Option<Box<TagMeta>>,
)
    requires
        is_option(ty),
        inner_ok(ty, 7),
    ensures
        exists|first: Seq<char>|
            ser(var, ty, indent, st) == seq![first, indent + "    w.write_"@ + width_suffix_lower('U', 8) + "(1);"@]
                + ser("_v"@, inner_of(ty, 7), indent + "    "@, st) + seq![
                indent + "} else {"@,
                indent + "    w.write_"@ + width_suffix_lower('U', 8) + "(0);"@,
                indent + "}"@,
            ],
{
    lemma_number_type_names();
    lemma_bit_texts();
    reveal_strlit("Option<");
    reveal_strlit("Vec<");
    assert(ty.subrange(0, 7) == "Option<"@);
    assert(ty[0] == "Option<"@[0]);
    reveal_strlit("    w.write_");
    reveal_strlit("(1);");
    reveal_strlit("(0);");
    reveal_strlit("    w.write_u8(1);");
    reveal_strlit("    w.write_u8(0);");
    let s = ser(var, ty, indent, st);
    let l1 = indent + "    w.write_"@ + width_suffix_lower('U', 8) + "(1);"@;
    let l4 = indent + "    w.write_"@ + width_suffix_lower('U', 8) + "(0);"@;
    assert(s[1] =~= l1);
    let b = ser("_v"@, inner_of(ty, 7), indent + "    "@, st);
    assert(s[b.len() as int + 3] =~= l4);
    assert(s =~= seq![s[0], l1] + b + seq![indent + "} else {"@, l4, indent + "}"@]);
}

/// The Rust client reads and writes a `bool` with the one-byte boolean
/// methods (`read_bool`, `write_bool`), as the server writes a `bool` as
/// one byte.
pub proof fn law_rs_bools_travel_as_one_byte(
    reader: Seq<char>,
    var: Seq<char>,
    ty: Seq<char>,
    indent: Seq<char>,
    st: Option<Box<TagMeta>>,
    ov: Option<Seq<char>>,
)
    ensures
        normalize(ty) == "bool"@ ==> resp(reader, ty, indent, st, ov) == reader + ".read_bool()"@,
        ty == "bool"@ ==> ser(var, ty, indent, st) == seq![indent + "w.write_bool("@ + var + ");"@],
{
    lemma_number_type_names();
    reveal_strlit("write_bool");
    reveal_strlit("w.write_bool(");
    reveal_strlit("w.");
    reveal_strlit("(");
    if ty == "bool"@ {
        assert(ser(var, ty, indent, st)[0] =~= indent + "w.write_bool("@ + var + ");"@);
        assert(ser(var, ty, indent, st) =~= seq![indent + "w.write_bool("@ + var + ");"@]);
    }
}

} // verus!
