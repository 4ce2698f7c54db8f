//! JavaScript code that reads responses from and writes requests to the
//! binary protocol.

use vstd::prelude::*;
use crate::wire::{lemma_bit_texts, lemma_number_type_names, number_encoding, width_suffix};
use crate::buf::CodeBuf;
use crate::cs::codec::opt_tag_ok;
use crate::cs::typedefs::{is_tuple_variant, tuple_variant};
use crate::js::typedefs::{js_tag_read, js_tag_write, tag_read, tag_write};
use crate::meta_spec::{
    field_ok, fields_ok, fields_size, lemma_field_size_le, lemma_fields_ok_at, lemma_variant_size_le,
    lemma_variants_ok_at, opt_size, tag_ok, tag_size, variants_ok, variants_size,
};
use crate::model::{EnumVariantMeta, FieldMeta, TagKind, TagMeta};
use crate::text::{cat2, cat3, cat4, cat5, cat6, dec_nat, dec_usize, join, join_seq, owned, str_eq, views};
use crate::typemap::{check_inner, inner_ok, inner_of, inner_type, is_option, is_vec, normalize, shape_of, type_ok};

verus! {

/// The JavaScript expression reading a value of Rust type `ty` from `reader`.
///
/// Primitives use the matching reader method, `Vec<T>` an `Array.from`
/// over a `u32` count, `Option<T>` a presence byte, structs an object
/// literal, enums an immediately called `switch` over the tag, and
/// untagged types the raw length-prefixed bytes.
pub open spec fn resp(reader: Seq<char>, ty: Seq<char>, indent: Seq<char>, st: Option<Box<TagMeta>>) -> Seq<char>
    decreases opt_size(st), 0nat, ty.len(),
{
    let n = normalize(ty);
    if n == "i8"@ {
        reader + ".rI8()"@
    } else if n == "i16"@ {
        reader + ".rI16()"@
    } else if n == "i32"@ {
        reader + ".rI32()"@
    } else if n == "i64"@ {
        reader + ".rI64()"@
    } else if n == "u8"@ {
        reader + ".rU8()"@
    } else if n == "u16"@ {
        reader + ".rU16()"@
    } else if n == "u32"@ {
        reader + ".rU32()"@
    } else if n == "u64"@ || n == "usize"@ {
        reader + ".rU64()"@
    } else if n == "f32"@ {
        reader + ".rF32()"@
    } else if n == "f64"@ {
        reader + ".rF64()"@
    } else if n == "bool"@ {
        reader + ".rB()"@
    } else if n == "String"@ || n == "&str"@ {
        reader + ".rS()"@
    } else if is_vec(n) && inner_ok(n, 4) {
        proof {
            crate::typemap::lemma_normalize_len(ty);
        }
        "Array.from({length:"@ + reader + ".rU32()},()=>("@ + resp(reader, inner_of(n, 4), indent, st)
            + "))"@
    } else if is_option(n) && inner_ok(n, 7) {
        proof {
            crate::typemap::lemma_normalize_len(ty);
        }
        reader + ".rU8()===1?(()=>{ const _t="@ + resp(reader, inner_of(n, 7), indent, st)
            + "; return _t; })():null"@
    } else {
        match st {
            Some(m) => match m.kind {
                TagKind::Struct(fields) => "{\n"@ + join_seq(
                    entries(reader, fields@, indent + "    "@, indent + "    "@),
                    "\n"@,
                ) + "\n"@ + indent + "}"@,
                TagKind::Enum(variants) => "(()=>{ const _t="@ + reader + "."@ + js_tag_read()
                    + "(); switch(_t) {\n"@ + join_seq(
                    arms(reader, variants@, indent + "        "@, indent + "            "@),
                    "\n"@,
                ) + "\n"@ + indent + "    "@ + "}})()"@,
            },
            None => reader + ".rBytes("@ + reader + ".rU32())"@,
        }
    }
}

/// `name: expr,` entries for the included fields: each line starts with
/// `li`, and the nested expressions are indented by `ei`.
pub open spec fn entries(reader: Seq<char>, fields: Seq<FieldMeta>, li: Seq<char>, ei: Seq<char>) -> Seq<Seq<char>>
    decreases fields_size(fields), 1nat, fields.len(),
{
    if fields.len() == 0 {
        Seq::empty()
    } else {
        let rest = entries(reader, fields.drop_last(), li, ei);
        let f = fields.last();
        if f.skip {
            rest
        } else {
            proof {
                assert(opt_size(f.structure) == crate::meta_spec::field_size(f));
                assert(fields_size(fields) == fields_size(fields.drop_last())
                    + crate::meta_spec::field_size(f));
            }
            rest.push(li + f.name@ + ": "@ + resp(reader, f.ty@, ei, f.structure) + ","@)
        }
    }
}

/// The `case` arms reading each variant, at indentation `di`; the fields of
/// struct-like variants are read at indentation `fi`.
pub open spec fn arms(reader: Seq<char>, variants: Seq<EnumVariantMeta>, di: Seq<char>, fi: Seq<char>) -> Seq<Seq<char>>
    decreases variants_size(variants), 2nat, variants.len(),
{
    if variants.len() == 0 {
        Seq::empty()
    } else {
        let rest = arms(reader, variants.drop_last(), di, fi);
        let v = variants.last();
        let i = dec_nat((variants.len() - 1) as nat);
        let head = di + "case "@ + i + ": return { tag: '"@ + v.name@;
        if v.fields@.len() == 0 {
            rest.push(head + "', data: null };"@)
        } else if is_tuple_variant(v) {
            proof {
                lemma_field_size_le(v.fields@, 0);
                assert(opt_size(v.fields@[0].structure) == crate::meta_spec::field_size(
                    v.fields@[0],
                ));
                assert(variants_size(variants) == variants_size(variants.drop_last())
                    + fields_size(v.fields@));
            }
            rest.push(
                head + "', data: "@ + resp(reader, v.fields@[0].ty@, di, v.fields@[0].structure)
                    + " };"@,
            )
        } else {
            rest.push(
                head + "', data: {\n"@ + join_seq(entries(reader, v.fields@, di + "    "@, fi), "\n"@)
                    + "\n"@ + di + "    } };"@,
            )
        }
    }
}

/// Returns the JavaScript expression that reads a value of type `ty` from
/// `reader`.
pub fn response_expr_js(reader: &str, ty: &str, indent: &str, structure: &Option<Box<TagMeta>>) -> (r: String)
    requires
        type_ok(ty@),
        opt_tag_ok(*structure),
    ensures
        r@ == resp(reader@, ty@, indent@, *structure),
    decreases opt_size(*structure), 0nat, ty@.len(),
{
    proof {
        reveal_strlit("Option<");
        reveal_strlit("Vec<");
        crate::typemap::lemma_normalize_len(ty@);
    }
    let sh = shape_of(ty);
    let n = sh.norm.as_str();
    if str_eq(n, "i8") {
        cat2(reader, ".rI8()")
    } else if str_eq(n, "i16") {
        cat2(reader, ".rI16()")
    } else if str_eq(n, "i32") {
        cat2(reader, ".rI32()")
    } else if str_eq(n, "i64") {
        cat2(reader, ".rI64()")
    } else if str_eq(n, "u8") {
        cat2(reader, ".rU8()")
    } else if str_eq(n, "u16") {
        cat2(reader, ".rU16()")
    } else if str_eq(n, "u32") {
        cat2(reader, ".rU32()")
    } else if str_eq(n, "u64") || str_eq(n, "usize") {
        cat2(reader, ".rU64()")
    } else if str_eq(n, "f32") {
        cat2(reader, ".rF32()")
    } else if str_eq(n, "f64") {
        cat2(reader, ".rF64()")
    } else if str_eq(n, "bool") {
        cat2(reader, ".rB()")
    } else if str_eq(n, "String") || str_eq(n, "&str") {
        cat2(reader, ".rS()")
    } else if sh.vec && check_inner(n, 4) {
        proof {
            assert(n@[0] == "Vec<"@[0]);
            assert(!is_option(n@));
        }
        let inner = inner_type(n, 4);
        let elem = response_expr_js(reader, inner.as_str(), indent, structure);
        cat5("Array.from({length:", reader, ".rU32()},()=>(", elem.as_str(), "))")
    } else if sh.option && check_inner(n, 7) {
        let inner = inner_type(n, 7);
        let body = response_expr_js(reader, inner.as_str(), indent, structure);
        cat4(reader, ".rU8()===1?(()=>{ const _t=", body.as_str(), "; return _t; })():null")
    } else {
        match structure {
            Some(m) => {
                match &m.kind {
                    TagKind::Struct(fields) => {
                        let ii = cat2(indent, "    ");
                        proof {
                            assert(fields_size(fields@) < tag_size(**m));
                        }
                        let a = entries_js(reader, fields, ii.as_str(), ii.as_str());
                        let j = join(&a, "\n");
                        cat5("{\n", j.as_str(), "\n", indent, "}")
                    },
                    TagKind::Enum(variants) => {
                        let di = cat2(indent, "        ");
                        let fi = cat2(indent, "            ");
                        proof {
                            assert(variants_size(variants@) < tag_size(**m));
                        }
                        let a = arms_js(reader, variants, di.as_str(), fi.as_str());
                        let j = join(&a, "\n");
                        let head = cat5("(()=>{ const _t=", reader, ".", tag_read(), "(); switch(_t) {\n");
                        cat6(head.as_str(), j.as_str(), "\n", indent, "    ", "}})()")
                    },
                }
            },
            None => cat4(reader, ".rBytes(", reader, ".rU32())"),
        }
    }
}

fn entries_js(reader: &str, fields: &Vec<FieldMeta>, li: &str, ei: &str) -> (r: Vec<String>)
    requires
        fields_ok(fields@),
    ensures
        views(r@) == entries(reader@, fields@, li@, ei@),
    decreases fields_size(fields@), 1nat, fields@.len(),
{
    let mut r: Vec<String> = Vec::new();
    let mut i: usize = 0;
    assert(views(r@) =~= Seq::<Seq<char>>::empty());
    while i < fields.len()
        invariant
            fields_ok(fields@),
            i <= fields@.len(),
            views(r@) == entries(reader@, fields@.subrange(0, i as int), li@, ei@),
        decreases fields@.len() - i,
    {
        let f = &fields[i];
        proof {
            lemma_fields_ok_at(fields@, i as int);
            lemma_field_size_le(fields@, i as int);
            assert(fields@.subrange(0, i + 1).drop_last() =~= fields@.subrange(0, i as int));
            assert(fields@.subrange(0, i + 1).last() == *f);
        }
        if !f.skip {
            let e = response_expr_js(reader, f.ty.as_str(), ei, &f.structure);
            let ghost before = r@;
            r.push(cat5(li, f.name.as_str(), ": ", e.as_str(), ","));
            assert(views(r@) =~= views(before).push(
                li@ + f.name@ + ": "@ + resp(reader@, f.ty@, ei@, f.structure) + ","@,
            ));
        }
        i = i + 1;
    }
    assert(fields@.subrange(0, fields@.len() as int) =~= fields@);
    r
}

fn arms_js(reader: &str, variants: &Vec<EnumVariantMeta>, di: &str, fi: &str) -> (r: Vec<String>)
    requires
        variants_ok(variants@),
    ensures
        views(r@) == arms(reader@, variants@, di@, fi@),
    decreases variants_size(variants@), 2nat, variants@.len(),
{
    let mut r: Vec<String> = Vec::new();
    let mut i: usize = 0;
    assert(views(r@) =~= Seq::<Seq<char>>::empty());
    while i < variants.len()
        invariant
            variants_ok(variants@),
            i <= variants@.len(),
            views(r@) == arms(reader@, variants@.subrange(0, i as int), di@, fi@),
        decreases variants@.len() - i,
    {
        let v = &variants[i];
        proof {
            lemma_variants_ok_at(variants@, i as int);
            lemma_variant_size_le(variants@, i as int);
            assert(variants@.subrange(0, i + 1).drop_last() =~= variants@.subrange(0, i as int));
            assert(variants@.subrange(0, i + 1).last() == *v);
        }
        let idx = dec_usize(i);
        let head = cat5(di, "case ", idx.as_str(), ": return { tag: '", v.name.as_str());
        let ghost before = r@;
        if v.fields.len() == 0 {
            r.push(cat2(head.as_str(), "', data: null };"));
        } else if tuple_variant(v) {
            proof {
                lemma_fields_ok_at(v.fields@, 0);
                lemma_field_size_le(v.fields@, 0);
            }
            let e = response_expr_js(reader, v.fields[0].ty.as_str(), di, &v.fields[0].structure);
            r.push(cat4(head.as_str(), "', data: ", e.as_str(), " };"));
        } else {
            let li = cat2(di, "    ");
            let a = entries_js(reader, &v.fields, li.as_str(), fi);
            let j = join(&a, "\n");
            r.push(cat6(head.as_str(), "', data: {\n", j.as_str(), "\n", di, "    } };"));
        }
        proof {
            assert(views(r@).drop_last() =~= views(before));
        }
        i = i + 1;
    }
    assert(variants@.subrange(0, variants@.len() as int) =~= variants@);
    r
}

/// The statements returning (or, when the return is left to the caller,
/// binding to `_result`) the decoded response of type `ty`; with `debug`,
/// the returned value is logged first.
pub open spec fn return_lines(
    reader: Seq<char>,
    ty: Seq<char>,
    indent: Seq<char>,
    st: Option<Box<TagMeta>>,
    emit_return: bool,
    debug: bool,
    func_name: Seq<char>,
) -> Seq<Seq<char>> {
    let ret = if emit_return {
        "return "@
    } else {
        "const _result = "@
    };
    if ty == "()"@ {
        seq![indent + ret + "{};"@]
    } else if debug && emit_return {
        seq![
            indent + "const _result = "@ + resp(reader, ty, indent, st) + ";"@,
            indent + "if (this._debug) console.log('[afast:debug] \u{2190} "@ + func_name
                + "', JSON.stringify(_result));"@,
            indent + "return _result;"@,
        ]
    } else {
        seq![indent + ret + resp(reader, ty, indent, st) + ";"@]
    }
}

/// Emits the statements returning the decoded response.
pub fn generate_return_js(
    cb: &mut CodeBuf,
    reader: &str,
    ty: &str,
    indent: &str,
    structure: &Option<Box<TagMeta>>,
    emit_return: bool,
    debug: bool,
    func_name: &str,
)
    requires
        type_ok(ty@),
        opt_tag_ok(*structure),
    ensures
        final(cb)@ == old(cb)@ + return_lines(reader@, ty@, indent@, *structure, emit_return, debug, func_name@),
{
    let ret = if emit_return {
        "return "
    } else {
        "const _result = "
    };
    if str_eq(ty, "()") {
        cb.push(cat3(indent, ret, "{};"));
        return;
    }
    let e = response_expr_js(reader, ty, indent, structure);
    let ghost start = cb@;
    if debug && emit_return {
        cb.push(cat4(indent, "const _result = ", e.as_str(), ";"));
        cb.push(cat4(indent, "if (this._debug) console.log('[afast:debug] \u{2190} ", func_name, "', JSON.stringify(_result));"));
        cb.push(cat2(indent, "return _result;"));
    } else {
        cb.push(cat4(indent, ret, e.as_str(), ";"));
    }
    assert(cb@ =~= start + return_lines(reader@, ty@, indent@, *structure, emit_return, debug, func_name@));
}

/// The JavaScript statements writing `var`, of Rust type `ty`, to the writer `w`.
pub open spec fn ser(var: Seq<char>, ty: Seq<char>, indent: Seq<char>, st: Option<Box<TagMeta>>) -> Seq<Seq<char>>
    decreases opt_size(st), 0nat, ty.len(),
{
    let n = normalize(ty);
    let one = |m: Seq<char>| seq![indent + "w."@ + m + "("@ + var + ");"@];
    if n == "i8"@ {
        one("wI8"@)
    } else if n == "i16"@ {
        one("wI16"@)
    } else if n == "i32"@ {
        one("wI32"@)
    } else if n == "i64"@ {
        one("wI64"@)
    } else if n == "u8"@ {
        one("wU8"@)
    } else if n == "u16"@ {
        one("wU16"@)
    } else if n == "u32"@ {
        one("wU32"@)
    } else if n == "u64"@ || n == "usize"@ {
        one("wU64"@)
    } else if n == "f32"@ {
        one("wF32"@)
    } else if n == "f64"@ {
        one("wF64"@)
    } else if n == "bool"@ {
        one("wB"@)
    } else if n == "String"@ || n == "&str"@ {
        one("wS"@)
    } else if is_vec(n) && inner_ok(n, 4) {
        proof {
            crate::typemap::lemma_normalize_len(ty);
        }
        seq![indent + "w.wU32("@ + var + ".length);"@, indent + "for(const _e of "@ + var + "){"@]
            + ser("_e"@, inner_of(n, 4), indent + "    "@, st) + seq![indent + "}"@]
    } else if is_option(n) && inner_ok(n, 7) {
        proof {
            crate::typemap::lemma_normalize_len(ty);
        }
        seq![indent + "if("@ + var + "===null){w.wU8(0);}else{w.wU8(1);"@] + ser(
            var,
            inner_of(n, 7),
            indent + "    "@,
            st,
        ) + seq![indent + "}"@]
    } else {
        match st {
            Some(m) => match m.kind {
                TagKind::Struct(fields) => ser_fields(var, fields@, indent),
                TagKind::Enum(variants) => seq![indent + "switch("@ + var + ".tag){"@] + ser_variants(
                    var,
                    variants@,
                    indent + "        "@,
                ) + seq![indent + "}"@],
            },
            None => seq![indent + "w.wBytes("@ + var + "._raw);"@],
        }
    }
}

/// The statements writing the included fields `base.field` of a value.
pub open spec fn ser_fields(base: Seq<char>, fields: Seq<FieldMeta>, indent: Seq<char>) -> Seq<Seq<char>>
    decreases fields_size(fields), 1nat, fields.len(),
{
    if fields.len() == 0 {
        Seq::empty()
    } else {
        let rest = ser_fields(base, fields.drop_last(), indent);
        let f = fields.last();
        if f.skip {
            rest
        } else {
            proof {
                assert(opt_size(f.structure) == crate::meta_spec::field_size(f));
            }
            rest + ser(base + "."@ + f.name@, f.ty@, indent, f.structure)
        }
    }
}

/// The `case` blocks writing each variant's tag and payload, at
/// indentation `di`.
pub open spec fn ser_variants(var: Seq<char>, variants: Seq<EnumVariantMeta>, di: Seq<char>) -> Seq<Seq<char>>
    decreases variants_size(variants), 2nat, variants.len(),
{
    if variants.len() == 0 {
        Seq::empty()
    } else {
        let rest = ser_variants(var, variants.drop_last(), di);
        let v = variants.last();
        let i = dec_nat((variants.len() - 1) as nat);
        if v.fields@.len() == 0 {
            rest.push(di + "case '"@ + v.name@ + "': w."@ + js_tag_write() + "("@ + i + "); break;"@)
        } else {
            let head = seq![di + "case '"@ + v.name@ + "': {"@, di + "w."@ + js_tag_write() + "("@ + i + ");"@];
            let tail = seq![di + "break;"@, di + "}"@];
            if is_tuple_variant(v) {
                proof {
                    lemma_field_size_le(v.fields@, 0);
                    assert(opt_size(v.fields@[0].structure) == crate::meta_spec::field_size(
                        v.fields@[0],
                    ));
                }
                rest + head + ser(var + ".data"@, v.fields@[0].ty@, di, v.fields@[0].structure) + tail
            } else {
                rest + head + ser_fields(var + ".data"@, v.fields@, di) + tail
            }
        }
    }
}

fn push_write(cb: &mut CodeBuf, indent: &str, method: &str, var: &str)
    ensures
        final(cb)@ == old(cb)@.push(indent@ + "w."@ + method@ + "("@ + var@ + ");"@),
{
    cb.push(cat6(indent, "w.", method, "(", var, ");"));
}

/// Emits the statements that serialise `var` of type `ty`.
pub fn generate_request_serialize_js(
    cb: &mut CodeBuf,
    var: &str,
    ty: &str,
    indent: &str,
    structure: &Option<Box<TagMeta>>,
)
    requires
        type_ok(ty@),
        opt_tag_ok(*structure),
    ensures
        final(cb)@ == old(cb)@ + ser(var@, ty@, indent@, *structure),
    decreases opt_size(*structure), 0nat, ty@.len(),
{
    proof {
        reveal_strlit("Option<");
        reveal_strlit("Vec<");
        crate::typemap::lemma_normalize_len(ty@);
    }
    let sh = shape_of(ty);
    let n = sh.norm.as_str();
    let ghost start = cb@;
    if str_eq(n, "i8") {
        push_write(cb, indent, "wI8", var);
    } else if str_eq(n, "i16") {
        push_write(cb, indent, "wI16", var);
    } else if str_eq(n, "i32") {
        push_write(cb, indent, "wI32", var);
    } else if str_eq(n, "i64") {
        push_write(cb, indent, "wI64", var);
    } else if str_eq(n, "u8") {
        push_write(cb, indent, "wU8", var);
    } else if str_eq(n, "u16") {
        push_write(cb, indent, "wU16", var);
    } else if str_eq(n, "u32") {
        push_write(cb, indent, "wU32", var);
    } else if str_eq(n, "u64") || str_eq(n, "usize") {
        push_write(cb, indent, "wU64", var);
    } else if str_eq(n, "f32") {
        push_write(cb, indent, "wF32", var);
    } else if str_eq(n, "f64") {
        push_write(cb, indent, "wF64", var);
    } else if str_eq(n, "bool") {
        push_write(cb, indent, "wB", var);
    } else if str_eq(n, "String") || str_eq(n, "&str") {
        push_write(cb, indent, "wS", var);
    } else if sh.vec && check_inner(n, 4) {
        proof {
            assert(n@[0] == "Vec<"@[0]);
            assert(!is_option(n@));
        }
        let inner = inner_type(n, 4);
        cb.push(cat4(indent, "w.wU32(", var, ".length);"));
        cb.push(cat4(indent, "for(const _e of ", var, "){"));
        let ii = cat2(indent, "    ");
        generate_request_serialize_js(cb, "_e", inner.as_str(), ii.as_str(), structure);
        cb.push(cat2(indent, "}"));
        proof {
            let head = seq![indent@ + "w.wU32("@ + var@ + ".length);"@, indent@ + "for(const _e of "@ + var@ + "){"@];
            assert(cb@ =~= start + (head + ser("_e"@, inner@, ii@, *structure) + seq![indent@ + "}"@]));
        }
    } else if sh.option && check_inner(n, 7) {
        let inner = inner_type(n, 7);
        cb.push(cat4(indent, "if(", var, "===null){w.wU8(0);}else{w.wU8(1);"));
        let ii = cat2(indent, "    ");
        generate_request_serialize_js(cb, var, inner.as_str(), ii.as_str(), structure);
        cb.push(cat2(indent, "}"));
        proof {
            let head = seq![indent@ + "if("@ + var@ + "===null){w.wU8(0);}else{w.wU8(1);"@];
            assert(cb@ =~= start + (head + ser(var@, inner@, ii@, *structure) + seq![indent@ + "}"@]));
        }
    } else {
        match structure {
            Some(m) => {
                match &m.kind {
                    TagKind::Struct(fields) => {
                        proof {
                            assert(fields_size(fields@) < tag_size(**m));
                        }
                        serialize_fields_js(cb, var, fields, indent);
                    },
                    TagKind::Enum(variants) => {
                        proof {
                            assert(variants_size(variants@) < tag_size(**m));
                        }
                        cb.push(cat4(indent, "switch(", var, ".tag){"));
                        let di = cat2(indent, "        ");
                        serialize_variants_js(cb, var, variants, di.as_str());
                        cb.push(cat2(indent, "}"));
                        proof {
                            let head = seq![indent@ + "switch("@ + var@ + ".tag){"@];
                            assert(cb@ =~= start + (head + ser_variants(var@, variants@, di@) + seq![
                                indent@ + "}"@,
                            ]));
                        }
                    },
                }
            },
            None => {
                cb.push(cat4(indent, "w.wBytes(", var, "._raw);"));
            },
        }
    }
}

fn serialize_fields_js(cb: &mut CodeBuf, base: &str, fields: &Vec<FieldMeta>, indent: &str)
    requires
        fields_ok(fields@),
    ensures
        final(cb)@ == old(cb)@ + ser_fields(base@, fields@, indent@),
    decreases fields_size(fields@), 1nat, fields@.len(),
{
    let mut i: usize = 0;
    while i < fields.len()
        invariant
            fields_ok(fields@),
            i <= fields@.len(),
            cb@ == old(cb)@ + ser_fields(base@, fields@.subrange(0, i as int), indent@),
        decreases fields@.len() - i,
    {
        let f = &fields[i];
        proof {
            lemma_fields_ok_at(fields@, i as int);
            lemma_field_size_le(fields@, i as int);
            assert(fields@.subrange(0, i + 1).drop_last() =~= fields@.subrange(0, i as int));
            assert(fields@.subrange(0, i + 1).last() == *f);
        }
        if !f.skip {
            let fv = cat3(base, ".", f.name.as_str());
            let ghost before = cb@;
            generate_request_serialize_js(cb, fv.as_str(), f.ty.as_str(), indent, &f.structure);
            assert(cb@ =~= before + ser(base@ + "."@ + f.name@, f.ty@, indent@, f.structure));
        }
        i = i + 1;
    }
    assert(fields@.subrange(0, fields@.len() as int) =~= fields@);
}

fn serialize_variants_js(cb: &mut CodeBuf, var: &str, variants: &Vec<EnumVariantMeta>, di: &str)
    requires
        variants_ok(variants@),
    ensures
        final(cb)@ == old(cb)@ + ser_variants(var@, variants@, di@),
    decreases variants_size(variants@), 2nat, variants@.len(),
{
    let mut i: usize = 0;
    while i < variants.len()
        invariant
            variants_ok(variants@),
            i <= variants@.len(),
            cb@ == old(cb)@ + ser_variants(var@, variants@.subrange(0, i as int), di@),
        decreases variants@.len() - i,
    {
        let v = &variants[i];
        proof {
            lemma_variants_ok_at(variants@, i as int);
            lemma_variant_size_le(variants@, i as int);
            assert(variants@.subrange(0, i + 1).drop_last() =~= variants@.subrange(0, i as int));
            assert(variants@.subrange(0, i + 1).last() == *v);
        }
        let idx = dec_usize(i);
        let ghost before = cb@;
        if v.fields.len() == 0 {
            let head = cat5(di, "case '", v.name.as_str(), "': w.", tag_write());
            cb.push(cat4(head.as_str(), "(", idx.as_str(), "); break;"));
        } else {
            cb.push(cat4(di, "case '", v.name.as_str(), "': {"));
            cb.push(cat6(di, "w.", tag_write(), "(", idx.as_str(), ");"));
            let dv = cat2(var, ".data");
            if tuple_variant(v) {
                proof {
                    lemma_fields_ok_at(v.fields@, 0);
                    lemma_field_size_le(v.fields@, 0);
                }
                generate_request_serialize_js(cb, dv.as_str(), v.fields[0].ty.as_str(), di, &v.fields[0].structure);
            } else {
                serialize_fields_js(cb, dv.as_str(), &v.fields, di);
            }
            cb.push(cat2(di, "break;"));
            cb.push(cat2(di, "}"));
        }
        proof {
            let w = ser_variants(var@, variants@.subrange(0, i + 1), di@);
            assert(cb@ =~= old(cb)@ + w);
        }
        i = i + 1;
    }
    assert(variants@.subrange(0, variants@.len() as int) =~= variants@);
}

/// The JavaScript encoder writes every number at the width and kind the
/// server reads it with: for a Rust type the server decodes as a `k`
/// number of `b` bits, the statement is one call of the writer method
/// `w{k}{b}` (`wI64`, eight bytes, for an `i64`) on the value.
pub proof fn law_js_writes_numbers_at_their_width(
    var: Seq<char>,
    ty: Seq<char>,
    indent: Seq<char>,
    st: Option<Box<TagMeta>>,
)
    requires
        number_encoding(normalize(ty)) is Some,
    ensures
        ({
            let e = number_encoding(normalize(ty))->0;
            ser(var, ty, indent, st) == seq![indent + "w.w"@ + width_suffix(e.0, e.1) + "("@ + var + ");"@]
        }),
{
    lemma_number_type_names();
    lemma_bit_texts();
    reveal_strlit("w.w");
    reveal_strlit("w.");
    reveal_strlit("wI8");
    reveal_strlit("wI16");
    reveal_strlit("wI32");
    reveal_strlit("wI64");
    reveal_strlit("wU8");
    reveal_strlit("wU16");
    reveal_strlit("wU32");
    reveal_strlit("wU64");
    reveal_strlit("wF32");
    reveal_strlit("wF64");
    let e = number_encoding(normalize(ty))->0;
    let line = indent + "w.w"@ + width_suffix(e.0, e.1) + "("@ + var + ");"@;
    assert(ser(var, ty, indent, st)[0] =~= line);
    assert(ser(var, ty, indent, st) =~= seq![line]);
}

/// The JavaScript decoder reads every number at the width and kind the
/// server writes it with: the expression is one call of the reader method
/// `r{k}{b}` (`rI64` for an `i64`).
pub proof fn law_js_reads_numbers_at_their_width(
    reader: Seq<char>,
    ty: Seq<char>,
    indent: Seq<char>,
    st: Option<Box<TagMeta>>,
)
    requires
        number_encoding(normalize(ty)) is Some,
    ensures
        ({
            let e = number_encoding(normalize(ty))->0;
            resp(reader, ty, indent, st) == reader + ".r"@ + width_suffix(e.0, e.1) + "()"@
        }),
{
    lemma_number_type_names();
    lemma_bit_texts();
    reveal_strlit(".r");
    reveal_strlit("()");
    reveal_strlit(".rI8()");
    reveal_strlit(".rI16()");
    reveal_strlit(".rI32()");
    reveal_strlit(".rI64()");
    reveal_strlit(".rU8()");
    reveal_strlit(".rU16()");
    reveal_strlit(".rU32()");
    reveal_strlit(".rU64()");
    reveal_strlit(".rF32()");
    reveal_strlit(".rF64()");
    let e = number_encoding(normalize(ty))->0;
    assert(resp(reader, ty, indent, st) =~= reader + ".r"@ + width_suffix(e.0, e.1) + "()"@);
}

/// The JavaScript decoder reads a list as the server writes it: a 32-bit
/// unsigned count first, then the elements, each decoded as the element
/// type.
pub proof fn law_js_reads_lists_as_count_then_elements(
    reader: Seq<char>,
    ty: Seq<char>,
    indent: Seq<char>,
    st: Option<Box<TagMeta>>,
)
    requires
        is_vec(normalize(ty)),
        inner_ok(normalize(ty), 4),
        normalize(ty) != "Vec<u8>"@,
    ensures
        exists|pre: Seq<char>, mid: Seq<char>, post: Seq<char>|
            resp(reader, ty, indent, st) == pre + reader + ".r"@ + width_suffix('U', 32) + "()"@ + mid + resp(reader, inner_of(normalize(ty), 4), indent, st) + post,
{
    lemma_number_type_names();
    lemma_bit_texts();
    reveal_strlit("Vec<");
    let n = normalize(ty);
    assert(n.subrange(0, 4) == "Vec<"@);
    assert(n[0] == "Vec<"@[0]);
    reveal_strlit(".r");
    reveal_strlit("()");
    reveal_strlit(".rU32()},()=>(");
    reveal_strlit("},()=>(");
    reveal_strlit("Array.from({length:");
    let e = resp(reader, inner_of(normalize(ty), 4), indent, st);
    assert(resp(reader, ty, indent, st) =~= "Array.from({length:"@ + reader + ".r"@ + width_suffix('U', 32) + "()"@ + "},()=>("@ + e + "))"@);
}

/// The JavaScript encoder writes a list as the server reads it: a 32-bit
/// unsigned count first, then each element, encoded as the element type.
pub proof fn law_js_writes_lists_as_count_then_elements(
    var: Seq<char>,
    ty: Seq<char>,
    indent: Seq<char>,
    st: Option<Box<TagMeta>>,
)
    requires
        is_vec(normalize(ty)),
        inner_ok(normalize(ty), 4),
        normalize(ty) != "Vec<u8>"@,
    ensures
        exists|tail: Seq<char>, mid: Seq<Seq<char>>, post: Seq<Seq<char>>|
            ser(var, ty, indent, st) == seq![indent + "w.w"@ + width_suffix('U', 32) + "("@ + var + tail] + mid + ser("_e"@, inner_of(normalize(ty), 4), indent + "    "@, st) + post,
{
    lemma_number_type_names();
    lemma_bit_texts();
    reveal_strlit("Vec<");
    let n = normalize(ty);
    assert(n.subrange(0, 4) == "Vec<"@);
    assert(n[0] == "Vec<"@[0]);
    reveal_strlit("w.w");
    reveal_strlit("(");
    reveal_strlit("w.wU32(");
    reveal_strlit(".length);");
    let b = ser("_e"@, inner_of(normalize(ty), 4), indent + "    "@, st);
    let l0 = indent + "w.w"@ + width_suffix('U', 32) + "("@ + var + ".length);"@;
    let s = ser(var, ty, indent, st);
    assert(s[0] =~= l0);
    let mid: Seq<Seq<char>> = seq![indent + "for(const _e of "@ + var + "){"@];
    let post: Seq<Seq<char>> = seq![indent + "}"@];
    assert(s =~= seq![l0] + mid + b + post);
}

/// The JavaScript decoder reads an optional value as the server writes it:
/// a presence byte first (`rU8`), then, when it is 1, the value decoded as
/// the inner type, and `null` otherwise.
pub proof fn law_js_reads_options_as_presence_then_value(
    reader: Seq<char>,
    ty: Seq<char>,
    indent: Seq<char>,
    st: Option<Box<TagMeta>>,
)
    requires
        is_option(normalize(ty)),
        inner_ok(normalize(ty), 7),
    ensures
        exists|mid: Seq<char>, post: Seq<char>|
            resp(reader, ty, indent, st) == reader + ".r"@ + width_suffix('U', 8) + "()===1"@ + mid + resp(
                reader,
                inner_of(normalize(ty), 7),
                indent,
                st,
            ) + post,
{
    lemma_number_type_names();
    lemma_bit_texts();
    reveal_strlit("Option<");
    reveal_strlit("Vec<");
    let n = normalize(ty);
    assert(n.subrange(0, 7) == "Option<"@);
    assert(n[0] == "Option<"@[0]);
    reveal_strlit(".r");
    reveal_strlit("()===1");
    reveal_strlit(".rU8()===1?(()=>{ const _t=");
    reveal_strlit("?(()=>{ const _t=");
    let e = resp(reader, inner_of(n, 7), indent, st);
    assert(resp(reader, ty, indent, st) =~= reader + ".r"@ + width_suffix('U', 8) + "()===1"@ + "?(()=>{ const _t="@
        + e + "; return _t; })():null"@);
}

/// The JavaScript encoder writes an optional value as the server reads it:
/// a presence byte 0 when absent, else 1 followed by the value encoded as
/// the inner type.
pub proof fn law_js_writes_options_as_presence_then_value(
    var: Seq<char>,
    ty: Seq<char>,
    indent: Seq<char>,
    st: Option<Box<TagMeta>>,
)
    requires
        is_option(normalize(ty)),
        inner_ok(normalize(ty), 7),
    ensures
        exists|a: Seq<char>, b: Seq<char>, post: Seq<Seq<char>>|
            ser(var, ty, indent, st) == seq![
                a + "w.w"@ + width_suffix('U', 8) + "(0);"@ + b + "w.w"@ + width_suffix('U', 8) + "(1);"@,
            ] + ser(var, inner_of(normalize(ty), 7), indent + "    "@, st) + post,
{
    lemma_number_type_names();
    lemma_bit_texts();
    reveal_strlit("Option<");
    reveal_strlit("Vec<");
    let n = normalize(ty);
    assert(n.subrange(0, 7) == "Option<"@);
    assert(n[0] == "Option<"@[0]);
    reveal_strlit("w.w");
    reveal_strlit("(0);");
    reveal_strlit("(1);");
    reveal_strlit("===null){w.wU8(0);}else{w.wU8(1);");
    reveal_strlit("if(");
    reveal_strlit("}else{");
    reveal_strlit("===null){");
    let l0 = (indent + "if("@ + var + "===null){"@) + "w.w"@ + width_suffix('U', 8) + "(0);"@ + "}else{"@ + "w.w"@
        + width_suffix('U', 8) + "(1);"@;
    let s = ser(var, ty, indent, st);
    assert(s[0] =~= l0);
    let b = ser(var, inner_of(n, 7), indent + "    "@, st);
    assert(s =~= seq![l0] + b + seq![indent + "}"@]);
}

/// The JavaScript client reads and writes a `bool` with the one-byte
/// boolean methods (`rB`, `wB`), as the server writes a `bool` as one byte.
pub proof fn law_js_bools_travel_as_one_byte(
    reader: Seq<char>,
    var: Seq<char>,
    ty: Seq<char>,
    indent: Seq<char>,
    st: Option<Box<TagMeta>>,
)
    requires
        normalize(ty) == "bool"@,
    ensures
        resp(reader, ty, indent, st) == reader + ".rB()"@,
        ser(var, ty, indent, st) == seq![indent + "w.wB("@ + var + ");"@],
{
    lemma_number_type_names();
    reveal_strlit("wB");
    reveal_strlit("w.wB(");
    reveal_strlit("w.");
    reveal_strlit("(");
    assert(ser(var, ty, indent, st)[0] =~= indent + "w.wB("@ + var + ");"@);
    assert(ser(var, ty, indent, st) =~= seq![indent + "w.wB("@ + var + ");"@]);
}

} // verus!
