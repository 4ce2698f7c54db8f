//! Rust client methods for binary-protocol handlers.

use vstd::prelude::*;
use crate::buf::{build_lines, CodeBuf};
use crate::collect::{customs_of, position_or_zero};
use crate::cs::exports::prefix_ok;
use crate::cs::methods::struct_fields;
use crate::js::methods::{custom_var, custom_var_text, js_func_name, js_func_name_of};
use crate::meta_spec::{handler_meta_ok, param_ok};
use crate::model::{Handler, HandlerMeta, ParamMeta, TagKind};
use crate::naming::{prefixed, snake, to_snake_case};
use crate::params::{data_var, data_var_name, lemma_with_extractor_step, with_extractor};
use crate::rs::codec::{
    generate_request_serialize_rs, generate_return_rs, ov_ok, return_lines, ser, ser_fields, serialize_fields_rs,
};
use crate::rs::typedefs::type_name_for;
use crate::rs::validate::{generate_validation_rs, val_fields};
use crate::text::{cat2, cat3, cat4, cat5, cat6, dec_nat, dec_u64, join, join_seq, owned, starts_with, str_eq, views};
use crate::typemap::{is_option, normalize, normalize_rust_type, rs_type, rust_type_to_rs};

verus! {

/// The method's name: the snake-case API name when set, else the
/// snake-case function name.
pub open spec fn rs_func_name(meta: HandlerMeta) -> Seq<char> {
    snake(js_func_name(meta))
}

/// `var: &Type` for each `Data` parameter that has a structure.
pub open spec fn rs_decl_params(prefix: Seq<char>, ds: Seq<ParamMeta>) -> Seq<Seq<char>>
    decreases ds.len(),
{
    if ds.len() == 0 {
        Seq::empty()
    } else {
        let rest = rs_decl_params(prefix, ds.drop_last());
        match ds.last().structure {
            Some(s) => rest.push(data_var((ds.len() - 1) as nat) + ": &"@ + prefixed(prefix, s.name@)),
            None => rest,
        }
    }
}

/// The method's parameters: `&self`, then the `Data` values.
pub open spec fn rs_params(prefix: Seq<char>, meta: HandlerMeta) -> Seq<Seq<char>> {
    seq!["&self"@] + rs_decl_params(prefix, with_extractor(meta.params@, "Data"@))
}

/// The type in the method's `Ok` result: a socket for a long connection,
/// the prefixed return type (in `Option<..>` when the handler returns an
/// `Option`), or `()`.
pub open spec fn rs_return_type(prefix: Seq<char>, meta: HandlerMeta) -> Seq<char> {
    if meta.long_connection {
        "AfastSocket"@
    } else {
        match meta.return_structure {
            Some(s) => if is_option(normalize(meta.return_type@)) {
                "Option<"@ + prefixed(prefix, s.name@) + ">"@
            } else {
                prefixed(prefix, s.name@)
            },
            None => "()"@,
        }
    }
}

/// The names a handler's Rust method is built from can be formed: the
/// prefixed type names pass the overlap scan, and the result type can be
/// cut out of each `Option<..>` it names.
pub open spec fn rs_meta_ok(prefix: Seq<char>, meta: HandlerMeta) -> bool {
    &&& handler_meta_ok(meta)
    &&& prefix_ok(prefix, meta)
    &&& !meta.long_connection ==> ov_ok(rs_return_type(prefix, meta))
}

/// The checks of the `Data` values that are structs.
pub open spec fn data_validation(ind: Seq<char>, ds: Seq<ParamMeta>) -> Seq<Seq<char>>
    decreases ds.len(),
{
    if ds.len() == 0 {
        Seq::empty()
    } else {
        data_validation(ind, ds.drop_last()) + match struct_fields(ds.last().structure) {
            Some(fs) => val_fields(data_var((ds.len() - 1) as nat), fs, ind),
            None => Seq::empty(),
        }
    }
}

/// The two statements fetching a Custom value from its provider and
/// downcasting it to its Rust type.
pub open spec fn downcast_lines(ind: Seq<char>, all: Seq<Handler>, p: ParamMeta) -> Seq<Seq<char>> {
    let n = dec_nat(position_or_zero(customs_of(all), p.ty@));
    seq![
        ind + "let _c"@ + n + "_any = (self.customs["@ + n
            + "])().map_err(|e| AfastError::Network(format!(\"Custom provider error: {}\", e)))?;"@,
        ind + "let _c"@ + n + " = _c"@ + n + "_any.downcast::<"@ + rs_type(p.ty@)
            + ">().map_err(|_| AfastError::Network(\"Custom provider type mismatch\".into()))?;"@,
    ]
}

/// The statements fetching every Custom value.
pub open spec fn custom_downcasts(ind: Seq<char>, all: Seq<Handler>, cs: Seq<ParamMeta>) -> Seq<Seq<char>>
    decreases cs.len(),
{
    if cs.len() == 0 {
        Seq::empty()
    } else {
        custom_downcasts(ind, all, cs.drop_last()) + downcast_lines(ind, all, cs.last())
    }
}

/// The statements writing the fields of the Custom values that are structs.
pub open spec fn custom_serialize(ind: Seq<char>, all: Seq<Handler>, cs: Seq<ParamMeta>) -> Seq<Seq<char>>
    decreases cs.len(),
{
    if cs.len() == 0 {
        Seq::empty()
    } else {
        custom_serialize(ind, all, cs.drop_last()) + match struct_fields(cs.last().structure) {
            Some(fs) => ser_fields(custom_var(all, cs.last().ty@), fs, ind),
            None => Seq::empty(),
        }
    }
}

/// The statements writing the `Data` values.
pub open spec fn data_serialize(ind: Seq<char>, ds: Seq<ParamMeta>) -> Seq<Seq<char>>
    decreases ds.len(),
{
    if ds.len() == 0 {
        Seq::empty()
    } else {
        data_serialize(ind, ds.drop_last()) + ser(
            data_var((ds.len() - 1) as nat),
            ds.last().ty@,
            ind,
            ds.last().structure,
        )
    }
}

/// The statement sending the request, awaited in an async client.
pub open spec fn call_line(ind: Seq<char>, id: Seq<char>, is_async: bool) -> Seq<char> {
    ind + "let resp = _call_tcp(&self.stream, "@ + id + if is_async {
        ", data).await?;"@
    } else {
        ", data)?;"@
    }
}

/// The statements after the response has arrived.
pub open spec fn rs_method_tail(ind: Seq<char>, meta: HandlerMeta, ret: Seq<char>) -> Seq<Seq<char>> {
    if meta.long_connection {
        seq![ind + "let conn_id = r.read_u32();"@, ind + "Ok(AfastSocket { conn_id })"@]
    } else {
        return_lines("r"@, meta.return_type@, ret, ind, meta.return_structure)
    }
}

/// The method's body lines.
pub open spec fn rs_method_body(
    h: Handler,
    all: Seq<Handler>,
    prefix: Seq<char>,
    ind: Seq<char>,
    is_async: bool,
    debug: bool,
) -> Seq<Seq<char>> {
    let meta = h.meta;
    let ds = with_extractor(meta.params@, "Data"@);
    let cs = with_extractor(meta.params@, "Custom"@);
    let id = dec_nat(h.stable_id as nat);
    let out = if debug {
        seq![ind + "eprintln!(\"[afast:debug] \u{2192} call handlerId="@ + id + " payloadLen={}\", data.len());"@]
    } else {
        Seq::empty()
    };
    let back = if debug {
        seq![ind + "eprintln!(\"[afast:debug] \u{2190} call handlerId="@ + id + " respLen={}\", resp.len());"@]
    } else {
        Seq::empty()
    };
    data_validation(ind, ds) + custom_downcasts(ind, all, cs) + seq![ind + "let mut w = BinaryWriter::new();"@]
        + custom_serialize(ind, all, cs) + data_serialize(ind, ds) + seq![ind + "let data = w.into_bytes();"@]
        + out + seq![call_line(ind, id, is_async)] + back + seq![ind + "let mut r = BinaryReader::new(&resp);"@]
        + rs_method_tail(ind, meta, rs_return_type(prefix, meta))
}

/// The complete Rust client method calling handler `h` over the binary
/// protocol.
pub open spec fn rs_method_text(
    h: Handler,
    all: Seq<Handler>,
    prefix: Seq<char>,
    base_indent: Seq<char>,
    is_async: bool,
    debug: bool,
) -> Seq<char> {
    let indent = base_indent + "    "@;
    let ind = indent + "    "@;
    indent + "pub "@ + (if is_async {
        "async "@
    } else {
        ""@
    }) + "fn "@ + rs_func_name(h.meta) + "("@ + join_seq(rs_params(prefix, h.meta), ", "@) + ") -> Result<"@
        + rs_return_type(prefix, h.meta) + ", AfastError> {\n"@ + build_lines(
        rs_method_body(h, all, prefix, ind, is_async, debug),
    ) + "\n"@ + indent + "}"@
}

fn rs_params_of(prefix: &str, meta: &HandlerMeta) -> (r: Vec<String>)
    requires
        prefix_ok(prefix@, *meta),
    ensures
        views(r@) == rs_params(prefix@, *meta),
{
    let ps = &meta.params;
    let mut r: Vec<String> = Vec::new();
    r.push(owned("&self"));
    let mut k: usize = 0;
    let mut i: usize = 0;
    while i < ps.len()
        invariant
            prefix_ok(prefix@, *meta),
            ps == &meta.params,
            i <= ps@.len(),
            k == with_extractor(ps@.subrange(0, i as int), "Data"@).len(),
            views(r@) == seq!["&self"@] + rs_decl_params(prefix@, with_extractor(ps@.subrange(0, i as int), "Data"@)),
        decreases ps@.len() - i,
    {
        let p = &ps[i];
        proof {
            lemma_with_extractor_step(ps@, i as int, "Data"@);
        }
        let ghost pre = with_extractor(ps@.subrange(0, i as int), "Data"@);
        proof {
            assert(pre.push(*p).drop_last() =~= pre);
        }
        if str_eq(p.extractor.as_str(), "Data") {
            match &p.structure {
                Some(s) => {
                    assert(ps@[i as int].structure is Some);
                    let t = type_name_for(prefix, s);
                    let v = data_var_name(k);
                    let ghost before = r@;
                    r.push(cat3(v.as_str(), ": &", t.as_str()));
                    assert(views(r@) =~= views(before).push(data_var(k as nat) + ": &"@ + prefixed(prefix@, s.name@)));
                },
                None => {},
            }
            k = k + 1;
        }
        i = i + 1;
    }
    assert(ps@.subrange(0, ps@.len() as int) =~= ps@);
    r
}

pub(crate) fn rs_return_type_of(prefix: &str, meta: &HandlerMeta) -> (r: String)
    requires
        prefix_ok(prefix@, *meta),
    ensures
        r@ == rs_return_type(prefix@, *meta),
{
    proof {
        reveal_strlit("Option<");
    }
    if meta.long_connection {
        owned("AfastSocket")
    } else {
        match &meta.return_structure {
            Some(s) => {
                let base = type_name_for(prefix, s);
                let n = normalize_rust_type(meta.return_type.as_str());
                if starts_with(n.as_str(), "Option<") {
                    cat3("Option<", base.as_str(), ">")
                } else {
                    base
                }
            },
            None => owned("()"),
        }
    }
}

fn push_data_validation(cb: &mut CodeBuf, ind: &str, ps: &Vec<ParamMeta>)
    ensures
        final(cb)@ == old(cb)@ + data_validation(ind@, with_extractor(ps@, "Data"@)),
{
    let mut i: usize = 0;
    let mut k: usize = 0;
    while i < ps.len()
        invariant
            i <= ps@.len(),
            k == with_extractor(ps@.subrange(0, i as int), "Data"@).len(),
            cb@ == old(cb)@ + data_validation(ind@, with_extractor(ps@.subrange(0, i as int), "Data"@)),
        decreases ps@.len() - i,
    {
        let p = &ps[i];
        proof {
            lemma_with_extractor_step(ps@, i as int, "Data"@);
        }
        if str_eq(p.extractor.as_str(), "Data") {
            match &p.structure {
                Some(s) => match &s.kind {
                    TagKind::Struct(fs) => {
                        let var = data_var_name(k);
                        generate_validation_rs(cb, var.as_str(), fs, ind);
                    },
                    TagKind::Enum(_) => {},
                },
                None => {},
            }
            proof {
                let pre = with_extractor(ps@.subrange(0, i as int), "Data"@);
                assert(pre.push(*p).drop_last() =~= pre);
                assert(cb@ =~= old(cb)@ + data_validation(ind@, pre.push(*p)));
            }
            k = k + 1;
        }
        i = i + 1;
    }
    assert(ps@.subrange(0, ps@.len() as int) =~= ps@);
}

fn push_downcasts(cb: &mut CodeBuf, ind: &str, all: &Vec<Handler>, ps: &Vec<ParamMeta>)
    requires
        forall|j: int| 0 <= j < ps@.len() ==> #[trigger] param_ok(ps@[j]),
    ensures
        final(cb)@ == old(cb)@ + custom_downcasts(ind@, all@, with_extractor(ps@, "Custom"@)),
{
    let mut i: usize = 0;
    while i < ps.len()
        invariant
            forall|j: int| 0 <= j < ps@.len() ==> #[trigger] param_ok(ps@[j]),
            i <= ps@.len(),
            cb@ == old(cb)@ + custom_downcasts(ind@, all@, with_extractor(ps@.subrange(0, i as int), "Custom"@)),
        decreases ps@.len() - i,
    {
        let p = &ps[i];
        proof {
            lemma_with_extractor_step(ps@, i as int, "Custom"@);
            assert(param_ok(ps@[i as int]));
        }
        if str_eq(p.extractor.as_str(), "Custom") {
            let (_var, n) = custom_var_text(all, p.ty.as_str());
            let t = rust_type_to_rs(p.ty.as_str());
            let a = cat5(ind, "let _c", n.as_str(), "_any = (self.customs[", n.as_str());
            let first = cat2(
                a.as_str(),
                "])().map_err(|e| AfastError::Network(format!(\"Custom provider error: {}\", e)))?;",
            );
            let b = cat6(ind, "let _c", n.as_str(), " = _c", n.as_str(), "_any.downcast::<");
            let second = cat3(
                b.as_str(),
                t.as_str(),
                ">().map_err(|_| AfastError::Network(\"Custom provider type mismatch\".into()))?;",
            );
            let ghost before = cb@;
            cb.push(first);
            cb.push(second);
            proof {
                let pre = with_extractor(ps@.subrange(0, i as int), "Custom"@);
                assert(pre.push(*p).drop_last() =~= pre);
                assert(cb@ =~= before + downcast_lines(ind@, all@, *p));
            }
        }
        i = i + 1;
    }
    assert(ps@.subrange(0, ps@.len() as int) =~= ps@);
}

fn push_custom_serialize(cb: &mut CodeBuf, ind: &str, all: &Vec<Handler>, ps: &Vec<ParamMeta>)
    requires
        forall|j: int| 0 <= j < ps@.len() ==> #[trigger] param_ok(ps@[j]),
    ensures
        final(cb)@ == old(cb)@ + custom_serialize(ind@, all@, with_extractor(ps@, "Custom"@)),
{
    let mut i: usize = 0;
    while i < ps.len()
        invariant
            forall|j: int| 0 <= j < ps@.len() ==> #[trigger] param_ok(ps@[j]),
            i <= ps@.len(),
            cb@ == old(cb)@ + custom_serialize(ind@, all@, with_extractor(ps@.subrange(0, i as int), "Custom"@)),
        decreases ps@.len() - i,
    {
        let p = &ps[i];
        proof {
            lemma_with_extractor_step(ps@, i as int, "Custom"@);
            assert(param_ok(ps@[i as int]));
        }
        if str_eq(p.extractor.as_str(), "Custom") {
            match &p.structure {
                Some(s) => match &s.kind {
                    TagKind::Struct(fs) => {
                        let (var, _n) = custom_var_text(all, p.ty.as_str());
                        serialize_fields_rs(cb, var.as_str(), fs, ind);
                    },
                    TagKind::Enum(_) => {},
                },
                None => {},
            }
            proof {
                let pre = with_extractor(ps@.subrange(0, i as int), "Custom"@);
                assert(pre.push(*p).drop_last() =~= pre);
                assert(cb@ =~= old(cb)@ + custom_serialize(ind@, all@, pre.push(*p)));
            }
        }
        i = i + 1;
    }
    assert(ps@.subrange(0, ps@.len() as int) =~= ps@);
}

fn push_data_serialize(cb: &mut CodeBuf, ind: &str, ps: &Vec<ParamMeta>)
    requires
        forall|j: int| 0 <= j < ps@.len() ==> #[trigger] param_ok(ps@[j]),
    ensures
        final(cb)@ == old(cb)@ + data_serialize(ind@, with_extractor(ps@, "Data"@)),
{
    let mut i: usize = 0;
    let mut k: usize = 0;
    while i < ps.len()
        invariant
            forall|j: int| 0 <= j < ps@.len() ==> #[trigger] param_ok(ps@[j]),
            i <= ps@.len(),
            k == with_extractor(ps@.subrange(0, i as int), "Data"@).len(),
            cb@ == old(cb)@ + data_serialize(ind@, with_extractor(ps@.subrange(0, i as int), "Data"@)),
        decreases ps@.len() - i,
    {
        let p = &ps[i];
        proof {
            lemma_with_extractor_step(ps@, i as int, "Data"@);
            assert(param_ok(ps@[i as int]));
        }
        if str_eq(p.extractor.as_str(), "Data") {
            let var = data_var_name(k);
            generate_request_serialize_rs(cb, var.as_str(), p.ty.as_str(), ind, &p.structure);
            proof {
                let pre = with_extractor(ps@.subrange(0, i as int), "Data"@);
                assert(pre.push(*p).drop_last() =~= pre);
                assert(cb@ =~= old(cb)@ + data_serialize(ind@, pre.push(*p)));
            }
            k = k + 1;
        }
        i = i + 1;
    }
    assert(ps@.subrange(0, ps@.len() as int) =~= ps@);
}

fn push_method_tail(cb: &mut CodeBuf, ind: &str, meta: &HandlerMeta, ret: &str)
    requires
        handler_meta_ok(*meta),
        !meta.long_connection ==> ov_ok(ret@),
    ensures
        final(cb)@ == old(cb)@ + rs_method_tail(ind@, *meta, ret@),
{
    let ghost start = cb@;
    if meta.long_connection {
        cb.push(cat2(ind, "let conn_id = r.read_u32();"));
        cb.push(cat2(ind, "Ok(AfastSocket { conn_id })"));
    } else {
        generate_return_rs(cb, "r", meta.return_type.as_str(), ret, ind, &meta.return_structure);
    }
    assert(cb@ =~= start + rs_method_tail(ind@, *meta, ret@));
}

/// Generates the Rust client method that calls a binary-protocol handler:
/// it validates the request, fetches the Custom values, serialises
/// everything, performs the call (awaited when `is_async`) and decodes
/// the response (or the id of a long connection).
pub fn handler_method_rs(
    handler: &Handler,
    all_handlers: &Vec<Handler>,
    prefix: &str,
    base_indent: &str,
    is_async: bool,
    debug: bool,
) -> (r: String)
    requires
        rs_meta_ok(prefix@, handler.meta),
    ensures
        r@ == rs_method_text(*handler, all_handlers@, prefix@, base_indent@, is_async, debug),
{
    let meta = &handler.meta;
    let fname = to_snake_case(js_func_name_of(meta));
    let indent = cat2(base_indent, "    ");
    let ind = cat2(indent.as_str(), "    ");
    let params = rs_params_of(prefix, meta);
    let params_str = join(&params, ", ");
    let ret = rs_return_type_of(prefix, meta);
    let id = dec_u64(handler.stable_id as u64);
    let mut body = CodeBuf::new();
    push_data_validation(&mut body, ind.as_str(), &meta.params);
    push_downcasts(&mut body, ind.as_str(), all_handlers, &meta.params);
    body.push(cat2(ind.as_str(), "let mut w = BinaryWriter::new();"));
    push_custom_serialize(&mut body, ind.as_str(), all_handlers, &meta.params);
    push_data_serialize(&mut body, ind.as_str(), &meta.params);
    body.push(cat2(ind.as_str(), "let data = w.into_bytes();"));
    if debug {
        body.push(cat4(ind.as_str(), "eprintln!(\"[afast:debug] \u{2192} call handlerId=", id.as_str(), " payloadLen={}\", data.len());"));
    }
    if is_async {
        body.push(cat4(ind.as_str(), "let resp = _call_tcp(&self.stream, ", id.as_str(), ", data).await?;"));
    } else {
        body.push(cat4(ind.as_str(), "let resp = _call_tcp(&self.stream, ", id.as_str(), ", data)?;"));
    }
    if debug {
        body.push(cat4(ind.as_str(), "eprintln!(\"[afast:debug] \u{2190} call handlerId=", id.as_str(), " respLen={}\", resp.len());"));
    }
    body.push(cat2(ind.as_str(), "let mut r = BinaryReader::new(&resp);"));
    push_method_tail(&mut body, ind.as_str(), meta, ret.as_str());
    assert(body@ =~= rs_method_body(*handler, all_handlers@, prefix@, ind@, is_async, debug));
    let b = body.build();
    let kw = if is_async {
        "async "
    } else {
        ""
    };
    let head = cat6(indent.as_str(), "pub ", kw, "fn ", fname.as_str(), "(");
    let head = cat5(head.as_str(), params_str.as_str(), ") -> Result<", ret.as_str(), ", AfastError> {\n");
    let r = cat5(head.as_str(), b.as_str(), "\n", indent.as_str(), "}");
    assert(r@ =~= rs_method_text(*handler, all_handlers@, prefix@, base_indent@, is_async, debug));
    r
}

} // verus!
