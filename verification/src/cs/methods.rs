//! C# client methods for binary-protocol handlers.

use vstd::prelude::*;
use crate::buf::{build_lines, CodeBuf};
use crate::cs::codec::{generate_request_serialize_cs, generate_return_cs, resp, response_expr_cs, return_lines, ser, ser_fields};
use crate::cs::exports::prefix_ok;
use crate::cs::validate::{generate_validation_cs, val_fields};
use crate::meta_spec::{handler_meta_ok, param_ok, tag_ok};
use crate::model::{FieldMeta, Handler, HandlerMeta, ParamMeta, TagKind, TagMeta};
use crate::naming::{pascal, prefixed, prefixed_type, to_pascal_case};
use crate::params::{data_var, data_var_name, lemma_with_extractor_step, with_extractor};
use crate::text::{cat2, cat3, cat4, cat5, cat6, dec_nat, dec_u64, join, join_seq, owned, starts_with, str_eq, views};

verus! {

/// The fields of a structure, when it is a struct.
pub open spec fn struct_fields(st: Option<Box<TagMeta>>) -> Option<Seq<FieldMeta>> {
    match st {
        Some(s) => match s.kind {
            TagKind::Struct(fs) => Some(fs@),
            TagKind::Enum(_) => None,
        },
        None => None,
    }
}

/// The variable holding the value of a Custom extractor of type `ty`.
pub open spec fn custom_var(ty: Seq<char>) -> Seq<char> {
    "_c"@ + pascal(ty)
}

/// The declared parameters for the `Data` parameters that have a structure.
pub open spec fn decl_params(prefix: Seq<char>, ds: Seq<ParamMeta>) -> Seq<Seq<char>>
    decreases ds.len(),
{
    if ds.len() == 0 {
        Seq::empty()
    } else {
        let rest = decl_params(prefix, ds.drop_last());
        match ds.last().structure {
            Some(s) => rest.push(prefixed(prefix, s.name@) + " "@ + data_var((ds.len() - 1) as nat)),
            None => rest,
        }
    }
}

/// The statements fetching the Custom values.
pub open spec fn custom_fetch(ind: Seq<char>, cs: Seq<ParamMeta>) -> Seq<Seq<char>> {
    cs.map_values(
        |p: ParamMeta|
            ind + "var "@ + p.ty@ + " = ("@ + custom_var(p.ty@) + ")(await Customs[\""@ + p.ty@
                + "\"]());"@,
    )
}

/// The checks of the Custom values that are structs.
pub open spec fn custom_validation(ind: Seq<char>, cs: Seq<ParamMeta>) -> Seq<Seq<char>>
    decreases cs.len(),
{
    if cs.len() == 0 {
        Seq::empty()
    } else {
        custom_validation(ind, cs.drop_last()) + match struct_fields(cs.last().structure) {
            Some(fs) => val_fields(custom_var(cs.last().ty@), fs, ind),
            None => Seq::empty(),
        }
    }
}

/// The checks of the `Data` values that are structs.
pub open spec fn data_validation(ind: Seq<char>, ds: Seq<ParamMeta>) -> Seq<Seq<char>>
    decreases ds.len(),
{
    if ds.len() == 0 {
        Seq::empty()
    } else {
        data_validation(ind, ds.drop_last()) + match struct_fields(ds.last().structure) {
            Some(fs) => val_fields(data_var((ds.len() - 1) as nat), fs, ind),
            None => Seq::empty(),
        }
    }
}

/// The statements writing the fields of the Custom values that are structs.
pub open spec fn custom_serialize(ind: Seq<char>, cs: Seq<ParamMeta>) -> Seq<Seq<char>>
    decreases cs.len(),
{
    if cs.len() == 0 {
        Seq::empty()
    } else {
        custom_serialize(ind, cs.drop_last()) + match struct_fields(cs.last().structure) {
            Some(fs) => ser_fields(custom_var(cs.last().ty@), fs, ind),
            None => Seq::empty(),
        }
    }
}

/// The statements writing the `Data` values.
pub open spec fn data_serialize(ind: Seq<char>, ds: Seq<ParamMeta>) -> Seq<Seq<char>>
    decreases ds.len(),
{
    if ds.len() == 0 {
        Seq::empty()
    } else {
        data_serialize(ind, ds.drop_last()) + ser(
            data_var((ds.len() - 1) as nat),
            ds.last().ty@,
            ind,
            ds.last().structure,
        )
    }
}

/// The `<param>` documentation of the described `Data` structures.
pub open spec fn data_docs(indent: Seq<char>, ds: Seq<ParamMeta>) -> Seq<Seq<char>>
    decreases ds.len(),
{
    if ds.len() == 0 {
        Seq::empty()
    } else {
        let rest = data_docs(indent, ds.drop_last());
        match ds.last().structure {
            Some(s) => if s.desc@.len() > 0 {
                rest.push(
                    indent + "/// <param name=\""@ + data_var((ds.len() - 1) as nat) + "\">"@ + s.desc@
                        + "</param>"@,
                )
            } else {
                rest
            },
            None => rest,
        }
    }
}

/// The variables of all `Data` parameters.
pub open spec fn data_vars(n: nat) -> Seq<Seq<char>> {
    Seq::new(n, |k: int| data_var(k as nat))
}

/// The expression naming the current request in a cache entry.
pub open spec fn cache_request_expr(keys: Seq<Seq<char>>) -> Seq<char> {
    if keys.len() == 0 {
        "\"[]\""@
    } else if keys.len() == 1 {
        keys[0] + ".ToString()"@
    } else {
        "string.Join(\",\", "@ + join_seq(keys, ", "@) + ")"@
    }
}

/// The cache lookup at the start of a cached method.
pub open spec fn cache_lookup(ind: Seq<char>, cache_key: Seq<char>, req: Seq<char>, void: bool, ret: Seq<char>) -> Seq<
    Seq<char>,
> {
    seq![
        ind + "var cacheKey = \""@ + cache_key + "\";"@,
        ind + "var currentReq = "@ + req + ";"@,
        ind + "if (!force)"@,
        ind + "{"@,
        ind + "    if (_cache.TryGetValue(cacheKey, out var cached) && currentReq == cached.Request && DateTime.UtcNow.Ticks < cached.ExpiresAt)"@,
        ind + "    {"@,
        if void {
            ind + "        return;"@
        } else {
            ind + "        return ("@ + ret + ")cached.Value!;"@
        },
        ind + "    }"@,
        ind + "}"@,
    ]
}

/// The cache store of a cached method: `(currentReq, expiry, value)`.
pub open spec fn cache_store(ind: Seq<char>, class_name: Seq<char>, ticks: nat, value: Seq<char>) -> Seq<char> {
    ind + class_name + "._cache[cacheKey] = (currentReq, DateTime.UtcNow.Ticks + "@ + dec_nat(ticks)
        + "L, "@ + value + ");"@
}

/// The method's name: the API name when set, else the function name, in PascalCase.
pub open spec fn method_name(meta: HandlerMeta) -> Seq<char> {
    if meta.api_name@.len() > 0 {
        pascal(meta.api_name@)
    } else {
        pascal(meta.name@)
    }
}

/// The C# type the method resolves to.
pub open spec fn method_return_type(prefix: Seq<char>, meta: HandlerMeta) -> Seq<char> {
    if meta.long_connection {
        "AfastSocket"@
    } else {
        match meta.return_structure {
            Some(s) => if "Option<"@.is_prefix_of(meta.return_type@) || "Option <"@.is_prefix_of(
                meta.return_type@,
            ) {
                prefixed(prefix, s.name@) + "?"@
            } else {
                prefixed(prefix, s.name@)
            },
            None => "void"@,
        }
    }
}

/// The method's declared parameters.
pub open spec fn method_params(prefix: Seq<char>, meta: HandlerMeta) -> Seq<Seq<char>> {
    let ds = with_extractor(meta.params@, "Data"@);
    let a = decl_params(prefix, ds);
    let b = if meta.long_connection {
        a.push("Action<byte[], Action<byte[], Action<object>>> callback"@)
    } else {
        a
    };
    if meta.cache_seconds > 0 {
        b.push("bool force = false"@)
    } else {
        b
    }
}

/// The statements after the request has been sent.
pub open spec fn method_tail(ind: Seq<char>, meta: HandlerMeta, ret: Seq<char>, class_name: Seq<char>) -> Seq<
    Seq<char>,
> {
    if meta.long_connection {
        seq![
            ind + "var r = new BinaryReader(resp);"@,
            ind + "var connId = r.ReadU32();"@,
            ind + "var socket = new AfastSocket(connId, d => _client._SendRaw(d), callback);"@,
            ind + "_client._pushHandlers[connId] = raw => socket.OnMessage(raw);"@,
            ind + "return socket;"@,
        ]
    } else if meta.cache_seconds > 0 {
        let ticks = (meta.cache_seconds * 10000000) as nat;
        if ret == "void"@ {
            seq![
                ind + "var r = new BinaryReader(resp);"@,
                cache_store(ind, class_name, ticks, "null"@),
                ind + "return;"@,
            ]
        } else {
            seq![
                ind + "var r = new BinaryReader(resp);"@,
                ind + "var result = "@ + resp("r"@, meta.return_type@, ind, meta.return_structure, Some(ret)) + ";"@,
                cache_store(ind, class_name, ticks, "result"@),
                ind + "return result;"@,
            ]
        }
    } else {
        seq![ind + "var r = new BinaryReader(resp);"@] + return_lines(
            "r"@,
            meta.return_type@,
            ret,
            ind,
            meta.return_structure,
        )
    }
}

/// The method's body lines.
pub open spec fn method_body(
    prefix: Seq<char>,
    ind: Seq<char>,
    meta: HandlerMeta,
    id: u32,
    class_name: Seq<char>,
    cache_key: Seq<char>,
) -> Seq<Seq<char>> {
    let ds = with_extractor(meta.params@, "Data"@);
    let cs = with_extractor(meta.params@, "Custom"@);
    let ret = method_return_type(prefix, meta);
    let cache = if meta.cache_seconds > 0 {
        cache_lookup(ind, cache_key, cache_request_expr(data_vars(ds.len())), ret == "void"@, ret)
    } else {
        Seq::empty()
    };
    cache + seq![ind + "var w = new BinaryWriter();"@] + custom_fetch(ind, cs) + custom_validation(
        ind,
        cs,
    ) + data_validation(ind, ds) + custom_serialize(ind, cs) + data_serialize(ind, ds) + seq![
        ind + "var data = w.ToBytes();"@,
        ind + "var resp = await _client.CallAsync("@ + dec_nat(id as nat) + ", data);"@,
    ] + method_tail(ind, meta, ret, class_name)
}

/// The method's XML documentation lines.
pub open spec fn method_docs(indent: Seq<char>, meta: HandlerMeta) -> Seq<Seq<char>> {
    let ds = with_extractor(meta.params@, "Data"@);
    let head = if meta.desc@.len() > 0 {
        seq![indent + "/// <summary>"@, indent + "/// "@ + meta.desc@, indent + "/// </summary>"@]
    } else {
        Seq::empty()
    };
    let ret = if meta.return_type@ != "()"@ {
        match meta.return_structure {
            Some(s) => if s.desc@.len() > 0 {
                seq![indent + "/// <returns>"@ + s.desc@ + "</returns>"@]
            } else {
                Seq::empty()
            },
            None => Seq::empty(),
        }
    } else {
        Seq::empty()
    };
    head + data_docs(indent, ds) + ret
}

/// The documentation block followed by a newline, or nothing.
pub open spec fn doc_prefix(docs: Seq<Seq<char>>) -> Seq<char> {
    if build_lines(docs).len() == 0 {
        Seq::empty()
    } else {
        build_lines(docs) + "\n"@
    }
}

/// The complete C# method calling handler `h` over the binary protocol.
pub open spec fn method_text(
    h: Handler,
    prefix: Seq<char>,
    indent: Seq<char>,
    class_name: Seq<char>,
    cache_key: Seq<char>,
) -> Seq<char> {
    let meta = h.meta;
    let ind = indent + "    "@;
    let ret = method_return_type(prefix, meta);
    let body = build_lines(method_body(prefix, ind, meta, h.stable_id, class_name, cache_key));
    let params = join_seq(method_params(prefix, meta), ", "@);
    let sig = if ret == "void"@ {
        "public async Task "@
    } else {
        "public async Task<"@ + ret + "> "@
    };
    doc_prefix(method_docs(indent, meta)) + indent + sig + method_name(meta) + "("@ + params + ")\n"@
        + indent + "{\n"@ + body + "\n"@ + indent + "}"@
}


/// The method name of a handler: its API name, else its function name, in PascalCase.
pub fn method_name_cs(meta: &HandlerMeta) -> (r: String)
    ensures
        r@ == method_name(*meta),
{
    if meta.api_name.unicode_len() > 0 {
        to_pascal_case(meta.api_name.as_str())
    } else {
        to_pascal_case(meta.name.as_str())
    }
}

fn method_return_type_cs(prefix: &str, meta: &HandlerMeta) -> (r: String)
    requires
        prefix_ok(prefix@, *meta),
    ensures
        r@ == method_return_type(prefix@, *meta),
{
    if meta.long_connection {
        owned("AfastSocket")
    } else {
        match &meta.return_structure {
            Some(s) => {
                let base = prefixed_type(prefix, s.name.as_str());
                if starts_with(meta.return_type.as_str(), "Option<") || starts_with(
                    meta.return_type.as_str(),
                    "Option <",
                ) {
                    cat2(base.as_str(), "?")
                } else {
                    base
                }
            },
            None => owned("void"),
        }
    }
}

fn method_params_cs(prefix: &str, meta: &HandlerMeta) -> (r: Vec<String>)
    requires
        prefix_ok(prefix@, *meta),
    ensures
        views(r@) == method_params(prefix@, *meta),
{
    let ps = &meta.params;
    let mut r: Vec<String> = Vec::new();
    let mut k: usize = 0;
    let mut i: usize = 0;
    assert(views(r@) =~= Seq::<Seq<char>>::empty());
    while i < ps.len()
        invariant
            prefix_ok(prefix@, *meta),
            ps == &meta.params,
            i <= ps@.len(),
            k == with_extractor(ps@.subrange(0, i as int), "Data"@).len(),
            views(r@) == decl_params(prefix@, with_extractor(ps@.subrange(0, i as int), "Data"@)),
        decreases ps@.len() - i,
    {
        let p = &ps[i];
        proof {
            lemma_with_extractor_step(ps@, i as int, "Data"@);
        }
        let ghost pre = with_extractor(ps@.subrange(0, i as int), "Data"@);
        proof {
            assert(pre.push(*p).drop_last() =~= pre);
        }
        if str_eq(p.extractor.as_str(), "Data") {
            match &p.structure {
                Some(s) => {
                    let t = prefixed_type(prefix, s.name.as_str());
                    let v = data_var_name(k);
                    let ghost before = r@;
                    r.push(cat3(t.as_str(), " ", v.as_str()));
                    assert(views(r@) =~= views(before).push(
                        prefixed(prefix@, s.name@) + " "@ + data_var(k as nat),
                    ));
                },
                None => {},
            }
            k = k + 1;
        }
        i = i + 1;
    }
    assert(ps@.subrange(0, ps@.len() as int) =~= ps@);
    if meta.long_connection {
        r.push(owned("Action<byte[], Action<byte[], Action<object>>> callback"));
    }
    if meta.cache_seconds > 0 {
        r.push(owned("bool force = false"));
    }
    proof {
        let a = decl_params(prefix@, with_extractor(ps@, "Data"@));
        let b = if meta.long_connection {
            a.push("Action<byte[], Action<byte[], Action<object>>> callback"@)
        } else {
            a
        };
        assert(views(r@) =~= if meta.cache_seconds > 0 {
            b.push("bool force = false"@)
        } else {
            b
        });
    }
    r
}

fn push_custom_fetch(cb: &mut CodeBuf, ind: &str, ps: &Vec<ParamMeta>)
    ensures
        final(cb)@ == old(cb)@ + custom_fetch(ind@, with_extractor(ps@, "Custom"@)),
{
    let mut i: usize = 0;
    while i < ps.len()
        invariant
            i <= ps@.len(),
            cb@ == old(cb)@ + custom_fetch(ind@, with_extractor(ps@.subrange(0, i as int), "Custom"@)),
        decreases ps@.len() - i,
    {
        let p = &ps[i];
        proof {
            lemma_with_extractor_step(ps@, i as int, "Custom"@);
        }
        if str_eq(p.extractor.as_str(), "Custom") {
            let ty = p.ty.as_str();
            let name = to_pascal_case(ty);
            let var = cat2("_c", name.as_str());
            let a = cat5(ind, "var ", ty, " = (", var.as_str());
            let line = cat4(a.as_str(), ")(await Customs[\"", ty, "\"]());");
            let ghost before = cb@;
            cb.push(line);
            proof {
                let pre = with_extractor(ps@.subrange(0, i as int), "Custom"@);
                assert(custom_fetch(ind@, pre.push(*p)) =~= custom_fetch(ind@, pre).push(line@));
            }
        }
        i = i + 1;
    }
    assert(ps@.subrange(0, ps@.len() as int) =~= ps@);
}

fn push_custom_validation(cb: &mut CodeBuf, ind: &str, ps: &Vec<ParamMeta>)
    ensures
        final(cb)@ == old(cb)@ + custom_validation(ind@, with_extractor(ps@, "Custom"@)),
{
    let mut i: usize = 0;
    while i < ps.len()
        invariant
            i <= ps@.len(),
            cb@ == old(cb)@ + custom_validation(ind@, with_extractor(ps@.subrange(0, i as int), "Custom"@)),
        decreases ps@.len() - i,
    {
        let p = &ps[i];
        proof {
            lemma_with_extractor_step(ps@, i as int, "Custom"@);
        }
        if str_eq(p.extractor.as_str(), "Custom") {
            let ghost before = cb@;
            match &p.structure {
                Some(s) => match &s.kind {
                    TagKind::Struct(fs) => {
                        let name = to_pascal_case(p.ty.as_str());
                        let var = cat2("_c", name.as_str());
                        generate_validation_cs(cb, var.as_str(), fs, ind);
                    },
                    TagKind::Enum(_) => {},
                },
                None => {},
            }
            proof {
                let pre = with_extractor(ps@.subrange(0, i as int), "Custom"@);
                assert(pre.push(*p).drop_last() =~= pre);
                assert(cb@ =~= old(cb)@ + custom_validation(ind@, pre.push(*p)));
            }
        }
        i = i + 1;
    }
    assert(ps@.subrange(0, ps@.len() as int) =~= ps@);
}

fn push_data_validation(cb: &mut CodeBuf, ind: &str, ps: &Vec<ParamMeta>)
    ensures
        final(cb)@ == old(cb)@ + data_validation(ind@, with_extractor(ps@, "Data"@)),
{
    let mut i: usize = 0;
    let mut k: usize = 0;
    while i < ps.len()
        invariant
            i <= ps@.len(),
            k == with_extractor(ps@.subrange(0, i as int), "Data"@).len(),
            cb@ == old(cb)@ + data_validation(ind@, with_extractor(ps@.subrange(0, i as int), "Data"@)),
        decreases ps@.len() - i,
    {
        let p = &ps[i];
        proof {
            lemma_with_extractor_step(ps@, i as int, "Data"@);
        }
        if str_eq(p.extractor.as_str(), "Data") {
            let ghost before = cb@;
            match &p.structure {
                Some(s) => match &s.kind {
                    TagKind::Struct(fs) => {
                        let var = data_var_name(k);
                        generate_validation_cs(cb, var.as_str(), fs, ind);
                    },
                    TagKind::Enum(_) => {},
                },
                None => {},
            }
            proof {
                let pre = with_extractor(ps@.subrange(0, i as int), "Data"@);
                assert(pre.push(*p).drop_last() =~= pre);
                assert(cb@ =~= old(cb)@ + data_validation(ind@, pre.push(*p)));
            }
            k = k + 1;
        }
        i = i + 1;
    }
    assert(ps@.subrange(0, ps@.len() as int) =~= ps@);
}

fn push_custom_serialize(cb: &mut CodeBuf, ind: &str, ps: &Vec<ParamMeta>)
    requires
        forall|j: int| 0 <= j < ps@.len() ==> #[trigger] param_ok(ps@[j]),
    ensures
        final(cb)@ == old(cb)@ + custom_serialize(ind@, with_extractor(ps@, "Custom"@)),
{
    let mut i: usize = 0;
    while i < ps.len()
        invariant
            forall|j: int| 0 <= j < ps@.len() ==> #[trigger] param_ok(ps@[j]),
            i <= ps@.len(),
            cb@ == old(cb)@ + custom_serialize(ind@, with_extractor(ps@.subrange(0, i as int), "Custom"@)),
        decreases ps@.len() - i,
    {
        let p = &ps[i];
        proof {
            lemma_with_extractor_step(ps@, i as int, "Custom"@);
            assert(param_ok(ps@[i as int]));
        }
        if str_eq(p.extractor.as_str(), "Custom") {
            let ghost before = cb@;
            match &p.structure {
                Some(s) => match &s.kind {
                    TagKind::Struct(fs) => {
                        let name = to_pascal_case(p.ty.as_str());
                        let var = cat2("_c", name.as_str());
                        crate::cs::codec::serialize_fields_pub(cb, var.as_str(), fs, ind);
                    },
                    TagKind::Enum(_) => {},
                },
                None => {},
            }
            proof {
                let pre = with_extractor(ps@.subrange(0, i as int), "Custom"@);
                assert(pre.push(*p).drop_last() =~= pre);
                assert(cb@ =~= old(cb)@ + custom_serialize(ind@, pre.push(*p)));
            }
        }
        i = i + 1;
    }
    assert(ps@.subrange(0, ps@.len() as int) =~= ps@);
}

fn push_data_serialize(cb: &mut CodeBuf, ind: &str, ps: &Vec<ParamMeta>)
    requires
        forall|j: int| 0 <= j < ps@.len() ==> #[trigger] param_ok(ps@[j]),
    ensures
        final(cb)@ == old(cb)@ + data_serialize(ind@, with_extractor(ps@, "Data"@)),
{
    let mut i: usize = 0;
    let mut k: usize = 0;
    while i < ps.len()
        invariant
            forall|j: int| 0 <= j < ps@.len() ==> #[trigger] param_ok(ps@[j]),
            i <= ps@.len(),
            k == with_extractor(ps@.subrange(0, i as int), "Data"@).len(),
            cb@ == old(cb)@ + data_serialize(ind@, with_extractor(ps@.subrange(0, i as int), "Data"@)),
        decreases ps@.len() - i,
    {
        let p = &ps[i];
        proof {
            lemma_with_extractor_step(ps@, i as int, "Data"@);
            assert(param_ok(ps@[i as int]));
        }
        if str_eq(p.extractor.as_str(), "Data") {
            let var = data_var_name(k);
            let ghost before = cb@;
            generate_request_serialize_cs(cb, var.as_str(), p.ty.as_str(), ind, &p.structure);
            proof {
                let pre = with_extractor(ps@.subrange(0, i as int), "Data"@);
                assert(pre.push(*p).drop_last() =~= pre);
                assert(cb@ =~= old(cb)@ + data_serialize(ind@, pre.push(*p)));
            }
            k = k + 1;
        }
        i = i + 1;
    }
    assert(ps@.subrange(0, ps@.len() as int) =~= ps@);
}

fn push_data_docs(cb: &mut CodeBuf, indent: &str, ps: &Vec<ParamMeta>)
    ensures
        final(cb)@ == old(cb)@ + data_docs(indent@, with_extractor(ps@, "Data"@)),
{
    let mut i: usize = 0;
    let mut k: usize = 0;
    while i < ps.len()
        invariant
            i <= ps@.len(),
            k == with_extractor(ps@.subrange(0, i as int), "Data"@).len(),
            cb@ == old(cb)@ + data_docs(indent@, with_extractor(ps@.subrange(0, i as int), "Data"@)),
        decreases ps@.len() - i,
    {
        let p = &ps[i];
        proof {
            lemma_with_extractor_step(ps@, i as int, "Data"@);
        }
        if str_eq(p.extractor.as_str(), "Data") {
            let ghost before = cb@;
            match &p.structure {
                Some(s) => {
                    if s.desc.unicode_len() > 0 {
                        let v = data_var_name(k);
                        let a = cat4(indent, "/// <param name=\"", v.as_str(), "\">");
                        cb.push(cat3(a.as_str(), s.desc.as_str(), "</param>"));
                    }
                },
                None => {},
            }
            proof {
                let pre = with_extractor(ps@.subrange(0, i as int), "Data"@);
                assert(pre.push(*p).drop_last() =~= pre);
                assert(cb@ =~= old(cb)@ + data_docs(indent@, pre.push(*p)));
            }
            k = k + 1;
        }
        i = i + 1;
    }
    assert(ps@.subrange(0, ps@.len() as int) =~= ps@);
}

fn data_var_list(n: usize) -> (r: Vec<String>)
    ensures
        views(r@) == data_vars(n as nat),
{
    let mut r: Vec<String> = Vec::new();
    let mut k: usize = 0;
    while k < n
        invariant
            k <= n,
            views(r@) == data_vars(k as nat),
        decreases n - k,
    {
        let ghost before = r@;
        r.push(data_var_name(k));
        assert(views(r@) =~= views(before).push(data_var(k as nat)));
        assert(data_vars((k + 1) as nat) =~= data_vars(k as nat).push(data_var(k as nat)));
        k = k + 1;
    }
    r
}

/// The expression naming the current request in a cache entry.
pub fn cache_request_text(keys: &Vec<String>) -> (r: String)
    ensures
        r@ == cache_request_expr(views(keys@)),
{
    if keys.len() == 0 {
        owned("\"[]\"")
    } else if keys.len() == 1 {
        cat2(keys[0].as_str(), ".ToString()")
    } else {
        let j = join(keys, ", ");
        cat3("string.Join(\",\", ", j.as_str(), ")")
    }
}

/// Appends the cache lookup at the start of a cached method.
pub fn push_cache_lookup(cb: &mut CodeBuf, ind: &str, cache_key: &str, req: &str, void: bool, ret: &str)
    ensures
        final(cb)@ == old(cb)@ + cache_lookup(ind@, cache_key@, req@, void, ret@),
{
    let ghost start = cb@;
    cb.push(cat4(ind, "var cacheKey = \"", cache_key, "\";"));
    cb.push(cat4(ind, "var currentReq = ", req, ";"));
    cb.push(cat2(ind, "if (!force)"));
    cb.push(cat2(ind, "{"));
    cb.push(cat2(ind, "    if (_cache.TryGetValue(cacheKey, out var cached) && currentReq == cached.Request && DateTime.UtcNow.Ticks < cached.ExpiresAt)"));
    cb.push(cat2(ind, "    {"));
    if void {
        cb.push(cat2(ind, "        return;"));
    } else {
        cb.push(cat4(ind, "        return (", ret, ")cached.Value!;"));
    }
    cb.push(cat2(ind, "    }"));
    cb.push(cat2(ind, "}"));
    assert(cb@ =~= start + cache_lookup(ind@, cache_key@, req@, void, ret@));
}

/// The cache store line.
pub fn cache_store_text(ind: &str, class_name: &str, ticks: u64, value: &str) -> (r: String)
    ensures
        r@ == cache_store(ind@, class_name@, ticks as nat, value@),
{
    let t = dec_u64(ticks);
    let a = cat4(ind, class_name, "._cache[cacheKey] = (currentReq, DateTime.UtcNow.Ticks + ", t.as_str());
    cat4(a.as_str(), "L, ", value, ");")
}

fn push_method_tail(cb: &mut CodeBuf, ind: &str, meta: &HandlerMeta, ret: &str, class_name: &str)
    requires
        handler_meta_ok(*meta),
        meta.cache_seconds <= 1844674407370u64,
    ensures
        final(cb)@ == old(cb)@ + method_tail(ind@, *meta, ret@, class_name@),
{
    let ghost start = cb@;
    if meta.long_connection {
        cb.push(cat2(ind, "var r = new BinaryReader(resp);"));
        cb.push(cat2(ind, "var connId = r.ReadU32();"));
        cb.push(cat2(ind, "var socket = new AfastSocket(connId, d => _client._SendRaw(d), callback);"));
        cb.push(cat2(ind, "_client._pushHandlers[connId] = raw => socket.OnMessage(raw);"));
        cb.push(cat2(ind, "return socket;"));
    } else if meta.cache_seconds > 0 {
        let ticks: u64 = meta.cache_seconds * 10000000;
        cb.push(cat2(ind, "var r = new BinaryReader(resp);"));
        if str_eq(ret, "void") {
            cb.push(cache_store_text(ind, class_name, ticks, "null"));
            cb.push(cat2(ind, "return;"));
        } else {
            let e = response_expr_cs("r", meta.return_type.as_str(), ind, &meta.return_structure, Some(ret));
            cb.push(cat4(ind, "var result = ", e.as_str(), ";"));
            cb.push(cache_store_text(ind, class_name, ticks, "result"));
            cb.push(cat2(ind, "return result;"));
        }
    } else {
        cb.push(cat2(ind, "var r = new BinaryReader(resp);"));
        generate_return_cs(cb, "r", meta.return_type.as_str(), ret, ind, &meta.return_structure);
    }
    assert(cb@ =~= start + method_tail(ind@, *meta, ret@, class_name@));
}

fn method_docs_buf(indent: &str, meta: &HandlerMeta) -> (r: CodeBuf)
    ensures
        r@ == method_docs(indent@, *meta),
{
    let mut doc = CodeBuf::new();
    if meta.desc.unicode_len() > 0 {
        doc.push(cat2(indent, "/// <summary>"));
        doc.push(cat3(indent, "/// ", meta.desc.as_str()));
        doc.push(cat2(indent, "/// </summary>"));
    }
    let ghost head = doc@;
    push_data_docs(&mut doc, indent, &meta.params);
    let ghost mid = doc@;
    if !str_eq(meta.return_type.as_str(), "()") {
        match &meta.return_structure {
            Some(s) => {
                if s.desc.unicode_len() > 0 {
                    doc.push(cat4(indent, "/// <returns>", s.desc.as_str(), "</returns>"));
                }
            },
            None => {},
        }
    }
    assert(doc@ =~= method_docs(indent@, *meta));
    doc
}

/// Builds the documentation prefix of a method from its doc lines.
pub fn doc_prefix_text(doc: CodeBuf) -> (r: String)
    ensures
        r@ == doc_prefix(doc@),
{
    let s = doc.build();
    if s.unicode_len() == 0 {
        String::new()
    } else {
        cat2(s.as_str(), "\n")
    }
}

/// Generates the C# method that calls a binary-protocol handler: it checks
/// the cache, fetches and validates Custom values and validates the
/// request, serialises everything, performs the call and decodes the
/// response (or opens the long connection).
pub fn handler_method_cs(
    handler: &Handler,
    all_handlers: &Vec<Handler>,
    prefix: &str,
    base_indent: &str,
    svc_name: &str,
    class_name: &str,
    cache_key: &str,
) -> (r: String)
    requires
        handler_meta_ok(handler.meta),
        prefix_ok(prefix@, handler.meta),
        handler.meta.cache_seconds <= 1844674407370u64,
    ensures
        r@ == method_text(*handler, prefix@, base_indent@, class_name@, cache_key@),
{
    let meta = &handler.meta;
    let func_name = method_name_cs(meta);
    let indent = base_indent;
    let ind = cat2(indent, "    ");
    let ret = method_return_type_cs(prefix, meta);
    let fn_params = method_params_cs(prefix, meta);
    let params_str = join(&fn_params, ", ");
    let void = str_eq(ret.as_str(), "void");
    let mut body = CodeBuf::new();
    let ghost ds = with_extractor(meta.params@, "Data"@);
    proof {
        crate::params::lemma_with_extractor_len(meta.params@, "Data"@);
    }
    if meta.cache_seconds > 0 {
        let n = count_data(&meta.params);
        let keys = data_var_list(n);
        let req = cache_request_text(&keys);
        push_cache_lookup(&mut body, ind.as_str(), cache_key, req.as_str(), void, ret.as_str());
    }
    body.push(cat2(ind.as_str(), "var w = new BinaryWriter();"));
    push_custom_fetch(&mut body, ind.as_str(), &meta.params);
    push_custom_validation(&mut body, ind.as_str(), &meta.params);
    push_data_validation(&mut body, ind.as_str(), &meta.params);
    push_custom_serialize(&mut body, ind.as_str(), &meta.params);
    push_data_serialize(&mut body, ind.as_str(), &meta.params);
    body.push(cat2(ind.as_str(), "var data = w.ToBytes();"));
    let id = dec_u64(handler.stable_id as u64);
    body.push(cat4(ind.as_str(), "var resp = await _client.CallAsync(", id.as_str(), ", data);"));
    push_method_tail(&mut body, ind.as_str(), meta, ret.as_str(), class_name);
    proof {
        assert(body@ =~= method_body(prefix@, ind@, *meta, handler.stable_id, class_name@, cache_key@));
    }
    let body_str = body.build();
    let doc = method_docs_buf(indent, meta);
    let dp = doc_prefix_text(doc);
    let sig: String = if void {
        owned("public async Task ")
    } else {
        cat3("public async Task<", ret.as_str(), "> ")
    };
    let a = cat6(dp.as_str(), indent, sig.as_str(), func_name.as_str(), "(", params_str.as_str());
    let b = cat6(a.as_str(), ")\n", indent, "{\n", body_str.as_str(), "\n");
    let r = cat3(b.as_str(), indent, "}");
    assert(r@ =~= method_text(*handler, prefix@, base_indent@, class_name@, cache_key@));
    r
}

fn count_data(ps: &Vec<ParamMeta>) -> (r: usize)
    ensures
        r == with_extractor(ps@, "Data"@).len(),
        r <= ps@.len(),
{
    let mut i: usize = 0;
    let mut k: usize = 0;
    while i < ps.len()
        invariant
            i <= ps@.len(),
            k == with_extractor(ps@.subrange(0, i as int), "Data"@).len(),
            k <= i,
        decreases ps@.len() - i,
    {
        proof {
            lemma_with_extractor_step(ps@, i as int, "Data"@);
        }
        if str_eq(ps[i].extractor.as_str(), "Data") {
            k = k + 1;
        }
        i = i + 1;
    }
    assert(ps@.subrange(0, ps@.len() as int) =~= ps@);
    k
}

} // verus!
