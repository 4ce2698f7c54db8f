//! JavaScript client methods for binary-protocol handlers.

use vstd::prelude::*;
use crate::buf::{build_lines, CodeBuf};
use crate::collect::{custom_index, customs_of, position_or_zero};
use crate::cs::methods::{data_vars, struct_fields};
use crate::js::codec::{generate_request_serialize_js, generate_return_js, return_lines, ser, ser_fields};
use crate::js::validate::{generate_validation_js, val_fields};
use crate::meta_spec::{handler_meta_ok, param_ok};
use crate::model::{Handler, HandlerMeta, ParamMeta, TagKind};
use crate::params::{data_var, data_var_name, lemma_with_extractor_len, lemma_with_extractor_step, with_extractor};
use crate::text::{cat2, cat3, cat4, cat5, cat6, dec_nat, dec_u64, dec_usize, join, join_seq, owned, str_eq, views};

verus! {

/// The method's name: the API name when set, else the function name.
pub open spec fn js_func_name(meta: HandlerMeta) -> Seq<char> {
    if meta.api_name@.len() > 0 {
        meta.api_name@
    } else {
        meta.name@
    }
}

/// The method's parameters: the `Data` values, the push callback of a long
/// connection, and the cache bypass flag of a cached handler.
pub open spec fn js_params(meta: HandlerMeta) -> Seq<Seq<char>> {
    let a = data_vars(with_extractor(meta.params@, "Data"@).len());
    let b = if meta.long_connection {
        a.push("callback"@)
    } else {
        a
    };
    if meta.cache_seconds > 0 {
        b.push("force = false"@)
    } else {
        b
    }
}

/// The variable holding a Custom value: `_c` and the type's position among
/// the Custom types of all handlers.
pub open spec fn custom_var(all: Seq<Handler>, ty: Seq<char>) -> Seq<char> {
    "_c"@ + dec_nat(position_or_zero(customs_of(all), ty))
}

/// The statements fetching the Custom values.
pub open spec fn custom_fetch(ind: Seq<char>, all: Seq<Handler>, cs: Seq<ParamMeta>) -> Seq<Seq<char>> {
    cs.map_values(
        |p: ParamMeta|
            ind + "const "@ + custom_var(all, p.ty@) + "=await this._customs["@ + dec_nat(
                position_or_zero(customs_of(all), p.ty@),
            ) + "]();"@,
    )
}

/// The checks of the Custom values that are structs.
pub open spec fn custom_validation(ind: Seq<char>, all: Seq<Handler>, cs: Seq<ParamMeta>) -> Seq<Seq<char>>
    decreases cs.len(),
{
    if cs.len() == 0 {
        Seq::empty()
    } else {
        custom_validation(ind, all, cs.drop_last()) + match struct_fields(cs.last().structure) {
            Some(fs) => val_fields(custom_var(all, cs.last().ty@), fs, ind),
            None => Seq::empty(),
        }
    }
}

/// The checks of the `Data` values that are structs.
pub open spec fn data_validation(ind: Seq<char>, ds: Seq<ParamMeta>) -> Seq<Seq<char>>
    decreases ds.len(),
{
    if ds.len() == 0 {
        Seq::empty()
    } else {
        data_validation(ind, ds.drop_last()) + match struct_fields(ds.last().structure) {
            Some(fs) => val_fields(data_var((ds.len() - 1) as nat), fs, ind),
            None => Seq::empty(),
        }
    }
}

/// The statements writing the fields of the Custom values that are structs.
pub open spec fn custom_serialize(ind: Seq<char>, all: Seq<Handler>, cs: Seq<ParamMeta>) -> Seq<Seq<char>>
    decreases cs.len(),
{
    if cs.len() == 0 {
        Seq::empty()
    } else {
        custom_serialize(ind, all, cs.drop_last()) + match struct_fields(cs.last().structure) {
            Some(fs) => ser_fields(custom_var(all, cs.last().ty@), fs, ind),
            None => Seq::empty(),
        }
    }
}

/// The statements writing the `Data` values.
pub open spec fn data_serialize(ind: Seq<char>, ds: Seq<ParamMeta>) -> Seq<Seq<char>>
    decreases ds.len(),
{
    if ds.len() == 0 {
        Seq::empty()
    } else {
        data_serialize(ind, ds.drop_last()) + ser(
            data_var((ds.len() - 1) as nat),
            ds.last().ty@,
            ind,
            ds.last().structure,
        )
    }
}

/// The expression naming the current request in a cache entry.
pub open spec fn js_request_expr(vars: Seq<Seq<char>>) -> Seq<char> {
    if vars.len() == 0 {
        "\"[]\""@
    } else {
        "JSON.stringify(["@ + join_seq(vars, ", "@) + "])"@
    }
}

/// The cache lookup at the start of a cached method.
pub open spec fn js_cache_lookup(ind: Seq<char>, cache_key: Seq<char>, req: Seq<char>, class_name: Seq<char>) -> Seq<Seq<char>> {
    seq![
        ind + "const _cacheKey = \""@ + cache_key + "\";"@,
        ind + "const _currentReq = "@ + req + ";"@,
        ind + "if (!force) {"@,
        ind + "    const _cached = "@ + class_name + "Client._cache.get(_cacheKey);"@,
        ind + "    if (_cached && Date.now() < _cached.expiry && _currentReq === _cached.request) return _cached.response;"@,
        ind + "}"@,
    ]
}

/// The debug line logging an outgoing call with its arguments.
pub open spec fn js_debug_out(ind: Seq<char>, func_name: Seq<char>, vars: Seq<Seq<char>>) -> Seq<char> {
    if vars.len() == 0 {
        ind + "if (this._debug) console.log('[afast:debug] \u{2192} "@ + func_name + "');"@
    } else if vars.len() == 1 {
        ind + "if (this._debug) console.log('[afast:debug] \u{2192} "@ + func_name + "', JSON.stringify("@
            + vars[0] + "));"@
    } else {
        ind + "if (this._debug) console.log('[afast:debug] \u{2192} "@ + func_name + "', JSON.stringify(["@
            + join_seq(vars, ", "@) + "]));"@
    }
}

/// The statements after the request has been sent: opening the socket of
/// a long connection, or decoding (and caching) the response.
pub open spec fn js_method_tail(ind: Seq<char>, meta: HandlerMeta, class_name: Seq<char>, debug: bool) -> Seq<Seq<char>> {
    let fname = js_func_name(meta);
    if meta.long_connection {
        seq![
            ind + "const r=this._reader(_resp);"@,
            ind + "const connId=r.rU32();"@,
            ind + "const socket=new Socket(connId,this,callback);"@,
            ind + "this._pushHandlers.set(connId,(raw)=>socket._onMessage(raw));"@,
            ind + "return socket;"@,
        ]
    } else if meta.cache_seconds > 0 {
        seq![ind + "const r=this._reader(_resp);"@] + return_lines(
            "r"@,
            meta.return_type@,
            ind,
            meta.return_structure,
            false,
            debug,
            fname,
        ) + seq![
            ind + class_name
                + "Client._cache.set(_cacheKey, { request: _currentReq, response: _result, expiry: Date.now() + "@
                + dec_nat((meta.cache_seconds * 1000) as nat) + " });"@,
        ] + (if debug {
            seq![
                ind + "if (this._debug) console.log('[afast:debug] \u{2190} "@ + fname
                    + "', JSON.stringify(_result));"@,
            ]
        } else {
            Seq::empty()
        }) + seq![ind + "return _result;"@]
    } else {
        seq![ind + "const r=this._reader(_resp);"@] + return_lines(
            "r"@,
            meta.return_type@,
            ind,
            meta.return_structure,
            true,
            debug,
            fname,
        )
    }
}

/// The method's body lines.
pub open spec fn js_method_body(
    h: Handler,
    all: Seq<Handler>,
    ind: Seq<char>,
    debug: bool,
    class_name: Seq<char>,
    cache_key: Seq<char>,
) -> Seq<Seq<char>> {
    let meta = h.meta;
    let ds = with_extractor(meta.params@, "Data"@);
    let cs = with_extractor(meta.params@, "Custom"@);
    let vars = data_vars(ds.len());
    let cache = if meta.cache_seconds > 0 {
        js_cache_lookup(ind, cache_key, js_request_expr(vars), class_name)
    } else {
        Seq::empty()
    };
    let dbg = if debug {
        seq![js_debug_out(ind, js_func_name(meta), vars)]
    } else {
        Seq::empty()
    };
    cache + seq![ind + "const w=this._writer();"@] + dbg + custom_fetch(ind, all, cs) + custom_validation(
        ind,
        all,
        cs,
    ) + data_validation(ind, ds) + custom_serialize(ind, all, cs) + data_serialize(ind, ds) + seq![
        ind + "const _data=w.toBytes();"@,
        ind + "const _resp=await this._call("@ + dec_nat(h.stable_id as nat) + ", _data);"@,
    ] + js_method_tail(ind, meta, class_name, debug)
}

/// The complete JavaScript method (an object property holding an async
/// arrow function) calling handler `h` over the binary protocol.
pub open spec fn js_method_text(
    h: Handler,
    all: Seq<Handler>,
    base_indent: Seq<char>,
    debug: bool,
    class_name: Seq<char>,
    cache_key: Seq<char>,
) -> Seq<char> {
    let indent = base_indent + "    "@;
    let ind = indent + "    "@;
    indent + js_func_name(h.meta) + ":async("@ + join_seq(js_params(h.meta), ", "@) + ")=>{\n"@ + build_lines(
        js_method_body(h, all, ind, debug, class_name, cache_key),
    ) + "\n"@ + indent + "},\n"@
}

/// Returns a handler's method name: its API name, else its function name.
pub fn js_func_name_of(meta: &HandlerMeta) -> (r: &str)
    ensures
        r@ == js_func_name(*meta),
{
    if meta.api_name.unicode_len() > 0 {
        meta.api_name.as_str()
    } else {
        meta.name.as_str()
    }
}

fn count_extractor(ps: &Vec<ParamMeta>, e: &str) -> (r: usize)
    ensures
        r == with_extractor(ps@, e@).len(),
{
    let mut i: usize = 0;
    let mut k: usize = 0;
    while i < ps.len()
        invariant
            i <= ps@.len(),
            k == with_extractor(ps@.subrange(0, i as int), e@).len(),
        decreases ps@.len() - i,
    {
        proof {
            lemma_with_extractor_step(ps@, i as int, e@);
        }
        if str_eq(ps[i].extractor.as_str(), e) {
            k = k + 1;
        }
        i = i + 1;
    }
    assert(ps@.subrange(0, ps@.len() as int) =~= ps@);
    k
}

fn data_var_list(n: usize) -> (r: Vec<String>)
    ensures
        views(r@) == data_vars(n as nat),
{
    let mut r: Vec<String> = Vec::new();
    let mut k: usize = 0;
    while k < n
        invariant
            k <= n,
            views(r@) == data_vars(k as nat),
        decreases n - k,
    {
        let ghost before = r@;
        r.push(data_var_name(k));
        assert(views(r@) =~= views(before).push(data_var(k as nat)));
        assert(data_vars((k + 1) as nat) =~= data_vars(k as nat).push(data_var(k as nat)));
        k = k + 1;
    }
    r
}

/// Returns the variable holding a Custom value and its index text.
pub(crate) fn custom_var_text(all: &Vec<Handler>, ty: &str) -> (r: (String, String))
    ensures
        r.0@ == custom_var(all@, ty@),
        r.1@ == dec_nat(position_or_zero(customs_of(all@), ty@)),
{
    let idx = custom_index(all, ty);
    let n = dec_usize(idx);
    (cat2("_c", n.as_str()), n)
}

fn push_custom_fetch(cb: &mut CodeBuf, ind: &str, all: &Vec<Handler>, ps: &Vec<ParamMeta>)
    ensures
        final(cb)@ == old(cb)@ + custom_fetch(ind@, all@, with_extractor(ps@, "Custom"@)),
{
    let mut i: usize = 0;
    while i < ps.len()
        invariant
            i <= ps@.len(),
            cb@ == old(cb)@ + custom_fetch(ind@, all@, with_extractor(ps@.subrange(0, i as int), "Custom"@)),
        decreases ps@.len() - i,
    {
        let p = &ps[i];
        proof {
            lemma_with_extractor_step(ps@, i as int, "Custom"@);
        }
        if str_eq(p.extractor.as_str(), "Custom") {
            let (var, n) = custom_var_text(all, p.ty.as_str());
            let line = cat6(ind, "const ", var.as_str(), "=await this._customs[", n.as_str(), "]();");
            proof {
                let pre = with_extractor(ps@.subrange(0, i as int), "Custom"@);
                assert(custom_fetch(ind@, all@, pre.push(*p)) =~= custom_fetch(ind@, all@, pre).push(line@));
            }
            cb.push(line);
        }
        i = i + 1;
    }
    assert(ps@.subrange(0, ps@.len() as int) =~= ps@);
}

fn push_custom_validation(cb: &mut CodeBuf, ind: &str, all: &Vec<Handler>, ps: &Vec<ParamMeta>)
    ensures
        final(cb)@ == old(cb)@ + custom_validation(ind@, all@, with_extractor(ps@, "Custom"@)),
{
    let mut i: usize = 0;
    while i < ps.len()
        invariant
            i <= ps@.len(),
            cb@ == old(cb)@ + custom_validation(ind@, all@, with_extractor(ps@.subrange(0, i as int), "Custom"@)),
        decreases ps@.len() - i,
    {
        let p = &ps[i];
        proof {
            lemma_with_extractor_step(ps@, i as int, "Custom"@);
        }
        if str_eq(p.extractor.as_str(), "Custom") {
            match &p.structure {
                Some(s) => match &s.kind {
                    TagKind::Struct(fs) => {
                        let (var, _n) = custom_var_text(all, p.ty.as_str());
                        generate_validation_js(cb, var.as_str(), fs, ind);
                    },
                    TagKind::Enum(_) => {},
                },
                None => {},
            }
            proof {
                let pre = with_extractor(ps@.subrange(0, i as int), "Custom"@);
                assert(pre.push(*p).drop_last() =~= pre);
                assert(cb@ =~= old(cb)@ + custom_validation(ind@, all@, pre.push(*p)));
            }
        }
        i = i + 1;
    }
    assert(ps@.subrange(0, ps@.len() as int) =~= ps@);
}

fn push_data_validation(cb: &mut CodeBuf, ind: &str, ps: &Vec<ParamMeta>)
    ensures
        final(cb)@ == old(cb)@ + data_validation(ind@, with_extractor(ps@, "Data"@)),
{
    let mut i: usize = 0;
    let mut k: usize = 0;
    while i < ps.len()
        invariant
            i <= ps@.len(),
            k == with_extractor(ps@.subrange(0, i as int), "Data"@).len(),
            cb@ == old(cb)@ + data_validation(ind@, with_extractor(ps@.subrange(0, i as int), "Data"@)),
        decreases ps@.len() - i,
    {
        let p = &ps[i];
        proof {
            lemma_with_extractor_step(ps@, i as int, "Data"@);
        }
        if str_eq(p.extractor.as_str(), "Data") {
            match &p.structure {
                Some(s) => match &s.kind {
                    TagKind::Struct(fs) => {
                        let var = data_var_name(k);
                        generate_validation_js(cb, var.as_str(), fs, ind);
                    },
                    TagKind::Enum(_) => {},
                },
                None => {},
            }
            proof {
                let pre = with_extractor(ps@.subrange(0, i as int), "Data"@);
                assert(pre.push(*p).drop_last() =~= pre);
                assert(cb@ =~= old(cb)@ + data_validation(ind@, pre.push(*p)));
            }
            k = k + 1;
        }
        i = i + 1;
    }
    assert(ps@.subrange(0, ps@.len() as int) =~= ps@);
}

fn push_custom_serialize(cb: &mut CodeBuf, ind: &str, all: &Vec<Handler>, ps: &Vec<ParamMeta>)
    requires
        forall|j: int| 0 <= j < ps@.len() ==> #[trigger] param_ok(ps@[j]),
    ensures
        final(cb)@ == old(cb)@ + custom_serialize(ind@, all@, with_extractor(ps@, "Custom"@)),
{
    let mut i: usize = 0;
    while i < ps.len()
        invariant
            forall|j: int| 0 <= j < ps@.len() ==> #[trigger] param_ok(ps@[j]),
            i <= ps@.len(),
            cb@ == old(cb)@ + custom_serialize(ind@, all@, with_extractor(ps@.subrange(0, i as int), "Custom"@)),
        decreases ps@.len() - i,
    {
        let p = &ps[i];
        proof {
            lemma_with_extractor_step(ps@, i as int, "Custom"@);
            assert(param_ok(ps@[i as int]));
        }
        if str_eq(p.extractor.as_str(), "Custom") {
            match &p.structure {
                Some(s) => match &s.kind {
                    TagKind::Struct(fs) => {
                        let (var, _n) = custom_var_text(all, p.ty.as_str());
                        push_fields_serialize(cb, var.as_str(), fs, ind);
                    },
                    TagKind::Enum(_) => {},
                },
                None => {},
            }
            proof {
                let pre = with_extractor(ps@.subrange(0, i as int), "Custom"@);
                assert(pre.push(*p).drop_last() =~= pre);
                assert(cb@ =~= old(cb)@ + custom_serialize(ind@, all@, pre.push(*p)));
            }
        }
        i = i + 1;
    }
    assert(ps@.subrange(0, ps@.len() as int) =~= ps@);
}

fn push_fields_serialize(cb: &mut CodeBuf, base: &str, fields: &Vec<crate::model::FieldMeta>, indent: &str)
    requires
        crate::meta_spec::fields_ok(fields@),
    ensures
        final(cb)@ == old(cb)@ + ser_fields(base@, fields@, indent@),
{
    let mut i: usize = 0;
    while i < fields.len()
        invariant
            crate::meta_spec::fields_ok(fields@),
            i <= fields@.len(),
            cb@ == old(cb)@ + ser_fields(base@, fields@.subrange(0, i as int), indent@),
        decreases fields@.len() - i,
    {
        let f = &fields[i];
        proof {
            crate::meta_spec::lemma_fields_ok_at(fields@, i as int);
            assert(fields@.subrange(0, i + 1).drop_last() =~= fields@.subrange(0, i as int));
            assert(fields@.subrange(0, i + 1).last() == *f);
        }
        if !f.skip {
            let fv = cat3(base, ".", f.name.as_str());
            let ghost before = cb@;
            generate_request_serialize_js(cb, fv.as_str(), f.ty.as_str(), indent, &f.structure);
            assert(cb@ =~= before + ser(base@ + "."@ + f.name@, f.ty@, indent@, f.structure));
        }
        i = i + 1;
    }
    assert(fields@.subrange(0, fields@.len() as int) =~= fields@);
}

fn push_data_serialize(cb: &mut CodeBuf, ind: &str, ps: &Vec<ParamMeta>)
    requires
        forall|j: int| 0 <= j < ps@.len() ==> #[trigger] param_ok(ps@[j]),
    ensures
        final(cb)@ == old(cb)@ + data_serialize(ind@, with_extractor(ps@, "Data"@)),
{
    let mut i: usize = 0;
    let mut k: usize = 0;
    while i < ps.len()
        invariant
            forall|j: int| 0 <= j < ps@.len() ==> #[trigger] param_ok(ps@[j]),
            i <= ps@.len(),
            k == with_extractor(ps@.subrange(0, i as int), "Data"@).len(),
            cb@ == old(cb)@ + data_serialize(ind@, with_extractor(ps@.subrange(0, i as int), "Data"@)),
        decreases ps@.len() - i,
    {
        let p = &ps[i];
        proof {
            lemma_with_extractor_step(ps@, i as int, "Data"@);
            assert(param_ok(ps@[i as int]));
        }
        if str_eq(p.extractor.as_str(), "Data") {
            let var = data_var_name(k);
            generate_request_serialize_js(cb, var.as_str(), p.ty.as_str(), ind, &p.structure);
            proof {
                let pre = with_extractor(ps@.subrange(0, i as int), "Data"@);
                assert(pre.push(*p).drop_last() =~= pre);
                assert(cb@ =~= old(cb)@ + data_serialize(ind@, pre.push(*p)));
            }
            k = k + 1;
        }
        i = i + 1;
    }
    assert(ps@.subrange(0, ps@.len() as int) =~= ps@);
}

/// Returns the expression naming the current request in a cache entry.
pub fn js_request_text(vars: &Vec<String>) -> (r: String)
    ensures
        r@ == js_request_expr(views(vars@)),
{
    if vars.len() == 0 {
        owned("\"[]\"")
    } else {
        let j = join(vars, ", ");
        cat3("JSON.stringify([", j.as_str(), "])")
    }
}

fn push_cache_lookup(cb: &mut CodeBuf, ind: &str, cache_key: &str, req: &str, class_name: &str)
    ensures
        final(cb)@ == old(cb)@ + js_cache_lookup(ind@, cache_key@, req@, class_name@),
{
    let ghost start = cb@;
    cb.push(cat4(ind, "const _cacheKey = \"", cache_key, "\";"));
    cb.push(cat4(ind, "const _currentReq = ", req, ";"));
    cb.push(cat2(ind, "if (!force) {"));
    cb.push(cat4(ind, "    const _cached = ", class_name, "Client._cache.get(_cacheKey);"));
    cb.push(cat2(ind, "    if (_cached && Date.now() < _cached.expiry && _currentReq === _cached.request) return _cached.response;"));
    cb.push(cat2(ind, "}"));
    assert(cb@ =~= start + js_cache_lookup(ind@, cache_key@, req@, class_name@));
}

fn debug_out_text(ind: &str, func_name: &str, vars: &Vec<String>) -> (r: String)
    ensures
        r@ == js_debug_out(ind@, func_name@, views(vars@)),
{
    if vars.len() == 0 {
        cat4(ind, "if (this._debug) console.log('[afast:debug] \u{2192} ", func_name, "');")
    } else if vars.len() == 1 {
        cat6(ind, "if (this._debug) console.log('[afast:debug] \u{2192} ", func_name, "', JSON.stringify(", vars[0].as_str(), "));")
    } else {
        let j = join(vars, ", ");
        cat6(ind, "if (this._debug) console.log('[afast:debug] \u{2192} ", func_name, "', JSON.stringify([", j.as_str(), "]));")
    }
}

fn push_method_tail(cb: &mut CodeBuf, ind: &str, meta: &HandlerMeta, class_name: &str, debug: bool)
    requires
        handler_meta_ok(*meta),
        meta.cache_seconds <= 18446744073709551u64,
    ensures
        final(cb)@ == old(cb)@ + js_method_tail(ind@, *meta, class_name@, debug),
{
    let ghost start = cb@;
    let fname = js_func_name_of(meta);
    if meta.long_connection {
        cb.push(cat2(ind, "const r=this._reader(_resp);"));
        cb.push(cat2(ind, "const connId=r.rU32();"));
        cb.push(cat2(ind, "const socket=new Socket(connId,this,callback);"));
        cb.push(cat2(ind, "this._pushHandlers.set(connId,(raw)=>socket._onMessage(raw));"));
        cb.push(cat2(ind, "return socket;"));
    } else if meta.cache_seconds > 0 {
        cb.push(cat2(ind, "const r=this._reader(_resp);"));
        generate_return_js(cb, "r", meta.return_type.as_str(), ind, &meta.return_structure, false, debug, fname);
        let ms: u64 = meta.cache_seconds * 1000;
        let t = dec_u64(ms);
        cb.push(cat5(ind, class_name, "Client._cache.set(_cacheKey, { request: _currentReq, response: _result, expiry: Date.now() + ", t.as_str(), " });"));
        if debug {
            cb.push(cat4(ind, "if (this._debug) console.log('[afast:debug] \u{2190} ", fname, "', JSON.stringify(_result));"));
        }
        cb.push(cat2(ind, "return _result;"));
    } else {
        cb.push(cat2(ind, "const r=this._reader(_resp);"));
        generate_return_js(cb, "r", meta.return_type.as_str(), ind, &meta.return_structure, true, debug, fname);
    }
    assert(cb@ =~= start + js_method_tail(ind@, *meta, class_name@, debug));
}

fn js_params_of(meta: &HandlerMeta) -> (r: Vec<String>)
    ensures
        views(r@) == js_params(*meta),
{
    let n = count_extractor(&meta.params, "Data");
    let mut r = data_var_list(n);
    let ghost a = views(r@);
    if meta.long_connection {
        r.push(owned("callback"));
    }
    let ghost b = views(r@);
    assert(b =~= if meta.long_connection { a.push("callback"@) } else { a });
    if meta.cache_seconds > 0 {
        r.push(owned("force = false"));
    }
    assert(views(r@) =~= js_params(*meta));
    r
}

/// Generates the JavaScript method that calls a binary-protocol handler:
/// it checks the cache, fetches and validates Custom values, validates the
/// request, serialises everything, performs the call and decodes the
/// response (or opens the long connection).
pub fn handler_method_js(
    handler: &Handler,
    all_handlers: &Vec<Handler>,
    prefix: &str,
    base_indent: &str,
    debug: bool,
    class_name: &str,
    cache_key: &str,
) -> (r: String)
    requires
        handler_meta_ok(handler.meta),
        handler.meta.cache_seconds <= 18446744073709551u64,
    ensures
        r@ == js_method_text(*handler, all_handlers@, base_indent@, debug, class_name@, cache_key@),
{
    let meta = &handler.meta;
    let fname = js_func_name_of(meta);
    let indent = cat2(base_indent, "    ");
    let ind = cat2(indent.as_str(), "    ");
    let params = js_params_of(meta);
    let params_str = join(&params, ", ");
    let n = count_extractor(&meta.params, "Data");
    let vars = data_var_list(n);
    let mut body = CodeBuf::new();
    if meta.cache_seconds > 0 {
        let req = js_request_text(&vars);
        push_cache_lookup(&mut body, ind.as_str(), cache_key, req.as_str(), class_name);
    }
    body.push(cat2(ind.as_str(), "const w=this._writer();"));
    if debug {
        body.push(debug_out_text(ind.as_str(), fname, &vars));
    }
    let ghost b1 = body@;
    push_custom_fetch(&mut body, ind.as_str(), all_handlers, &meta.params);
    push_custom_validation(&mut body, ind.as_str(), all_handlers, &meta.params);
    push_data_validation(&mut body, ind.as_str(), &meta.params);
    push_custom_serialize(&mut body, ind.as_str(), all_handlers, &meta.params);
    push_data_serialize(&mut body, ind.as_str(), &meta.params);
    let ghost b2 = body@;
    body.push(cat2(ind.as_str(), "const _data=w.toBytes();"));
    let id = dec_u64(handler.stable_id as u64);
    body.push(cat4(ind.as_str(), "const _resp=await this._call(", id.as_str(), ", _data);"));
    push_method_tail(&mut body, ind.as_str(), meta, class_name, debug);
    assert(body@ =~= js_method_body(*handler, all_handlers@, ind@, debug, class_name@, cache_key@));
    let b = body.build();
    let head = cat6(indent.as_str(), fname, ":async(", params_str.as_str(), ")=>{\n", b.as_str());
    cat4(head.as_str(), "\n", indent.as_str(), "},\n")
}

} // verus!
