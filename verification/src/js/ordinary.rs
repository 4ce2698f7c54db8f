//! JavaScript client methods for ordinary JSON-over-HTTP handlers.

use vstd::prelude::*;
use crate::buf::{build_lines, CodeBuf};
use crate::cs::ordinary::{find_last, full_path, full_path_text, http_method, last_with};
use crate::js::methods::{js_func_name, js_func_name_of};
use crate::model::{FieldMeta, Handler, HandlerMeta, ParamMeta, TagKind, TagMeta};
use crate::text::{cat2, cat3, cat4, cat5, cat6, cat7, dec_nat, dec_u64, is_empty, str_eq, views};

verus! {

/// Whether the method takes a request object: some `Param`, `Query` or
/// `Body` parameter exists.
pub open spec fn takes_request(meta: HandlerMeta) -> bool {
    let ps = meta.params@;
    last_with(ps, "Param"@) is Some || last_with(ps, "Query"@) is Some || last_with(ps, "Body"@) is Some
}

/// The method's head: its name and the async arrow function's parameters.
pub open spec fn ordinary_sig(meta: HandlerMeta) -> Seq<char> {
    let args = if meta.cache_seconds > 0 {
        if takes_request(meta) {
            ":async(request, force = false)=>"@
        } else {
            ":async(force = false)=>"@
        }
    } else if takes_request(meta) {
        ":async(request)=>"@
    } else {
        ":async()=>"@
    };
    js_func_name(meta) + args
}

/// The statements substituting the path parameters into `url`.
pub open spec fn path_lines(ind: Seq<char>, p: Option<ParamMeta>) -> Seq<Seq<char>> {
    match p {
        Some(q) => match q.structure {
            Some(s) => match s.kind {
                TagKind::Struct(fs) => path_field_lines(ind, fs@),
                TagKind::Enum(_) => seq![
                    ind + "url = url.replace(/:([^/]+)/, () => encodeURIComponent(String(request.params)));"@,
                ],
            },
            None => Seq::empty(),
        },
        None => Seq::empty(),
    }
}

/// One substitution per included field of the path parameters.
pub open spec fn path_field_lines(ind: Seq<char>, fs: Seq<FieldMeta>) -> Seq<Seq<char>>
    decreases fs.len(),
{
    if fs.len() == 0 {
        Seq::empty()
    } else {
        let rest = path_field_lines(ind, fs.drop_last());
        let f = fs.last();
        if f.skip {
            rest
        } else {
            rest.push(
                ind + "url = url.replace(':' + '"@ + f.name@ + "', encodeURIComponent(String(request.params."@
                    + f.name@ + ")));"@,
            )
        }
    }
}

/// One query addition per included field of the query parameters.
pub open spec fn query_field_lines(ind: Seq<char>, fs: Seq<FieldMeta>) -> Seq<Seq<char>>
    decreases fs.len(),
{
    if fs.len() == 0 {
        Seq::empty()
    } else {
        let rest = query_field_lines(ind, fs.drop_last());
        let f = fs.last();
        if f.skip {
            rest
        } else {
            rest.push(
                ind + "if (request.queries."@ + f.name@ + " != null) qs.append('"@ + f.name@
                    + "', String(request.queries."@ + f.name@ + "));"@,
            )
        }
    }
}

/// The statements building the query string, when there is a `Query`
/// parameter.
pub open spec fn query_lines(ind: Seq<char>, p: Option<ParamMeta>) -> Seq<Seq<char>> {
    match p {
        Some(q) => seq![ind + "const qs = new URLSearchParams();"@] + match q.structure {
            Some(s) => match s.kind {
                TagKind::Struct(fs) => query_field_lines(ind, fs@),
                TagKind::Enum(_) => seq![
                    ind + "if (request.queries != null) qs.append('"@ + q.name@
                        + "', String(request.queries));"@,
                ],
            },
            None => Seq::empty(),
        } + seq![ind + "if (qs.toString()) url += '?' + qs.toString();"@],
        None => Seq::empty(),
    }
}

/// Whether the request carries options: a body, headers, or a method other
/// than `GET`.
pub open spec fn needs_opts(meta: HandlerMeta, header_count: nat) -> bool {
    let m = http_method(meta);
    let needs_body = last_with(meta.params@, "Body"@) is Some || m == "POST"@ || m == "PUT"@ || m
        == "PATCH"@ || m == "DELETE"@;
    needs_body || header_count > 0 || m != "GET"@
}

/// The cache lookup of a cached ordinary method.
pub open spec fn ordinary_cache_lines(ind: Seq<char>, cache_key: Seq<char>, has_body: bool, class_name: Seq<char>) -> Seq<Seq<char>> {
    seq![
        ind + "const _cacheKey = \""@ + cache_key + "\";"@,
        if has_body {
            ind + "const _currentReq = url + ':' + JSON.stringify(request.body);"@
        } else {
            ind + "const _currentReq = url;"@
        },
        ind + "if (!force) {"@,
        ind + "    const _cached = "@ + class_name + "Client._cache.get(_cacheKey);"@,
        ind + "    if (_cached && Date.now() < _cached.expiry && _currentReq === _cached.request) return _cached.response;"@,
        ind + "}"@,
    ]
}

/// The statements performing the request.
pub open spec fn fetch_lines(ind: Seq<char>, method: Seq<char>, has_body: bool, opts: bool) -> Seq<Seq<char>> {
    if opts {
        seq![
            ind + "const opts = { method: '"@ + method + "' };"@,
            ind + "const hdrs = {};"@,
            ind + "for (const fn of this._headers) {"@,
            ind + "    const val = await fn();"@,
            ind + "    if (val && typeof val === 'object') {"@,
            ind + "        for (const [k, v] of Object.entries(val)) {"@,
            ind + "            if (v != null) hdrs[k] = String(v);"@,
            ind + "        }"@,
            ind + "    }"@,
            ind + "}"@,
        ] + (if has_body {
            seq![ind + "hdrs['Content-Type'] = 'application/json';"@]
        } else {
            Seq::empty()
        }) + seq![ind + "opts.headers = hdrs;"@] + (if has_body {
            seq![ind + "opts.body = JSON.stringify(request.body);"@]
        } else {
            Seq::empty()
        }) + seq![ind + "const data = await this._request(url, opts);"@]
    } else {
        seq![ind + "const data = await this._request(url, { method: '"@ + method + "' });"@]
    }
}

/// The body of an ordinary method, before the request is sent.
pub open spec fn ordinary_js_head(
    h: Handler,
    group_path: Seq<Seq<char>>,
    ind: Seq<char>,
    debug: bool,
    class_name: Seq<char>,
    cache_key: Seq<char>,
) -> Seq<Seq<char>> {
    let meta = h.meta;
    let ps = meta.params@;
    let fname = js_func_name(meta);
    let cache = if meta.cache_seconds > 0 {
        ordinary_cache_lines(ind, cache_key, last_with(ps, "Body"@) is Some, class_name)
    } else {
        Seq::empty()
    };
    let dbg = if debug {
        if takes_request(meta) {
            seq![ind + "if (this._debug) console.log('[afast:debug] \u{2192} "@ + fname + "', JSON.stringify(request));"@]
        } else {
            seq![ind + "if (this._debug) console.log('[afast:debug] \u{2192} "@ + fname + "');"@]
        }
    } else {
        Seq::empty()
    };
    seq![ind + "let url = this._url + '"@ + full_path(group_path, h.path@) + "';"@] + path_lines(
        ind,
        last_with(ps, "Param"@),
    ) + query_lines(ind, last_with(ps, "Query"@)) + cache + dbg
}

/// The body of an ordinary method from the request on.
pub open spec fn ordinary_js_tail(
    h: Handler,
    ind: Seq<char>,
    header_count: nat,
    debug: bool,
    class_name: Seq<char>,
) -> Seq<Seq<char>> {
    let meta = h.meta;
    let fname = js_func_name(meta);
    let store = if meta.cache_seconds > 0 {
        seq![
            ind + class_name
                + "Client._cache.set(_cacheKey, { request: _currentReq, response: data, expiry: Date.now() + "@
                + dec_nat((meta.cache_seconds * 1000) as nat) + " });"@,
        ]
    } else {
        Seq::empty()
    };
    let dbg = if debug {
        seq![ind + "if (this._debug) console.log('[afast:debug] \u{2190} "@ + fname + "', JSON.stringify(data));"@]
    } else {
        Seq::empty()
    };
    let ret = if meta.return_type@ != "()"@ {
        seq![ind + "return data;"@]
    } else {
        Seq::empty()
    };
    fetch_lines(ind, http_method(meta), last_with(meta.params@, "Body"@) is Some, needs_opts(meta, header_count))
        + store + dbg + ret
}

/// The complete JavaScript method calling the ordinary handler `h`.
pub open spec fn ordinary_js_text(
    h: Handler,
    group_path: Seq<Seq<char>>,
    base_indent: Seq<char>,
    header_count: nat,
    debug: bool,
    class_name: Seq<char>,
    cache_key: Seq<char>,
) -> Seq<char> {
    let indent = base_indent + "    "@;
    let ind = indent + "    "@;
    indent + ordinary_sig(h.meta) + " {\n"@ + build_lines(
        ordinary_js_head(h, group_path, ind, debug, class_name, cache_key) + ordinary_js_tail(
            h,
            ind,
            header_count,
            debug,
            class_name,
        ),
    ) + "\n"@ + indent + "},"@
}

fn push_path_lines(cb: &mut CodeBuf, ind: &str, p: Option<&ParamMeta>)
    ensures
        final(cb)@ == old(cb)@ + path_lines(ind@, match p {
            Some(q) => Some(*q),
            None => None,
        }),
{
    match p {
        Some(q) => match &q.structure {
            Some(s) => match &s.kind {
                TagKind::Struct(fs) => {
                    let mut i: usize = 0;
                    while i < fs.len()
                        invariant
                            i <= fs@.len(),
                            cb@ == old(cb)@ + path_field_lines(ind@, fs@.subrange(0, i as int)),
                        decreases fs@.len() - i,
                    {
                        let f = &fs[i];
                        proof {
                            assert(fs@.subrange(0, i + 1).drop_last() =~= fs@.subrange(0, i as int));
                            assert(fs@.subrange(0, i + 1).last() == *f);
                        }
                        if !f.skip {
                            let n = f.name.as_str();
                            let line = cat5(ind, "url = url.replace(':' + '", n, "', encodeURIComponent(String(request.params.", cat2(n, ")));").as_str());
                            assert(line@ =~= ind@ + "url = url.replace(':' + '"@ + f.name@
                                + "', encodeURIComponent(String(request.params."@ + f.name@ + ")));"@);
                            cb.push(line);
                        }
                        i = i + 1;
                    }
                    assert(fs@.subrange(0, fs@.len() as int) =~= fs@);
                },
                TagKind::Enum(_) => {
                    cb.push(cat2(ind, "url = url.replace(/:([^/]+)/, () => encodeURIComponent(String(request.params)));"));
                },
            },
            None => {
                assert(cb@ =~= old(cb)@ + Seq::<Seq<char>>::empty());
            },
        },
        None => {
            assert(cb@ =~= old(cb)@ + Seq::<Seq<char>>::empty());
        },
    }
}

fn push_query_lines(cb: &mut CodeBuf, ind: &str, p: Option<&ParamMeta>)
    ensures
        final(cb)@ == old(cb)@ + query_lines(ind@, match p {
            Some(q) => Some(*q),
            None => None,
        }),
{
    match p {
        Some(q) => {
            let ghost start = cb@;
            cb.push(cat2(ind, "const qs = new URLSearchParams();"));
            let ghost mid = cb@;
            match &q.structure {
                Some(s) => match &s.kind {
                    TagKind::Struct(fs) => {
                        let mut i: usize = 0;
                        while i < fs.len()
                            invariant
                                i <= fs@.len(),
                                cb@ == mid + query_field_lines(ind@, fs@.subrange(0, i as int)),
                            decreases fs@.len() - i,
                        {
                            let f = &fs[i];
                            proof {
                                assert(fs@.subrange(0, i + 1).drop_last() =~= fs@.subrange(0, i as int));
                                assert(fs@.subrange(0, i + 1).last() == *f);
                            }
                            if !f.skip {
                                let n = f.name.as_str();
                                let a = cat5(ind, "if (request.queries.", n, " != null) qs.append('", n);
                                let line = cat4(a.as_str(), "', String(request.queries.", n, "));");
                                assert(line@ =~= ind@ + "if (request.queries."@ + f.name@ + " != null) qs.append('"@
                                    + f.name@ + "', String(request.queries."@ + f.name@ + "));"@);
                                cb.push(line);
                            }
                            i = i + 1;
                        }
                        assert(fs@.subrange(0, fs@.len() as int) =~= fs@);
                    },
                    TagKind::Enum(_) => {
                        cb.push(cat4(ind, "if (request.queries != null) qs.append('", q.name.as_str(), "', String(request.queries));"));
                    },
                },
                None => {},
            }
            let ghost mid2 = cb@;
            cb.push(cat2(ind, "if (qs.toString()) url += '?' + qs.toString();"));
            assert(cb@ =~= start + query_lines(ind@, Some(*q)));
        },
        None => {
            assert(cb@ =~= old(cb)@ + Seq::<Seq<char>>::empty());
        },
    }
}

fn push_fetch_lines(cb: &mut CodeBuf, ind: &str, method: &str, has_body: bool, opts: bool)
    ensures
        final(cb)@ == old(cb)@ + fetch_lines(ind@, method@, has_body, opts),
{
    let ghost start = cb@;
    if opts {
        cb.push(cat4(ind, "const opts = { method: '", method, "' };"));
        cb.push(cat2(ind, "const hdrs = {};"));
        cb.push(cat2(ind, "for (const fn of this._headers) {"));
        cb.push(cat2(ind, "    const val = await fn();"));
        cb.push(cat2(ind, "    if (val && typeof val === 'object') {"));
        cb.push(cat2(ind, "        for (const [k, v] of Object.entries(val)) {"));
        cb.push(cat2(ind, "            if (v != null) hdrs[k] = String(v);"));
        cb.push(cat2(ind, "        }"));
        cb.push(cat2(ind, "    }"));
        cb.push(cat2(ind, "}"));
        if has_body {
            cb.push(cat2(ind, "hdrs['Content-Type'] = 'application/json';"));
        }
        cb.push(cat2(ind, "opts.headers = hdrs;"));
        if has_body {
            cb.push(cat2(ind, "opts.body = JSON.stringify(request.body);"));
        }
        cb.push(cat2(ind, "const data = await this._request(url, opts);"));
    } else {
        cb.push(cat4(ind, "const data = await this._request(url, { method: '", method, "' });"));
    }
    assert(cb@ =~= start + fetch_lines(ind@, method@, has_body, opts));
}

fn push_ordinary_cache(cb: &mut CodeBuf, ind: &str, cache_key: &str, has_body: bool, class_name: &str)
    ensures
        final(cb)@ == old(cb)@ + ordinary_cache_lines(ind@, cache_key@, has_body, class_name@),
{
    let ghost start = cb@;
    cb.push(cat4(ind, "const _cacheKey = \"", cache_key, "\";"));
    if has_body {
        cb.push(cat2(ind, "const _currentReq = url + ':' + JSON.stringify(request.body);"));
    } else {
        cb.push(cat2(ind, "const _currentReq = url;"));
    }
    cb.push(cat2(ind, "if (!force) {"));
    cb.push(cat4(ind, "    const _cached = ", class_name, "Client._cache.get(_cacheKey);"));
    cb.push(cat2(ind, "    if (_cached && Date.now() < _cached.expiry && _currentReq === _cached.request) return _cached.response;"));
    cb.push(cat2(ind, "}"));
    assert(cb@ =~= start + ordinary_cache_lines(ind@, cache_key@, has_body, class_name@));
}

fn push_ordinary_js_head(
    body: &mut CodeBuf,
    handler: &Handler,
    group_path: &Vec<String>,
    ind: &str,
    debug: bool,
    class_name: &str,
    cache_key: &str,
)
    ensures
        final(body)@ == old(body)@ + ordinary_js_head(*handler, views(group_path@), ind@, debug, class_name@, cache_key@),
{
    let meta = &handler.meta;
    let ps = &meta.params;
    let fname = js_func_name_of(meta);
    let pp = find_last(ps, "Param");
    let qp = find_last(ps, "Query");
    let bp = find_last(ps, "Body");
    let has_request = pp.is_some() || qp.is_some() || bp.is_some();
    let ghost start = body@;
    let fp = full_path_text(group_path, handler.path.as_str());
    body.push(cat4(ind, "let url = this._url + '", fp.as_str(), "';"));
    push_path_lines(body, ind, pp);
    push_query_lines(body, ind, qp);
    let ghost s1 = body@;
    if meta.cache_seconds > 0 {
        push_ordinary_cache(body, ind, cache_key, bp.is_some(), class_name);
    }
    if debug {
        if has_request {
            body.push(cat4(ind, "if (this._debug) console.log('[afast:debug] \u{2192} ", fname, "', JSON.stringify(request));"));
        } else {
            body.push(cat4(ind, "if (this._debug) console.log('[afast:debug] \u{2192} ", fname, "');"));
        }
    }
    assert(body@ =~= start + ordinary_js_head(*handler, views(group_path@), ind@, debug, class_name@, cache_key@));
}

#[verifier::rlimit(30)]
fn push_ordinary_js_tail(
    body: &mut CodeBuf,
    handler: &Handler,
    ind: &str,
    header_count: usize,
    debug: bool,
    class_name: &str,
)
    requires
        handler.meta.cache_seconds <= 18446744073709551u64,
    ensures
        final(body)@ == old(body)@ + ordinary_js_tail(*handler, ind@, header_count as nat, debug, class_name@),
{
    let meta = &handler.meta;
    let fname = js_func_name_of(meta);
    let method: &str = if is_empty(meta.method.as_str()) {
        "GET"
    } else {
        meta.method.as_str()
    };
    let has_body = find_last(&meta.params, "Body").is_some();
    let needs_body = has_body || str_eq(method, "POST") || str_eq(method, "PUT") || str_eq(method, "PATCH")
        || str_eq(method, "DELETE");
    let opts = needs_body || header_count > 0 || !str_eq(method, "GET");
    let ghost start = body@;
    push_fetch_lines(body, ind, method, has_body, opts);
    let ghost s1 = body@;
    if meta.cache_seconds > 0 {
        let ms: u64 = meta.cache_seconds * 1000;
        let t = dec_u64(ms);
        body.push(cat5(ind, class_name, "Client._cache.set(_cacheKey, { request: _currentReq, response: data, expiry: Date.now() + ", t.as_str(), " });"));
    }
    if debug {
        body.push(cat4(ind, "if (this._debug) console.log('[afast:debug] \u{2190} ", fname, "', JSON.stringify(data));"));
    }
    if !str_eq(meta.return_type.as_str(), "()") {
        body.push(cat2(ind, "return data;"));
    }
    assert(body@ =~= start + ordinary_js_tail(*handler, ind@, header_count as nat, debug, class_name@));
}

fn ordinary_sig_text(meta: &HandlerMeta) -> (r: String)
    ensures
        r@ == ordinary_sig(*meta),
{
    let ps = &meta.params;
    let has_request = find_last(ps, "Param").is_some() || find_last(ps, "Query").is_some() || find_last(
        ps,
        "Body",
    ).is_some();
    let args = if meta.cache_seconds > 0 {
        if has_request {
            ":async(request, force = false)=>"
        } else {
            ":async(force = false)=>"
        }
    } else if has_request {
        ":async(request)=>"
    } else {
        ":async()=>"
    };
    cat2(js_func_name_of(meta), args)
}

/// Generates the JavaScript method for an ordinary JSON-over-HTTP handler:
/// it builds the URL with path parameters and query string, checks the
/// cache, merges the global headers, sends the JSON body and returns the
/// parsed response.
pub fn ordinary_handler_method_js(
    handler: &Handler,
    prefix: &str,
    group_path: &Vec<String>,
    base_indent: &str,
    header_count: usize,
    debug: bool,
    class_name: &str,
    cache_key: &str,
) -> (r: String)
    requires
        handler.meta.cache_seconds <= 18446744073709551u64,
    ensures
        r@ == ordinary_js_text(*handler, views(group_path@), base_indent@, header_count as nat, debug, class_name@, cache_key@),
{
    let indent = cat2(base_indent, "    ");
    let ind = cat2(indent.as_str(), "    ");
    let sig = ordinary_sig_text(&handler.meta);
    let mut body = CodeBuf::new();
    push_ordinary_js_head(&mut body, handler, group_path, ind.as_str(), debug, class_name, cache_key);
    push_ordinary_js_tail(&mut body, handler, ind.as_str(), header_count, debug, class_name);
    let b = body.build();
    cat7(indent.as_str(), sig.as_str(), " {\n", b.as_str(), "\n", indent.as_str(), "},")
}

} // verus!
