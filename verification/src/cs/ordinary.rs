//! C# client methods for ordinary JSON-over-HTTP handlers.

use vstd::prelude::*;
use crate::buf::{build_lines, CodeBuf};
use crate::cs::methods::{
    cache_lookup, cache_request_expr, cache_store, cache_store_text, doc_prefix, doc_prefix_text,
    method_name, push_cache_lookup,
};
use crate::meta_spec::{handler_meta_ok, param_ok};
use crate::model::{FieldMeta, Handler, HandlerMeta, ParamMeta, TagKind, TagMeta};
use crate::naming::{pascal, to_pascal_case};
use crate::params::{lemma_with_extractor_step, with_extractor};
use crate::text::{cat2, cat3, cat4, cat5, cat6, dec_u64, is_empty, join, join_seq, owned, starts_with, str_eq, views};
use crate::typemap::{cs_type, json_inner, normalize, normalize_rust_type, rust_type_to_cs, type_ok, unwrap_json_type};

verus! {

/// The last parameter with extractor `e`, if any.
pub open spec fn last_with(ps: Seq<ParamMeta>, e: Seq<char>) -> Option<ParamMeta> {
    let s = with_extractor(ps, e);
    if s.len() == 0 {
        None
    } else {
        Some(s.last())
    }
}

/// The HTTP method, `GET` when none is given.
pub open spec fn http_method(meta: HandlerMeta) -> Seq<char> {
    if meta.method@.len() == 0 {
        "GET"@
    } else {
        meta.method@
    }
}

/// The C# type of an ordinary parameter: the generated type when it has a
/// structure, else the mapped Rust type.
pub open spec fn arg_type(prefix: Seq<char>, p: ParamMeta, suffix: Seq<char>) -> Seq<char> {
    if p.structure is Some {
        prefix + suffix
    } else {
        cs_type(p.ty@)
    }
}

/// The C# type an ordinary handler's response is deserialised as.
pub open spec fn ordinary_return(prefix: Seq<char>, meta: HandlerMeta) -> Seq<char> {
    if meta.return_structure is Some {
        prefix + "Response"@
    } else {
        match json_inner(meta.return_type@) {
            Some(inner) => cs_type(inner),
            None => {
                let n = normalize(meta.return_type@);
                if n == "()"@ || n == "Status"@ || n == "Redirect"@ {
                    "void"@
                } else if n == "Text"@ || n == "Html"@ {
                    "string"@
                } else if n == "File"@ {
                    "byte[]"@
                } else if n.len() > 0 {
                    cs_type(n)
                } else {
                    "void"@
                }
            },
        }
    }
}

/// The response type of an ordinary handler can be mapped.
pub open spec fn ordinary_return_ok(meta: HandlerMeta) -> bool {
    meta.return_structure is None ==> match json_inner(meta.return_type@) {
        Some(inner) => type_ok(inner),
        None => type_ok(normalize(meta.return_type@)),
    }
}

/// The declared parameters of an ordinary handler's method.
pub open spec fn ordinary_params(prefix: Seq<char>, meta: HandlerMeta) -> Seq<Seq<char>> {
    let ps = meta.params@;
    let a = match last_with(ps, "Param"@) {
        Some(p) => seq![arg_type(prefix, p, "PathParams"@) + " @params"@],
        None => Seq::empty(),
    };
    let b = match last_with(ps, "Query"@) {
        Some(p) => a.push(arg_type(prefix, p, "Query"@) + " query"@),
        None => a,
    };
    let c = match last_with(ps, "Body"@) {
        Some(p) => b.push(arg_type(prefix, p, "Body"@) + " body"@),
        None => b,
    };
    if meta.cache_seconds > 0 {
        c.push("bool force = false"@)
    } else {
        c
    }
}

/// The request variables a cache entry is keyed on.
pub open spec fn ordinary_cache_keys(meta: HandlerMeta) -> Seq<Seq<char>> {
    let ps = meta.params@;
    let a = if last_with(ps, "Param"@) is Some {
        seq!["params"@]
    } else {
        Seq::empty()
    };
    let b = if last_with(ps, "Query"@) is Some {
        a.push("query"@)
    } else {
        a
    };
    if last_with(ps, "Body"@) is Some {
        b.push("body"@)
    } else {
        b
    }
}

/// The URL path of an ordinary handler below its group path.
pub open spec fn full_path(group_path: Seq<Seq<char>>, path: Seq<char>) -> Seq<char> {
    let gp = join_seq(group_path, "/"@);
    let np = if path.len() > 0 && path[0] != '/' {
        "/"@ + path
    } else {
        path
    };
    if gp.len() == 0 {
        np
    } else {
        "/"@ + gp + np
    }
}

/// The fields of a parameter's structure, when it is a struct.
pub open spec fn param_struct_fields(p: Option<ParamMeta>) -> Seq<FieldMeta> {
    match p {
        Some(q) => match q.structure {
            Some(s) => match s.kind {
                TagKind::Struct(fs) => fs@,
                TagKind::Enum(_) => Seq::empty(),
            },
            None => Seq::empty(),
        },
        None => Seq::empty(),
    }
}

/// The substitutions of the path parameters into the URL.
pub open spec fn path_substitutions(ind: Seq<char>, fs: Seq<FieldMeta>) -> Seq<Seq<char>>
    decreases fs.len(),
{
    if fs.len() == 0 {
        Seq::empty()
    } else {
        let rest = path_substitutions(ind, fs.drop_last());
        let f = fs.last();
        if f.skip {
            rest
        } else {
            rest.push(
                ind + "url = url.Replace(\":"@ + f.name@ + "\", Uri.EscapeDataString(@params."@ + pascal(
                    f.name@,
                ) + ".ToString()));"@,
            )
        }
    }
}

/// The additions of the set query fields to the query string.
pub open spec fn query_additions(ind: Seq<char>, fs: Seq<FieldMeta>) -> Seq<Seq<char>>
    decreases fs.len(),
{
    if fs.len() == 0 {
        Seq::empty()
    } else {
        let rest = query_additions(ind, fs.drop_last());
        let f = fs.last();
        if f.skip {
            rest
        } else {
            rest.push(
                ind + "    if (query."@ + pascal(f.name@) + " != default) qs.Add(Uri.EscapeDataString(\""@
                    + f.name@ + "=\") + Uri.EscapeDataString(query."@ + pascal(f.name@)
                    + ".ToString()!));"@,
            )
        }
    }
}

/// The body of an ordinary handler's method.
pub open spec fn ordinary_body(
    h: Handler,
    prefix: Seq<char>,
    group_path: Seq<Seq<char>>,
    ind: Seq<char>,
    debug: bool,
    class_name: Seq<char>,
    cache_key: Seq<char>,
) -> Seq<Seq<char>> {
    ordinary_body_head(h, prefix, group_path, ind, debug, cache_key) + ordinary_body_tail(
        h,
        prefix,
        ind,
        debug,
        class_name,
    )
}

/// The block that builds an ordinary handler's query string, present when
/// the handler takes a `Query` parameter.
pub open spec fn ordinary_query_block(ind: Seq<char>, q: Option<ParamMeta>) -> Seq<Seq<char>> {
    if q is Some {
        seq![ind + "{"@, ind + "    var qs = new List<string>();"@] + query_additions(
            ind,
            param_struct_fields(q),
        ) + seq![
            ind + "    if (qs.Count > 0) url += \"?\" + string.Join(\"&\", qs);"@,
            ind + "}"@,
        ]
    } else {
        Seq::empty()
    }
}

/// The lines that create an ordinary handler's HTTP request: method,
/// accept header, JSON body when there is one, and the outgoing debug line.
pub open spec fn ordinary_request_lines(
    ind: Seq<char>,
    method: Seq<char>,
    has_body: bool,
    debug: bool,
) -> Seq<Seq<char>> {
    let request = seq![
        ind + "var request = new HttpRequestMessage(new HttpMethod(\""@ + method + "\"), url);"@,
        ind + "request.Headers.Add(\"Accept\", \"application/json\");"@,
    ];
    let content = if has_body {
        seq![
            ind + "request.Content = new StringContent(JsonSerializer.Serialize(body), Encoding.UTF8, \"application/json\");"@,
        ]
    } else {
        Seq::empty()
    };
    let dbg_out = if debug {
        seq![ind + "if (_client._debug) Console.WriteLine(\"[afast:debug] \u{2192} "@ + method + " {url}\");"@]
    } else {
        Seq::empty()
    };
    request + content + dbg_out
}

/// The first part of an ordinary handler's method body: the cache lookup,
/// the URL and the request.
pub open spec fn ordinary_body_head(
    h: Handler,
    prefix: Seq<char>,
    group_path: Seq<Seq<char>>,
    ind: Seq<char>,
    debug: bool,
    cache_key: Seq<char>,
) -> Seq<Seq<char>> {
    head_cache(h.meta, prefix, ind, cache_key) + head_request(h, group_path, ind, debug)
}

/// The cache lookup that starts the body of a cached ordinary method.
pub open spec fn head_cache(meta: HandlerMeta, prefix: Seq<char>, ind: Seq<char>, cache_key: Seq<char>) -> Seq<
    Seq<char>,
> {
    let ret = ordinary_return(prefix, meta);
    let void = ret == "void"@;
    if meta.cache_seconds > 0 {
        cache_lookup(ind, cache_key, cache_request_expr(ordinary_cache_keys(meta)), void, ret)
    } else {
        Seq::empty()
    }
}

/// The statements building the HTTP request of an ordinary method: its URL
/// with the path parameters substituted, its query string, and the
/// request itself.
pub open spec fn head_request(h: Handler, group_path: Seq<Seq<char>>, ind: Seq<char>, debug: bool) -> Seq<
    Seq<char>,
> {
    let meta = h.meta;
    let ps = meta.params@;
    let url = seq![ind + "var url = _client._baseUrl + \""@ + full_path(group_path, h.path@) + "\";"@];
    let subst = path_substitutions(ind, param_struct_fields(last_with(ps, "Param"@)));
    let query = ordinary_query_block(ind, last_with(ps, "Query"@));
    let request = ordinary_request_lines(ind, http_method(meta), last_with(ps, "Body"@) is Some, debug);
    url + subst + query + request
}

/// The second part of an ordinary handler's method body: sending the
/// request and returning (and caching) its result.
pub open spec fn ordinary_body_tail(
    h: Handler,
    prefix: Seq<char>,
    ind: Seq<char>,
    debug: bool,
    class_name: Seq<char>,
) -> Seq<Seq<char>> {
    let meta = h.meta;
    let method = http_method(meta);
    let ret = ordinary_return(prefix, meta);
    let void = ret == "void"@;
    let ticks = (meta.cache_seconds * 10000000) as nat;
    let send = seq![
        ind + "var response = await _client._httpClient.SendAsync(request);"@,
        ind + "response.EnsureSuccessStatusCode();"@,
        ind + "var respBytes = await response.Content.ReadAsByteArrayAsync();"@,
    ];
    let dbg_in = if debug {
        seq![
            ind + "if (_client._debug) Console.WriteLine(\"[afast:debug] \u{2190} "@ + method
                + " {url} status={(int)response.StatusCode}\");"@,
        ]
    } else {
        Seq::empty()
    };
    let tail = if void {
        (if meta.cache_seconds > 0 {
            seq![cache_store(ind, class_name, ticks, "null"@)]
        } else {
            Seq::empty()
        }) + seq![ind + "return;"@]
    } else {
        seq![ind + "var result = JsonSerializer.Deserialize<"@ + ret + ">(respBytes)!;"@] + (if meta.cache_seconds
            > 0 {
            seq![cache_store(ind, class_name, ticks, "result"@)]
        } else {
            Seq::empty()
        }) + seq![ind + "return result;"@]
    };
    send + dbg_in + tail
}

/// A `<param>` line for an ordinary parameter with a described structure.
pub open spec fn ordinary_param_doc(indent: Seq<char>, p: Option<ParamMeta>, name: Seq<char>) -> Seq<Seq<char>> {
    match p {
        Some(q) => match q.structure {
            Some(s) => if s.desc@.len() > 0 {
                seq![indent + "/// <param name=\""@ + name + "\">"@ + s.desc@ + "</param>"@]
            } else {
                Seq::empty()
            },
            None => Seq::empty(),
        },
        None => Seq::empty(),
    }
}

/// The XML documentation of an ordinary handler's method.
pub open spec fn ordinary_docs(indent: Seq<char>, meta: HandlerMeta) -> Seq<Seq<char>> {
    let ps = meta.params@;
    let head = if meta.desc@.len() > 0 {
        seq![indent + "/// <summary>"@, indent + "/// "@ + meta.desc@, indent + "/// </summary>"@]
    } else {
        Seq::empty()
    };
    let ret = if meta.return_type@ != "()"@ {
        match meta.return_structure {
            Some(s) => if s.desc@.len() > 0 {
                seq![indent + "/// <returns>"@ + s.desc@ + "</returns>"@]
            } else {
                Seq::empty()
            },
            None => Seq::empty(),
        }
    } else {
        Seq::empty()
    };
    head + ordinary_param_doc(indent, last_with(ps, "Param"@), "params"@) + ordinary_param_doc(
        indent,
        last_with(ps, "Query"@),
        "query"@,
    ) + ordinary_param_doc(indent, last_with(ps, "Body"@), "body"@) + ret
}

/// The complete C# method calling an ordinary handler over HTTP.
pub open spec fn ordinary_text(
    h: Handler,
    prefix: Seq<char>,
    group_path: Seq<Seq<char>>,
    indent: Seq<char>,
    debug: bool,
    class_name: Seq<char>,
    cache_key: Seq<char>,
) -> Seq<char> {
    let ret = ordinary_return(prefix, h.meta);
    let async_ret = if ret == "void"@ {
        "async Task"@
    } else {
        "async Task<"@ + ret + ">"@
    };
    let body = build_lines(
        ordinary_body(h, prefix, group_path, indent + "    "@, debug, class_name, cache_key),
    );
    doc_prefix(ordinary_docs(indent, h.meta)) + indent + "public "@ + async_ret + " "@ + method_name(
        h.meta,
    ) + "("@ + join_seq(ordinary_params(prefix, h.meta), ", "@) + ")\n"@ + indent + "{\n"@ + body
        + "\n"@ + indent + "}"@
}

/// Finds the last parameter with extractor `e`.
pub fn find_last<'a>(ps: &'a Vec<ParamMeta>, e: &str) -> (r: Option<&'a ParamMeta>)
    ensures
        match r {
            Some(p) => last_with(ps@, e@) == Some(*p),
            None => last_with(ps@, e@) is None,
        },
        r matches Some(p) ==> exists|j: int| 0 <= j < ps@.len() && ps@[j] == *p,
{
    let mut found: Option<&'a ParamMeta> = None;
    let mut i: usize = 0;
    while i < ps.len()
        invariant
            i <= ps@.len(),
            match found {
                Some(p) => last_with(ps@.subrange(0, i as int), e@) == Some(*p),
                None => last_with(ps@.subrange(0, i as int), e@) is None,
            },
            found matches Some(p) ==> exists|j: int| 0 <= j < ps@.len() && ps@[j] == *p,
        decreases ps@.len() - i,
    {
        proof {
            lemma_with_extractor_step(ps@, i as int, e@);
        }
        if str_eq(ps[i].extractor.as_str(), e) {
            found = Some(&ps[i]);
        }
        i = i + 1;
    }
    assert(ps@.subrange(0, ps@.len() as int) =~= ps@);
    found
}


fn ordinary_return_cs(prefix: &str, meta: &HandlerMeta) -> (r: String)
    requires
        ordinary_return_ok(*meta),
    ensures
        r@ == ordinary_return(prefix@, *meta),
{
    if meta.return_structure.is_some() {
        return cat2(prefix, "Response");
    }
    match unwrap_json_type(meta.return_type.as_str()) {
        Some(inner) => rust_type_to_cs(inner.as_str()),
        None => {
            let n = normalize_rust_type(meta.return_type.as_str());
            let ns = n.as_str();
            if str_eq(ns, "()") || str_eq(ns, "Status") || str_eq(ns, "Redirect") {
                owned("void")
            } else if str_eq(ns, "Text") || str_eq(ns, "Html") {
                owned("string")
            } else if str_eq(ns, "File") {
                owned("byte[]")
            } else if !is_empty(ns) {
                rust_type_to_cs(ns)
            } else {
                owned("void")
            }
        },
    }
}

fn arg_type_cs(prefix: &str, p: &ParamMeta, suffix: &str) -> (r: String)
    requires
        param_ok(*p),
    ensures
        r@ == arg_type(prefix@, *p, suffix@),
{
    if p.structure.is_some() {
        cat2(prefix, suffix)
    } else {
        rust_type_to_cs(p.ty.as_str())
    }
}

/// A parameter of a well-formed handler is well formed.
pub proof fn lemma_param_ok(meta: HandlerMeta, p: ParamMeta)
    requires
        handler_meta_ok(meta),
        exists|j: int| 0 <= j < meta.params@.len() && meta.params@[j] == p,
    ensures
        param_ok(p),
{
    let j = choose|j: int| 0 <= j < meta.params@.len() && meta.params@[j] == p;
    assert(param_ok(meta.params@[j]));
}

fn ordinary_params_cs(prefix: &str, meta: &HandlerMeta) -> (r: Vec<String>)
    requires
        handler_meta_ok(*meta),
    ensures
        views(r@) == ordinary_params(prefix@, *meta),
{
    let ps = &meta.params;
    let mut r: Vec<String> = Vec::new();
    let ghost v0 = views(r@);
    match find_last(ps, "Param") {
        Some(p) => {
            proof {
                lemma_param_ok(*meta, *p);
            }
            let t = arg_type_cs(prefix, p, "PathParams");
            r.push(cat2(t.as_str(), " @params"));
        },
        None => {},
    }
    let ghost va = views(r@);
    match find_last(ps, "Query") {
        Some(p) => {
            proof {
                lemma_param_ok(*meta, *p);
            }
            let t = arg_type_cs(prefix, p, "Query");
            r.push(cat2(t.as_str(), " query"));
        },
        None => {},
    }
    let ghost vb = views(r@);
    match find_last(ps, "Body") {
        Some(p) => {
            proof {
                lemma_param_ok(*meta, *p);
            }
            let t = arg_type_cs(prefix, p, "Body");
            r.push(cat2(t.as_str(), " body"));
        },
        None => {},
    }
    let ghost vc = views(r@);
    if meta.cache_seconds > 0 {
        r.push(owned("bool force = false"));
    }
    proof {
        let a = match last_with(ps@, "Param"@) {
            Some(p) => seq![arg_type(prefix@, p, "PathParams"@) + " @params"@],
            None => Seq::empty(),
        };
        assert(va =~= a);
    }
    assert(views(r@) =~= ordinary_params(prefix@, *meta));
    r
}

fn ordinary_cache_keys_exec(meta: &HandlerMeta) -> (r: Vec<String>)
    ensures
        views(r@) == ordinary_cache_keys(*meta),
{
    let ps = &meta.params;
    let mut r: Vec<String> = Vec::new();
    if find_last(ps, "Param").is_some() {
        r.push(owned("params"));
    }
    let ghost va = views(r@);
    if find_last(ps, "Query").is_some() {
        r.push(owned("query"));
    }
    let ghost vb = views(r@);
    if find_last(ps, "Body").is_some() {
        r.push(owned("body"));
    }
    proof {
        let a = if last_with(ps@, "Param"@) is Some {
            seq!["params"@]
        } else {
            Seq::empty()
        };
        assert(va =~= a);
    }
    assert(views(r@) =~= ordinary_cache_keys(*meta));
    r
}

/// The URL path of an ordinary handler below its group path.
pub fn full_path_text(group_path: &Vec<String>, path: &str) -> (r: String)
    ensures
        r@ == full_path(views(group_path@), path@),
{
    let gp = join(group_path, "/");
    let np = if !is_empty(path) && path.get_char(0) != '/' {
        cat2("/", path)
    } else {
        owned(path)
    };
    if is_empty(gp.as_str()) {
        np
    } else {
        cat3("/", gp.as_str(), np.as_str())
    }
}

fn struct_fields_of_param(p: Option<&ParamMeta>) -> (r: Option<&Vec<FieldMeta>>)
    ensures
        match r {
            Some(fs) => fs@ == param_struct_fields(match p {
                Some(q) => Some(*q),
                None => None,
            }),
            None => param_struct_fields(match p {
                Some(q) => Some(*q),
                None => None,
            }) == Seq::<FieldMeta>::empty(),
        },
{
    match p {
        Some(q) => match &q.structure {
            Some(s) => match &s.kind {
                TagKind::Struct(fs) => Some(fs),
                TagKind::Enum(_) => None,
            },
            None => None,
        },
        None => None,
    }
}


fn push_path_substitutions(cb: &mut CodeBuf, ind: &str, fs: &Vec<FieldMeta>)
    ensures
        final(cb)@ == old(cb)@ + path_substitutions(ind@, fs@),
{
    let mut i: usize = 0;
    while i < fs.len()
        invariant
            i <= fs@.len(),
            cb@ == old(cb)@ + path_substitutions(ind@, fs@.subrange(0, i as int)),
        decreases fs@.len() - i,
    {
        let f = &fs[i];
        proof {
            assert(fs@.subrange(0, i + 1).drop_last() =~= fs@.subrange(0, i as int));
            assert(fs@.subrange(0, i + 1).last() == *f);
        }
        if !f.skip {
            let name = to_pascal_case(f.name.as_str());
            let a = cat6(ind, "url = url.Replace(\":", f.name.as_str(), "\", Uri.EscapeDataString(@params.", name.as_str(), ".ToString()));");
            cb.push(a);
        }
        i = i + 1;
    }
    assert(fs@.subrange(0, fs@.len() as int) =~= fs@);
}

fn push_query_additions(cb: &mut CodeBuf, ind: &str, fs: &Vec<FieldMeta>)
    ensures
        final(cb)@ == old(cb)@ + query_additions(ind@, fs@),
{
    let mut i: usize = 0;
    while i < fs.len()
        invariant
            i <= fs@.len(),
            cb@ == old(cb)@ + query_additions(ind@, fs@.subrange(0, i as int)),
        decreases fs@.len() - i,
    {
        let f = &fs[i];
        proof {
            assert(fs@.subrange(0, i + 1).drop_last() =~= fs@.subrange(0, i as int));
            assert(fs@.subrange(0, i + 1).last() == *f);
        }
        if !f.skip {
            let name = to_pascal_case(f.name.as_str());
            let a = cat6(ind, "    if (query.", name.as_str(), " != default) qs.Add(Uri.EscapeDataString(\"", f.name.as_str(), "=\") + Uri.EscapeDataString(query.");
            let line = cat3(a.as_str(), name.as_str(), ".ToString()!));");
            assert(line@ =~= ind@ + "    if (query."@ + pascal(f.name@) + " != default) qs.Add(Uri.EscapeDataString(\""@
                + f.name@ + "=\") + Uri.EscapeDataString(query."@ + pascal(f.name@) + ".ToString()!));"@);
            cb.push(line);
        }
        i = i + 1;
    }
    assert(fs@.subrange(0, fs@.len() as int) =~= fs@);
}

fn ordinary_docs_buf(indent: &str, meta: &HandlerMeta) -> (r: CodeBuf)
    ensures
        r@ == ordinary_docs(indent@, *meta),
{
    let ps = &meta.params;
    let mut doc = CodeBuf::new();
    if meta.desc.unicode_len() > 0 {
        doc.push(cat2(indent, "/// <summary>"));
        doc.push(cat3(indent, "/// ", meta.desc.as_str()));
        doc.push(cat2(indent, "/// </summary>"));
    }
    let ghost d0 = doc@;
    push_param_doc(&mut doc, indent, find_last(ps, "Param"), "params");
    push_param_doc(&mut doc, indent, find_last(ps, "Query"), "query");
    push_param_doc(&mut doc, indent, find_last(ps, "Body"), "body");
    let ghost d1 = doc@;
    if !str_eq(meta.return_type.as_str(), "()") {
        match &meta.return_structure {
            Some(s) => {
                if s.desc.unicode_len() > 0 {
                    doc.push(cat4(indent, "/// <returns>", s.desc.as_str(), "</returns>"));
                }
            },
            None => {},
        }
    }
    assert(doc@ =~= ordinary_docs(indent@, *meta));
    doc
}

fn push_param_doc(cb: &mut CodeBuf, indent: &str, p: Option<&ParamMeta>, name: &str)
    ensures
        final(cb)@ == old(cb)@ + ordinary_param_doc(indent@, match p {
            Some(q) => Some(*q),
            None => None,
        }, name@),
{
    match p {
        Some(q) => match &q.structure {
            Some(s) => {
                if s.desc.unicode_len() > 0 {
                    let a = cat4(indent, "/// <param name=\"", name, "\">");
                    cb.push(cat3(a.as_str(), s.desc.as_str(), "</param>"));
                }
            },
            None => {},
        },
        None => {},
    }
}

fn push_fields_of(cb: &mut CodeBuf, ind: &str, p: Option<&ParamMeta>, query: bool)
    ensures
        final(cb)@ == old(cb)@ + if query {
            query_additions(ind@, param_struct_fields(match p {
                Some(q) => Some(*q),
                None => None,
            }))
        } else {
            path_substitutions(ind@, param_struct_fields(match p {
                Some(q) => Some(*q),
                None => None,
            }))
        },
{
    match struct_fields_of_param(p) {
        Some(fs) => {
            if query {
                push_query_additions(cb, ind, fs);
            } else {
                push_path_substitutions(cb, ind, fs);
            }
        },
        None => {
            assert(query_additions(ind@, Seq::<FieldMeta>::empty()) =~= Seq::<Seq<char>>::empty());
            assert(path_substitutions(ind@, Seq::<FieldMeta>::empty()) =~= Seq::<Seq<char>>::empty());
        },
    }
}


fn push_query_block(body: &mut CodeBuf, ind: &str, qp: Option<&ParamMeta>)
    ensures
        final(body)@ == old(body)@ + ordinary_query_block(ind@, match qp {
            Some(q) => Some(*q),
            None => None,
        }),
{
    if qp.is_some() {
        let ghost start = body@;
        body.push(cat2(ind, "{"));
        body.push(cat2(ind, "    var qs = new List<string>();"));
        let ghost mid = body@;
        push_fields_of(body, ind, qp, true);
        let ghost after = body@;
        body.push(cat2(ind, "    if (qs.Count > 0) url += \"?\" + string.Join(\"&\", qs);"));
        body.push(cat2(ind, "}"));
        assert(body@ =~= start + ordinary_query_block(ind@, match qp {
            Some(q) => Some(*q),
            None => None,
        }));
    } else {
        assert(body@ =~= old(body)@ + Seq::<Seq<char>>::empty());
    }
}

fn push_request_lines(body: &mut CodeBuf, ind: &str, method: &str, has_body: bool, debug: bool)
    ensures
        final(body)@ == old(body)@ + ordinary_request_lines(ind@, method@, has_body, debug),
{
    let ghost start = body@;
    body.push(cat4(ind, "var request = new HttpRequestMessage(new HttpMethod(\"", method, "\"), url);"));
    body.push(cat2(ind, "request.Headers.Add(\"Accept\", \"application/json\");"));
    if has_body {
        body.push(cat2(ind, "request.Content = new StringContent(JsonSerializer.Serialize(body), Encoding.UTF8, \"application/json\");"));
    }
    if debug {
        body.push(cat4(ind, "if (_client._debug) Console.WriteLine(\"[afast:debug] \u{2192} ", method, " {url}\");"));
    }
    assert(body@ =~= start + ordinary_request_lines(ind@, method@, has_body, debug));
}

fn push_head_cache(body: &mut CodeBuf, meta: &HandlerMeta, prefix: &str, ind: &str, cache_key: &str, ret: &str, void: bool)
    requires
        ret@ == ordinary_return(prefix@, *meta),
        void == (ret@ == "void"@),
    ensures
        final(body)@ == old(body)@ + head_cache(*meta, prefix@, ind@, cache_key@),
{
    if meta.cache_seconds > 0 {
        let keys = ordinary_cache_keys_exec(meta);
        let req = crate::cs::methods::cache_request_text(&keys);
        push_cache_lookup(body, ind, cache_key, req.as_str(), void, ret);
    } else {
        assert(body@ =~= old(body)@ + Seq::<Seq<char>>::empty());
    }
}

fn push_head_request(body: &mut CodeBuf, handler: &Handler, group_path: &Vec<String>, ind: &str, debug: bool)
    ensures
        final(body)@ == old(body)@ + head_request(*handler, views(group_path@), ind@, debug),
{
    let meta = &handler.meta;
    let ps = &meta.params;
    let method: &str = if is_empty(meta.method.as_str()) {
        "GET"
    } else {
        meta.method.as_str()
    };
    let pp = find_last(ps, "Param");
    let qp = find_last(ps, "Query");
    let bp = find_last(ps, "Body");
    let ghost start = body@;
    let ghost pss = meta.params@;
    let fp = full_path_text(group_path, handler.path.as_str());
    body.push(cat4(ind, "var url = _client._baseUrl + \"", fp.as_str(), "\";"));
    let ghost url_part = seq![ind@ + "var url = _client._baseUrl + \""@ + full_path(views(group_path@), handler.path@) + "\";"@];
    assert(body@ =~= start + url_part);
    let ghost s2 = body@;
    push_fields_of(body, ind, pp, false);
    let ghost s3 = body@;
    push_query_block(body, ind, qp);
    let ghost s4 = body@;
    assert(method@ == http_method(handler.meta));
    push_request_lines(body, ind, method, bp.is_some(), debug);
    assert(bp.is_some() == (last_with(pss, "Body"@) is Some));
    assert(body@ =~= start + head_request(*handler, views(group_path@), ind@, debug));
}

fn push_ordinary_head(
    body: &mut CodeBuf,
    handler: &Handler,
    prefix: &str,
    group_path: &Vec<String>,
    ind: &str,
    debug: bool,
    cache_key: &str,
    ret: &str,
    void: bool,
)
    requires
        ret@ == ordinary_return(prefix@, handler.meta),
        void == (ret@ == "void"@),
    ensures
        final(body)@ == old(body)@ + ordinary_body_head(*handler, prefix@, views(group_path@), ind@, debug, cache_key@),
{
    let ghost start = body@;
    push_head_cache(body, &handler.meta, prefix, ind, cache_key, ret, void);
    let ghost mid = body@;
    push_head_request(body, handler, group_path, ind, debug);
    assert(body@ =~= start + ordinary_body_head(*handler, prefix@, views(group_path@), ind@, debug, cache_key@));
}

fn push_ordinary_tail(
    body: &mut CodeBuf,
    handler: &Handler,
    prefix: &str,
    ind: &str,
    debug: bool,
    class_name: &str,
    ret: &str,
    void: bool,
)
    requires
        ret@ == ordinary_return(prefix@, handler.meta),
        void == (ret@ == "void"@),
        handler.meta.cache_seconds <= 1844674407370u64,
    ensures
        final(body)@ == old(body)@ + ordinary_body_tail(*handler, prefix@, ind@, debug, class_name@),
{
    let meta = &handler.meta;
    let method: &str = if is_empty(meta.method.as_str()) {
        "GET"
    } else {
        meta.method.as_str()
    };
    let ghost start = body@;
    body.push(cat2(ind, "var response = await _client._httpClient.SendAsync(request);"));
    body.push(cat2(ind, "response.EnsureSuccessStatusCode();"));
    body.push(cat2(ind, "var respBytes = await response.Content.ReadAsByteArrayAsync();"));
    if debug {
        body.push(cat4(ind, "if (_client._debug) Console.WriteLine(\"[afast:debug] \u{2190} ", method, " {url} status={(int)response.StatusCode}\");"));
    }
    let ticks: u64 = meta.cache_seconds * 10000000;
    if void {
        if meta.cache_seconds > 0 {
            body.push(cache_store_text(ind, class_name, ticks, "null"));
        }
        body.push(cat2(ind, "return;"));
    } else {
        body.push(cat4(ind, "var result = JsonSerializer.Deserialize<", ret, ">(respBytes)!;"));
        if meta.cache_seconds > 0 {
            body.push(cache_store_text(ind, class_name, ticks, "result"));
        }
        body.push(cat2(ind, "return result;"));
    }
    assert(body@ =~= start + ordinary_body_tail(*handler, prefix@, ind@, debug, class_name@));
}

/// Generates the C# method that calls an ordinary handler: it checks the
/// cache, builds the URL with path parameters and query string, sends the
/// request with its JSON body and deserialises the JSON response.
pub fn ordinary_handler_method_cs(
    handler: &Handler,
    prefix: &str,
    group_path: &Vec<String>,
    base_indent: &str,
    svc_name: &str,
    debug: bool,
    class_name: &str,
    cache_key: &str,
) -> (r: String)
    requires
        handler_meta_ok(handler.meta),
        ordinary_return_ok(handler.meta),
        handler.meta.cache_seconds <= 1844674407370u64,
    ensures
        r@ == ordinary_text(*handler, prefix@, views(group_path@), base_indent@, debug, class_name@, cache_key@),
{
    let meta = &handler.meta;
    let ps = &meta.params;
    let func_name = crate::cs::methods::method_name_cs(meta);
    let indent = base_indent;
    let ind = cat2(indent, "    ");
    let fn_params = ordinary_params_cs(prefix, meta);
    let params_str = join(&fn_params, ", ");
    let ret = ordinary_return_cs(prefix, meta);
    let void = str_eq(ret.as_str(), "void");
    let mut body = CodeBuf::new();
    push_ordinary_head(&mut body, handler, prefix, group_path, ind.as_str(), debug, cache_key, ret.as_str(), void);
    push_ordinary_tail(&mut body, handler, prefix, ind.as_str(), debug, class_name, ret.as_str(), void);
    proof {
        assert(body@ =~= ordinary_body(*handler, prefix@, views(group_path@), ind@, debug, class_name@, cache_key@));
    }
    let body_str = body.build();
    let async_ret = if void {
        owned("async Task")
    } else {
        cat3("async Task<", ret.as_str(), ">")
    };
    let doc = ordinary_docs_buf(indent, meta);
    let dp = doc_prefix_text(doc);
    let a = cat6(dp.as_str(), indent, "public ", async_ret.as_str(), " ", func_name.as_str());
    let b = cat6(a.as_str(), "(", params_str.as_str(), ")\n", indent, "{\n");
    let r = cat5(b.as_str(), body_str.as_str(), "\n", indent, "}");
    assert(r@ =~= ordinary_text(*handler, prefix@, views(group_path@), base_indent@, debug, class_name@, cache_key@));
    r
}

} // verus!
