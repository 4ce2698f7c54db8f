//! The methods a C# client offers for WebSocket and server-sent-events
//! routes: each opens the connection to the route's URL.

use vstd::prelude::*;
use crate::buf::CodeBuf;
use crate::model::StreamRoute;
use crate::naming::{camel, to_camel_case};
use crate::routes::{brace_path, param_names, route_param_names, route_path_expr, route_segments, segments};
use crate::text::{cat2, cat3, cat5, join, join_seq, owned, views};

verus! {

/// The declarations `string name` of the path parameters.
pub open spec fn cs_param_decls(names: Seq<Seq<char>>) -> Seq<Seq<char>>
    decreases names.len(),
{
    if names.len() == 0 {
        Seq::empty()
    } else {
        cs_param_decls(names.drop_last()).push("string "@ + names.last())
    }
}

/// The parameter list of a route's method: its path parameters, then the
/// optional query.
pub open spec fn cs_stream_sig(names: Seq<Seq<char>>) -> Seq<char> {
    if names.len() == 0 {
        "Dictionary<string, string>? query = null"@
    } else {
        join_seq(cs_param_decls(names), ", "@) + ", Dictionary<string, string>? query = null"@
    }
}

/// The lines of the method for a WebSocket route (`sse` false) or a
/// server-sent-events route (`sse` true) of the client class.
pub open spec fn cs_stream_lines(r: StreamRoute, sse: bool) -> Seq<Seq<char>> {
    let segs = segments(r.path@);
    let head = seq![
        (if sse { "    /// <summary>SSE: "@ } else { "    /// <summary>WebSocket: "@ }) + r.path@ + "</summary>"@,
        (if sse {
            "    public async Task<HttpResponseMessage> "@
        } else {
            "    public async Task<ClientWebSocket> "@
        }) + camel(r.handler_name@) + "("@ + cs_stream_sig(param_names(segs)) + ")"@,
        "    {"@,
        (if sse {
            "                var scheme = _tls ? \"https\" : \"http\";"@
        } else {
            "                var scheme = _tls ? \"wss\" : \"ws\";"@
        }),
        "                var url = $\"{scheme}://{_host}:{_port}/"@ + brace_path(segs) + "\";"@,
        "                if (query != null) {"@,
        "                    var qs = string.Join(\"&\", query.Select(kv => $\"{Uri.EscapeDataString(kv.Key)}={Uri.EscapeDataString(kv.Value)}\"));"@,
        "                    if (qs.Length > 0) url += \"?\" + qs;"@,
        "                }"@,
    ];
    let tail = if sse {
        seq![
            "                var request = new HttpRequestMessage(HttpMethod.Get, url);"@,
            "                request.Headers.Add(\"Accept\", \"text/event-stream\");"@,
            "                return await _httpClient.SendAsync(request, HttpCompletionOption.ResponseHeadersRead);"@,
        ]
    } else {
        seq![
            "                var ws = new ClientWebSocket();"@,
            "                await ws.ConnectAsync(new Uri(url), CancellationToken.None);"@,
            "                return ws;"@,
        ]
    };
    head + tail + seq!["    }"@, Seq::empty()]
}

/// The methods of the routes `rs`, in order.
pub open spec fn cs_streams(rs: Seq<StreamRoute>, sse: bool) -> Seq<Seq<char>>
    decreases rs.len(),
{
    if rs.len() == 0 {
        Seq::empty()
    } else {
        cs_streams(rs.drop_last(), sse) + cs_stream_lines(rs.last(), sse)
    }
}

fn cs_sig_text(names: &Vec<String>) -> (r: String)
    ensures
        r@ == cs_stream_sig(views(names@)),
{
    if names.len() == 0 {
        return owned("Dictionary<string, string>? query = null");
    }
    let mut decls: Vec<String> = Vec::new();
    let mut i: usize = 0;
    assert(views(names@).subrange(0, 0) =~= Seq::<Seq<char>>::empty());
    assert(views(decls@) =~= Seq::<Seq<char>>::empty());
    while i < names.len()
        invariant
            i <= names@.len(),
            views(decls@) == cs_param_decls(views(names@).subrange(0, i as int)),
        decreases names@.len() - i,
    {
        let ghost pre = views(names@).subrange(0, i as int);
        let ghost post = views(names@).subrange(0, i + 1);
        assert(post.drop_last() =~= pre);
        assert(post.last() == names@[i as int]@);
        let d = cat2("string ", names[i].as_str());
        let ghost before = decls@;
        decls.push(d);
        assert(views(decls@) =~= views(before).push(d@));
        i = i + 1;
    }
    assert(views(names@).subrange(0, names@.len() as int) =~= views(names@));
    let j = join(&decls, ", ");
    cat2(j.as_str(), ", Dictionary<string, string>? query = null")
}

fn push_cs_stream(cb: &mut CodeBuf, r: &StreamRoute, sse: bool)
    ensures
        final(cb)@ == old(cb)@ + cs_stream_lines(*r, sse),
{
    let ghost start = cb@;
    let segs = route_segments(r.path.as_str());
    let names = route_param_names(&segs);
    let sig = cs_sig_text(&names);
    let path_expr = route_path_expr(&segs, false);
    let name = to_camel_case(r.handler_name.as_str());
    let head = if sse { "    /// <summary>SSE: " } else { "    /// <summary>WebSocket: " };
    cb.push(cat3(head, r.path.as_str(), "</summary>"));
    let ret = if sse {
        "    public async Task<HttpResponseMessage> "
    } else {
        "    public async Task<ClientWebSocket> "
    };
    cb.push(cat5(ret, name.as_str(), "(", sig.as_str(), ")"));
    cb.l("    {");
    if sse {
        cb.l("                var scheme = _tls ? \"https\" : \"http\";");
    } else {
        cb.l("                var scheme = _tls ? \"wss\" : \"ws\";");
    }
    cb.push(cat3("                var url = $\"{scheme}://{_host}:{_port}/", path_expr.as_str(), "\";"));
    cb.l("                if (query != null) {");
    cb.l(
        "                    var qs = string.Join(\"&\", query.Select(kv => $\"{Uri.EscapeDataString(kv.Key)}={Uri.EscapeDataString(kv.Value)}\"));",
    );
    cb.l("                    if (qs.Length > 0) url += \"?\" + qs;");
    cb.l("                }");
    if sse {
        cb.l("                var request = new HttpRequestMessage(HttpMethod.Get, url);");
        cb.l("                request.Headers.Add(\"Accept\", \"text/event-stream\");");
        cb.l(
            "                return await _httpClient.SendAsync(request, HttpCompletionOption.ResponseHeadersRead);",
        );
    } else {
        cb.l("                var ws = new ClientWebSocket();");
        cb.l("                await ws.ConnectAsync(new Uri(url), CancellationToken.None);");
        cb.l("                return ws;");
    }
    cb.l("    }");
    cb.b();
    assert(cb@ =~= start + cs_stream_lines(*r, sse));
}

/// Adds the methods of the routes `rs`.
pub fn push_cs_streams(cb: &mut CodeBuf, rs: &Vec<StreamRoute>, sse: bool)
    ensures
        final(cb)@ == old(cb)@ + cs_streams(rs@, sse),
{
    let ghost start = cb@;
    let mut i: usize = 0;
    assert(rs@.subrange(0, 0) =~= Seq::<StreamRoute>::empty());
    assert(cb@ =~= start + cs_streams(Seq::empty(), sse));
    while i < rs.len()
        invariant
            i <= rs@.len(),
            cb@ == start + cs_streams(rs@.subrange(0, i as int), sse),
        decreases rs@.len() - i,
    {
        let ghost pre = rs@.subrange(0, i as int);
        let ghost post = rs@.subrange(0, i + 1);
        assert(post.drop_last() =~= pre);
        assert(post.last() == rs@[i as int]);
        push_cs_stream(cb, &rs[i], sse);
        assert(cb@ =~= start + cs_streams(post, sse));
        i = i + 1;
    }
    assert(rs@.subrange(0, rs@.len() as int) =~= rs@);
}

} // verus!
