//! The methods a JavaScript client offers for WebSocket and
//! server-sent-events routes: each opens the connection to the route's URL.

use vstd::prelude::*;
use crate::buf::CodeBuf;
use crate::model::StreamRoute;
use crate::routes::{
    has_param, js_path, param_names, route_has_param, route_param_names, route_path_expr, route_segments,
    segments, trimmed_path,
};
use crate::text::{cat2, cat3, cat4, cat5, join, owned, join_seq, trim_end_matches, trim_start_matches, views};

verus! {

/// The parameter list of a route's method: its path parameters, then the
/// query.
pub open spec fn js_stream_sig(names: Seq<Seq<char>>) -> Seq<char> {
    if names.len() == 0 {
        "query"@
    } else {
        join_seq(names, ", "@) + ", query"@
    }
}

/// The lines of the method for a WebSocket route (`sse` false) or a
/// server-sent-events route (`sse` true) in the `apis` object.
pub open spec fn js_stream_lines(r: StreamRoute, sse: bool) -> Seq<Seq<char>> {
    let segs = segments(r.path@);
    let ind = if sse { "        "@ } else { "            "@ };
    let url_path = if has_param(segs) { js_path(segs) } else { trimmed_path(r.path@) };
    let head = seq![
        (if sse { "        /** SSE: "@ } else { "        /** WebSocket: "@ }) + r.path@ + " */"@,
        "        "@ + r.handler_name@ + ": ("@ + js_stream_sig(param_names(segs)) + ") => {"@,
        ind + (if sse {
            "const scheme = this._tls ? 'https' : 'http';"@
        } else {
            "const scheme = this._tls ? 'wss' : 'ws';"@
        }),
        ind + "let url = `${scheme}://${this._host}:${this._port}/"@ + url_path + "`;"@,
        ind + "if (query) {"@,
        "    "@ + ind + "const qs = new URLSearchParams(query);"@,
        "    "@ + ind + "if (qs.toString()) url += '?' + qs.toString();"@,
        ind + "}"@,
    ];
    let tail = if sse {
        seq![ind + "const es = new EventSource(url);"@, ind + "return es;"@]
    } else {
        seq![
            ind + "if (this._transport === 'uniws') {"@,
            "    "@ + ind + "return uni.connectSocket({ url, complete: () => {} });"@,
            ind + "} else if (this._transport === 'wxws') {"@,
            "    "@ + ind + "return wx.connectSocket({ url });"@,
            ind + "}"@,
            ind + "return new WebSocket(url);"@,
        ]
    };
    head + tail + seq!["        },"@]
}

/// The methods of the routes `rs`, in order.
pub open spec fn js_streams(rs: Seq<StreamRoute>, sse: bool) -> Seq<Seq<char>>
    decreases rs.len(),
{
    if rs.len() == 0 {
        Seq::empty()
    } else {
        js_streams(rs.drop_last(), sse) + js_stream_lines(rs.last(), sse)
    }
}

fn push_js_stream(cb: &mut CodeBuf, r: &StreamRoute, sse: bool)
    ensures
        final(cb)@ == old(cb)@ + js_stream_lines(*r, sse),
{
    let ghost start = cb@;
    let segs = route_segments(r.path.as_str());
    let names = route_param_names(&segs);
    let sig = if names.len() == 0 {
        owned("query")
    } else {
        let j = join(&names, ", ");
        cat2(j.as_str(), ", query")
    };
    assert(sig@ == js_stream_sig(param_names(segments(r.path@))));
    let ind: &str = if sse { "        " } else { "            " };
    let url_path = if route_has_param(&segs) {
        route_path_expr(&segs, true)
    } else {
        let a = trim_start_matches(r.path.as_str(), '/');
        trim_end_matches(a.as_str(), '/')
    };
    let head = if sse { "        /** SSE: " } else { "        /** WebSocket: " };
    cb.push(cat3(head, r.path.as_str(), " */"));
    cb.push(cat5("        ", r.handler_name.as_str(), ": (", sig.as_str(), ") => {"));
    let scheme = if sse {
        "const scheme = this._tls ? 'https' : 'http';"
    } else {
        "const scheme = this._tls ? 'wss' : 'ws';"
    };
    cb.push(cat2(ind, scheme));
    cb.push(cat4(ind, "let url = `${scheme}://${this._host}:${this._port}/", url_path.as_str(), "`;"));
    cb.push(cat2(ind, "if (query) {"));
    cb.push(cat3("    ", ind, "const qs = new URLSearchParams(query);"));
    cb.push(cat3("    ", ind, "if (qs.toString()) url += '?' + qs.toString();"));
    cb.push(cat2(ind, "}"));
    if sse {
        cb.push(cat2(ind, "const es = new EventSource(url);"));
        cb.push(cat2(ind, "return es;"));
    } else {
        cb.push(cat2(ind, "if (this._transport === 'uniws') {"));
        cb.push(cat3("    ", ind, "return uni.connectSocket({ url, complete: () => {} });"));
        cb.push(cat2(ind, "} else if (this._transport === 'wxws') {"));
        cb.push(cat3("    ", ind, "return wx.connectSocket({ url });"));
        cb.push(cat2(ind, "}"));
        cb.push(cat2(ind, "return new WebSocket(url);"));
    }
    cb.l("        },");
    assert(cb@ =~= start + js_stream_lines(*r, sse));
}

/// Adds the methods of the routes `rs`.
pub fn push_js_streams(cb: &mut CodeBuf, rs: &Vec<StreamRoute>, sse: bool)
    ensures
        final(cb)@ == old(cb)@ + js_streams(rs@, sse),
{
    let ghost start = cb@;
    let mut i: usize = 0;
    assert(rs@.subrange(0, 0) =~= Seq::<StreamRoute>::empty());
    assert(cb@ =~= start + js_streams(Seq::empty(), sse));
    while i < rs.len()
        invariant
            i <= rs@.len(),
            cb@ == start + js_streams(rs@.subrange(0, i as int), sse),
        decreases rs@.len() - i,
    {
        let ghost pre = rs@.subrange(0, i as int);
        let ghost post = rs@.subrange(0, i + 1);
        assert(post.drop_last() =~= pre);
        assert(post.last() == rs@[i as int]);
        push_js_stream(cb, &rs[i], sse);
        assert(cb@ =~= start + js_streams(post, sse));
        i = i + 1;
    }
    assert(rs@.subrange(0, rs@.len() as int) =~= rs@);
}

} // verus!
