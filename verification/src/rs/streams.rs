//! The methods a Rust client offers for WebSocket routes: each connects to
//! the route's URL.

use vstd::prelude::*;
use crate::buf::CodeBuf;
use crate::model::StreamRoute;
use crate::naming::{snake, to_snake_case};
use crate::routes::{brace_path, param_names, route_param_names, route_path_expr, route_segments, segments};
use crate::text::{cat2, cat3, cat5, join, join_seq, owned, views};

verus! {

/// The declarations `name: &str` of the path parameters.
pub open spec fn rs_param_decls(names: Seq<Seq<char>>) -> Seq<Seq<char>>
    decreases names.len(),
{
    if names.len() == 0 {
        Seq::empty()
    } else {
        rs_param_decls(names.drop_last()).push(names.last() + ": &str"@)
    }
}

/// The parameter list of a route's method: the client, its path
/// parameters, then the optional query.
pub open spec fn rs_stream_sig(names: Seq<Seq<char>>) -> Seq<char> {
    if names.len() == 0 {
        "&self, query: Option<&std::collections::HashMap<String, String>>"@
    } else {
        "&self, "@ + join_seq(rs_param_decls(names), ", "@)
            + ", query: Option<&std::collections::HashMap<String, String>>"@
    }
}

/// The lines of the method for a WebSocket route, inside the client's
/// `impl` block.
pub open spec fn rs_stream_lines(r: StreamRoute) -> Seq<Seq<char>> {
    let segs = segments(r.path@);
    seq![
        Seq::empty(),
        "    /// WebSocket connect: "@ + r.path@,
        "    pub async fn "@ + snake(r.handler_name@) + "("@ + rs_stream_sig(param_names(segs))
            + ") -> Result<tokio_tungstenite::WebSocketStream<tokio_tungstenite::MaybeTlsStream<tokio::net::TcpStream>>, Box<dyn std::error::Error + Send + Sync>> {"@,
        "        let scheme = if self.addr.starts_with(\"tls:\") || self.addr.starts_with(\"wss:\") { \"wss\" } else { \"ws\" };"@,
        "        let addr = self.addr.trim_start_matches(\"tls:\").trim_start_matches(\"wss:\").trim_start_matches(\"ws:\").trim_start_matches(\"tcp:\");"@,
        "        let mut url = format!(\"{}://{}/"@ + brace_path(segs) + "\", scheme, addr);"@,
        "        if let Some(q) = query {"@,
        "            let qs: String = q.iter()"@,
        "                .map(|(k, v)| format!(\"{}={}\", k, v))"@,
        "                .collect::<Vec<_>>()"@,
        "                .join(\"&\");"@,
        "            if !qs.is_empty() { url.push('?'); url.push_str(&qs); }"@,
        "        }"@,
        "        let (ws, _) = tokio_tungstenite::connect_async(&url).await?;"@,
        "        Ok(ws)"@,
        "    }"@,
    ]
}

/// The methods of the routes `rs`, in order.
pub open spec fn rs_streams(rs: Seq<StreamRoute>) -> Seq<Seq<char>>
    decreases rs.len(),
{
    if rs.len() == 0 {
        Seq::empty()
    } else {
        rs_streams(rs.drop_last()) + rs_stream_lines(rs.last())
    }
}

fn rs_sig_text(names: &Vec<String>) -> (r: String)
    ensures
        r@ == rs_stream_sig(views(names@)),
{
    if names.len() == 0 {
        return owned("&self, query: Option<&std::collections::HashMap<String, String>>");
    }
    let mut decls: Vec<String> = Vec::new();
    let mut i: usize = 0;
    assert(views(names@).subrange(0, 0) =~= Seq::<Seq<char>>::empty());
    assert(views(decls@) =~= Seq::<Seq<char>>::empty());
    while i < names.len()
        invariant
            i <= names@.len(),
            views(decls@) == rs_param_decls(views(names@).subrange(0, i as int)),
        decreases names@.len() - i,
    {
        let ghost pre = views(names@).subrange(0, i as int);
        let ghost post = views(names@).subrange(0, i + 1);
        assert(post.drop_last() =~= pre);
        assert(post.last() == names@[i as int]@);
        let d = cat2(names[i].as_str(), ": &str");
        let ghost before = decls@;
        decls.push(d);
        assert(views(decls@) =~= views(before).push(d@));
        i = i + 1;
    }
    assert(views(names@).subrange(0, names@.len() as int) =~= views(names@));
    let j = join(&decls, ", ");
    cat3("&self, ", j.as_str(), ", query: Option<&std::collections::HashMap<String, String>>")
}

fn push_rs_stream(cb: &mut CodeBuf, r: &StreamRoute)
    ensures
        final(cb)@ == old(cb)@ + rs_stream_lines(*r),
{
    let ghost start = cb@;
    let segs = route_segments(r.path.as_str());
    let names = route_param_names(&segs);
    let sig = rs_sig_text(&names);
    let path_fmt = route_path_expr(&segs, false);
    let name = to_snake_case(r.handler_name.as_str());
    cb.b();
    cb.push(cat2("    /// WebSocket connect: ", r.path.as_str()));
    cb.push(
        cat5(
            "    pub async fn ",
            name.as_str(),
            "(",
            sig.as_str(),
            ") -> Result<tokio_tungstenite::WebSocketStream<tokio_tungstenite::MaybeTlsStream<tokio::net::TcpStream>>, Box<dyn std::error::Error + Send + Sync>> {",
        ),
    );
    cb.l(
        "        let scheme = if self.addr.starts_with(\"tls:\") || self.addr.starts_with(\"wss:\") { \"wss\" } else { \"ws\" };",
    );
    cb.l(
        "        let addr = self.addr.trim_start_matches(\"tls:\").trim_start_matches(\"wss:\").trim_start_matches(\"ws:\").trim_start_matches(\"tcp:\");",
    );
    cb.push(cat3("        let mut url = format!(\"{}://{}/", path_fmt.as_str(), "\", scheme, addr);"));
    cb.l("        if let Some(q) = query {");
    cb.l("            let qs: String = q.iter()");
    cb.l("                .map(|(k, v)| format!(\"{}={}\", k, v))");
    cb.l("                .collect::<Vec<_>>()");
    cb.l("                .join(\"&\");");
    cb.l("            if !qs.is_empty() { url.push('?'); url.push_str(&qs); }");
    cb.l("        }");
    cb.l("        let (ws, _) = tokio_tungstenite::connect_async(&url).await?;");
    cb.l("        Ok(ws)");
    cb.l("    }");
    assert(cb@ =~= start + rs_stream_lines(*r));
}

/// Adds the methods of the WebSocket routes `rs`.
pub fn push_rs_streams(cb: &mut CodeBuf, rs: &Vec<StreamRoute>)
    ensures
        final(cb)@ == old(cb)@ + rs_streams(rs@),
{
    let ghost start = cb@;
    let mut i: usize = 0;
    assert(rs@.subrange(0, 0) =~= Seq::<StreamRoute>::empty());
    assert(cb@ =~= start + rs_streams(Seq::empty()));
    while i < rs.len()
        invariant
            i <= rs@.len(),
            cb@ == start + rs_streams(rs@.subrange(0, i as int)),
        decreases rs@.len() - i,
    {
        let ghost pre = rs@.subrange(0, i as int);
        let ghost post = rs@.subrange(0, i + 1);
        assert(post.drop_last() =~= pre);
        assert(post.last() == rs@[i as int]);
        push_rs_stream(cb, &rs[i]);
        assert(cb@ =~= start + rs_streams(post));
        i = i + 1;
    }
    assert(rs@.subrange(0, rs@.len() as int) =~= rs@);
}

} // verus!
