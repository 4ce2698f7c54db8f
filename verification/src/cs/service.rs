//! A service's C# client file: transports, the client class, and the API
//! classes that group its handlers.

use vstd::prelude::*;
use crate::buf::{build_lines, CodeBuf};
use crate::collect::{any_cache, has_cache_handlers};
use crate::cs::exports::{collect_type_exports_cs, exports_ok, tree_exports};
use crate::cs::streams::{cs_streams, push_cs_streams};
use crate::cs::objects::{collect_group_names_cs, gen_handler_object_cs, group_names, handler_object, object_ok};
use crate::cs::common::{common_text, generate_common_cs, services_ok};
use crate::model::{AFast, NetCallType, Service};
use crate::naming::{camel, pascal, to_camel_case, to_pascal_case};
use crate::text::{cat2, cat3, cat4, cat5, cat6, cat7, chars_of, ends_with, join, join_seq, owned, string_of_range, views};

verus! {

/// The file header of a service's C# file: usings and namespace.
#[verifier::opaque]
pub open spec fn service_usings(has_ws: bool, has_tcp: bool, cn: Seq<char>) -> Seq<Seq<char>> {
    seq![
        "// Auto-generated by afast. DO NOT EDIT."@,
        "#pragma warning disable CS8618, CS8603, CS8604, CS0649"@,
        "using System;"@,
        "using System.Collections.Generic;"@,
        "using System.IO;"@,
        "using System.Linq;"@,
        "using System.Net.Http;"@,
    ] + (if has_tcp {
        seq![
            "using System.Net.Sockets;"@,
        ]
    } else {
        Seq::<Seq<char>>::empty()
    }) + (if has_ws {
        seq![
            "using System.Net.WebSockets;"@,
        ]
    } else {
        Seq::<Seq<char>>::empty()
    }) + seq![
        "using System.Text;"@,
        "using System.Text.Json;"@,
        "using System.Threading;"@,
        "using System.Threading.Tasks;"@,
        Seq::<char>::empty(),
        "namespace Afast.Generated."@ + cn + ";"@,
        Seq::<char>::empty(),
    ]
}

fn push_service_usings(cb: &mut CodeBuf, has_ws: bool, has_tcp: bool, cn: &str)
    ensures
        final(cb)@ == old(cb)@ + service_usings(has_ws, has_tcp, cn@),
{
    let ghost start = cb@;
    cb.l("// Auto-generated by afast. DO NOT EDIT.");
    cb.l("#pragma warning disable CS8618, CS8603, CS8604, CS0649");
    cb.l("using System;");
    cb.l("using System.Collections.Generic;");
    cb.l("using System.IO;");
    cb.l("using System.Linq;");
    cb.l("using System.Net.Http;");
    if has_tcp {
        cb.l("using System.Net.Sockets;");
    }
    if has_ws {
        cb.l("using System.Net.WebSockets;");
    }
    cb.l("using System.Text;");
    cb.l("using System.Text.Json;");
    cb.l("using System.Threading;");
    cb.l("using System.Threading.Tasks;");
    cb.b();
    cb.push(cat3("namespace Afast.Generated.", cn, ";"));
    cb.b();
    proof {
        reveal(service_usings);
    }
    assert(cb@ =~= start + service_usings(has_ws, has_tcp, cn@));
}

/// The fields of a service's C# client class.
#[verifier::opaque]
pub open spec fn service_fields(debug: bool, has_ws: bool, has_tcp: bool, has_cache: bool) -> Seq<Seq<char>> {
    seq![
        "    private readonly string _host;"@,
        "    private readonly int _port;"@,
        "    private readonly bool _tls;"@,
        "    private readonly Transport _transport;"@,
    ] + (if debug {
        seq![
            "    private readonly bool _debug = true;"@,
        ]
    } else {
        Seq::<Seq<char>>::empty()
    }) + seq![
        "    private readonly HttpClient _httpClient;"@,
    ] + (if has_ws || has_tcp {
        seq![
            "    private readonly Dictionary<int, TaskCompletionSource<byte[]>> _pending = new();"@,
            "    private readonly Dictionary<int, Action<byte[]>> _pushHandlers = new();"@,
            "    private int _nextId = 1;"@,
            "    private readonly object _lock = new();"@,
        ]
    } else {
        Seq::<Seq<char>>::empty()
    }) + (if has_tcp {
        seq![
            "    private TcpClient? _tcpClient;"@,
            "    private NetworkStream? _tcpStream;"@,
            "    private BinaryReader? _tcpReader;"@,
        ]
    } else {
        Seq::<Seq<char>>::empty()
    }) + (if has_ws {
        seq![
            "    private ClientWebSocket? _ws;"@,
        ]
    } else {
        Seq::<Seq<char>>::empty()
    }) + (if has_cache {
        seq![
            "    private static readonly Dictionary<string, (string Request, long ExpiresAt, object? Value)> _cache = new();"@,
        ]
    } else {
        Seq::<Seq<char>>::empty()
    }) + seq![
        "    private readonly string _baseUrl;"@,
        "    public Dictionary<string, Func<Task<object>>> Customs { get; } = new();"@,
        Seq::<char>::empty(),
    ]
}

fn push_service_fields(cb: &mut CodeBuf, debug: bool, has_ws: bool, has_tcp: bool, has_cache: bool)
    ensures
        final(cb)@ == old(cb)@ + service_fields(debug, has_ws, has_tcp, has_cache),
{
    let ghost start = cb@;
    cb.l("    private readonly string _host;");
    cb.l("    private readonly int _port;");
    cb.l("    private readonly bool _tls;");
    cb.l("    private readonly Transport _transport;");
    if debug {
        cb.l("    private readonly bool _debug = true;");
    }
    cb.l("    private readonly HttpClient _httpClient;");
    if has_ws || has_tcp {
        cb.l("    private readonly Dictionary<int, TaskCompletionSource<byte[]>> _pending = new();");
        cb.l("    private readonly Dictionary<int, Action<byte[]>> _pushHandlers = new();");
        cb.l("    private int _nextId = 1;");
        cb.l("    private readonly object _lock = new();");
    }
    if has_tcp {
        cb.l("    private TcpClient? _tcpClient;");
        cb.l("    private NetworkStream? _tcpStream;");
        cb.l("    private BinaryReader? _tcpReader;");
    }
    if has_ws {
        cb.l("    private ClientWebSocket? _ws;");
    }
    if has_cache {
        cb.l("    private static readonly Dictionary<string, (string Request, long ExpiresAt, object? Value)> _cache = new();");
    }
    cb.l("    private readonly string _baseUrl;");
    cb.l("    public Dictionary<string, Func<Task<object>>> Customs { get; } = new();");
    cb.b();
    proof {
        reveal(service_fields);
    }
    assert(cb@ =~= start + service_fields(debug, has_ws, has_tcp, has_cache));
}

/// The constructor of a service's C# client class.
#[verifier::opaque]
pub open spec fn service_ctor(has_ws: bool, has_tcp: bool, cn: Seq<char>, dt: Seq<char>) -> Seq<Seq<char>> {
    seq![
        "    public "@ + cn + "Client(string host, int port, bool tls = false, Transport transport = Transport."@ + dt + ")"@,
        "    {"@,
        "        _host = host;"@,
        "        _port = port;"@,
        "        _tls = tls;"@,
        "        _transport = transport;"@,
        "        _httpClient = new HttpClient();"@,
        "        _baseUrl = $\"{(tls ? \"https\" : \"http\")}://{host}:{port}\";"@,
    ] + (if has_tcp {
        seq![
            "        if (transport == Transport.Tcp) InitTcp();"@,
        ]
    } else {
        Seq::<Seq<char>>::empty()
    }) + (if has_ws {
        seq![
            "        if (transport == Transport.Ws) InitWs().Wait();"@,
        ]
    } else {
        Seq::<Seq<char>>::empty()
    }) + seq![
        "        Apis = new "@ + cn + "Apis(this);"@,
        "    }"@,
        Seq::<char>::empty(),
    ]
}

fn push_service_ctor(cb: &mut CodeBuf, has_ws: bool, has_tcp: bool, cn: &str, dt: &str)
    ensures
        final(cb)@ == old(cb)@ + service_ctor(has_ws, has_tcp, cn@, dt@),
{
    let ghost start = cb@;
    cb.push(cat5("    public ", cn, "Client(string host, int port, bool tls = false, Transport transport = Transport.", dt, ")"));
    cb.l("    {");
    cb.l("        _host = host;");
    cb.l("        _port = port;");
    cb.l("        _tls = tls;");
    cb.l("        _transport = transport;");
    cb.l("        _httpClient = new HttpClient();");
    cb.l("        _baseUrl = $\"{(tls ? \"https\" : \"http\")}://{host}:{port}\";");
    if has_tcp {
        cb.l("        if (transport == Transport.Tcp) InitTcp();");
    }
    if has_ws {
        cb.l("        if (transport == Transport.Ws) InitWs().Wait();");
    }
    cb.push(cat3("        Apis = new ", cn, "Apis(this);"));
    cb.l("    }");
    cb.b();
    proof {
        reveal(service_ctor);
    }
    assert(cb@ =~= start + service_ctor(has_ws, has_tcp, cn@, dt@));
}

/// The TCP connection set-up and reader loop of a C# client.
#[verifier::opaque]
pub open spec fn service_tcp_init(has_tcp: bool) -> Seq<Seq<char>> {
    (if has_tcp {
        seq![
            "    private void InitTcp()"@,
            "    {"@,
            "        _tcpClient = new TcpClient(_host, _port);"@,
            "        _tcpStream = _tcpClient.GetStream();"@,
            "        _ = Task.Run(TcpReaderLoop);"@,
            "    }"@,
            Seq::<char>::empty(),
            "    private async Task TcpReaderLoop()"@,
            "    {"@,
            "        try"@,
            "        {"@,
            "            while (true)"@,
            "            {"@,
            "                var lenBuf = new byte[4];"@,
            "                await _tcpStream!.ReadExactlyAsync(lenBuf);"@,
            "                var frameLen = BitConverter.ToInt32(lenBuf);"@,
            "                if (frameLen == 0) continue;"@,
            "                var frame = new byte[frameLen];"@,
            "                await _tcpStream.ReadExactlyAsync(frame);"@,
            "                HandleMessage(frame);"@,
            "            }"@,
            "        }"@,
            "        catch { /* connection closed */ }"@,
            "    }"@,
            Seq::<char>::empty(),
        ]
    } else {
        Seq::<Seq<char>>::empty()
    })
}

fn push_service_tcp_init(cb: &mut CodeBuf, has_tcp: bool)
    ensures
        final(cb)@ == old(cb)@ + service_tcp_init(has_tcp),
{
    let ghost start = cb@;
    if has_tcp {
        cb.l("    private void InitTcp()");
        cb.l("    {");
        cb.l("        _tcpClient = new TcpClient(_host, _port);");
        cb.l("        _tcpStream = _tcpClient.GetStream();");
        cb.l("        _ = Task.Run(TcpReaderLoop);");
        cb.l("    }");
        cb.b();
        cb.l("    private async Task TcpReaderLoop()");
        cb.l("    {");
        cb.l("        try");
        cb.l("        {");
        cb.l("            while (true)");
        cb.l("            {");
        cb.l("                var lenBuf = new byte[4];");
        cb.l("                await _tcpStream!.ReadExactlyAsync(lenBuf);");
        cb.l("                var frameLen = BitConverter.ToInt32(lenBuf);");
        cb.l("                if (frameLen == 0) continue;");
        cb.l("                var frame = new byte[frameLen];");
        cb.l("                await _tcpStream.ReadExactlyAsync(frame);");
        cb.l("                HandleMessage(frame);");
        cb.l("            }");
        cb.l("        }");
        cb.l("        catch { /* connection closed */ }");
        cb.l("    }");
        cb.b();
    }
    proof {
        reveal(service_tcp_init);
    }
    assert(cb@ =~= start + service_tcp_init(has_tcp));
}

/// The WebSocket connection set-up and reader loop of a C# client.
#[verifier::opaque]
pub open spec fn service_ws_init(has_ws: bool) -> Seq<Seq<char>> {
    (if has_ws {
        seq![
            "    private async Task InitWs()"@,
            "    {"@,
            "        _ws = new ClientWebSocket();"@,
            "        var wsUrl = $\"{(_tls ? \"wss\" : \"ws\")}://{_host}:{_port}/_ws\";"@,
            "        await _ws.ConnectAsync(new Uri(wsUrl), CancellationToken.None);"@,
            "        _ = Task.Run(WsReaderLoop);"@,
            "    }"@,
            Seq::<char>::empty(),
            "    private async Task WsReaderLoop()"@,
            "    {"@,
            "        var buf = new byte[65536];"@,
            "        try"@,
            "        {"@,
            "            while (_ws!.State == WebSocketState.Open)"@,
            "            {"@,
            "                var ms = new MemoryStream();"@,
            "                WebSocketReceiveResult result;"@,
            "                do"@,
            "                {"@,
            "                    result = await _ws.ReceiveAsync(new ArraySegment<byte>(buf), CancellationToken.None);"@,
            "                    ms.Write(buf, 0, result.Count);"@,
            "                } while (!result.EndOfMessage);"@,
            "                if (result.MessageType == WebSocketMessageType.Binary)"@,
            "                    HandleMessage(ms.ToArray());"@,
            "            }"@,
            "        }"@,
            "        catch { /* connection closed */ }"@,
            "    }"@,
            Seq::<char>::empty(),
        ]
    } else {
        Seq::<Seq<char>>::empty()
    })
}

fn push_service_ws_init(cb: &mut CodeBuf, has_ws: bool)
    ensures
        final(cb)@ == old(cb)@ + service_ws_init(has_ws),
{
    let ghost start = cb@;
    if has_ws {
        cb.l("    private async Task InitWs()");
        cb.l("    {");
        cb.l("        _ws = new ClientWebSocket();");
        cb.l("        var wsUrl = $\"{(_tls ? \"wss\" : \"ws\")}://{_host}:{_port}/_ws\";");
        cb.l("        await _ws.ConnectAsync(new Uri(wsUrl), CancellationToken.None);");
        cb.l("        _ = Task.Run(WsReaderLoop);");
        cb.l("    }");
        cb.b();
        cb.l("    private async Task WsReaderLoop()");
        cb.l("    {");
        cb.l("        var buf = new byte[65536];");
        cb.l("        try");
        cb.l("        {");
        cb.l("            while (_ws!.State == WebSocketState.Open)");
        cb.l("            {");
        cb.l("                var ms = new MemoryStream();");
        cb.l("                WebSocketReceiveResult result;");
        cb.l("                do");
        cb.l("                {");
        cb.l("                    result = await _ws.ReceiveAsync(new ArraySegment<byte>(buf), CancellationToken.None);");
        cb.l("                    ms.Write(buf, 0, result.Count);");
        cb.l("                } while (!result.EndOfMessage);");
        cb.l("                if (result.MessageType == WebSocketMessageType.Binary)");
        cb.l("                    HandleMessage(ms.ToArray());");
        cb.l("            }");
        cb.l("        }");
        cb.l("        catch { /* connection closed */ }");
        cb.l("    }");
        cb.b();
    }
    proof {
        reveal(service_ws_init);
    }
    assert(cb@ =~= start + service_ws_init(has_ws));
}

/// The dispatcher of a C# client's long-connection frames: pushed data and call replies.
#[verifier::opaque]
pub open spec fn service_handle_message(has_ws: bool, has_tcp: bool) -> Seq<Seq<char>> {
    (if has_ws || has_tcp {
        seq![
            "    private void HandleMessage(byte[] raw)"@,
            "    {"@,
            "        if (raw.Length < 4) return;"@,
            "        long reqId = BitConverter.ToUInt32(raw, 0);"@,
            "        if (reqId == 0)"@,
            "        {"@,
            "            int connId = BitConverter.ToInt32(raw, 4);"@,
            "            int len = (int)BitConverter.ToUInt32(raw, 8);"@,
            "            var payload = new byte[len];"@,
            "            Array.Copy(raw, 12, payload, 0, len);"@,
            "            lock (_lock) { if (_pushHandlers.TryGetValue(connId, out var h)) h(payload); }"@,
            "            return;"@,
            "        }"@,
            "        TaskCompletionSource<byte[]> tcs;"@,
            "        lock (_lock) { if (!_pending.Remove((int)reqId, out tcs!)) return; }"@,
            "        if (raw.Length < 17) { tcs.SetException(new InvalidOperationException(\"response too short\")); return; }"@,
            "        int status = raw[8];"@,
            "        if (status == 1)"@,
            "        {"@,
            "            long code = BitConverter.ToInt64(raw, 9);"@,
            "            string msg = Encoding.UTF8.GetString(raw, 17, raw.Length - 17);"@,
            "            tcs.SetException(new InvalidOperationException($\"AfError({code}): {msg}\"));"@,
            "        }"@,
            "        else"@,
            "        {"@,
            "            var data = new byte[raw.Length - 17];"@,
            "            Array.Copy(raw, 17, data, 0, data.Length);"@,
            "            tcs.SetResult(data);"@,
            "        }"@,
            "    }"@,
            Seq::<char>::empty(),
        ]
    } else {
        Seq::<Seq<char>>::empty()
    })
}

fn push_service_handle_message(cb: &mut CodeBuf, has_ws: bool, has_tcp: bool)
    ensures
        final(cb)@ == old(cb)@ + service_handle_message(has_ws, has_tcp),
{
    let ghost start = cb@;
    if has_ws || has_tcp {
        cb.l("    private void HandleMessage(byte[] raw)");
        cb.l("    {");
        cb.l("        if (raw.Length < 4) return;");
        cb.l("        long reqId = BitConverter.ToUInt32(raw, 0);");
        cb.l("        if (reqId == 0)");
        cb.l("        {");
        cb.l("            int connId = BitConverter.ToInt32(raw, 4);");
        cb.l("            int len = (int)BitConverter.ToUInt32(raw, 8);");
        cb.l("            var payload = new byte[len];");
        cb.l("            Array.Copy(raw, 12, payload, 0, len);");
        cb.l("            lock (_lock) { if (_pushHandlers.TryGetValue(connId, out var h)) h(payload); }");
        cb.l("            return;");
        cb.l("        }");
        cb.l("        TaskCompletionSource<byte[]> tcs;");
        cb.l("        lock (_lock) { if (!_pending.Remove((int)reqId, out tcs!)) return; }");
        cb.l("        if (raw.Length < 17) { tcs.SetException(new InvalidOperationException(\"response too short\")); return; }");
        cb.l("        int status = raw[8];");
        cb.l("        if (status == 1)");
        cb.l("        {");
        cb.l("            long code = BitConverter.ToInt64(raw, 9);");
        cb.l("            string msg = Encoding.UTF8.GetString(raw, 17, raw.Length - 17);");
        cb.l("            tcs.SetException(new InvalidOperationException($\"AfError({code}): {msg}\"));");
        cb.l("        }");
        cb.l("        else");
        cb.l("        {");
        cb.l("            var data = new byte[raw.Length - 17];");
        cb.l("            Array.Copy(raw, 17, data, 0, data.Length);");
        cb.l("            tcs.SetResult(data);");
        cb.l("        }");
        cb.l("    }");
        cb.b();
    }
    proof {
        reveal(service_handle_message);
    }
    assert(cb@ =~= start + service_handle_message(has_ws, has_tcp));
}

/// The C# client's call dispatch over the chosen transport.
#[verifier::opaque]
pub open spec fn service_call(has_http: bool, has_ws: bool, has_tcp: bool) -> Seq<Seq<char>> {
    seq![
        "    private async Task<byte[]> CallAsync(long handlerId, byte[] payload)"@,
        "    {"@,
        "        return _transport switch"@,
        "        {"@,
    ] + (if has_http {
        seq![
            "            Transport.Http => await CallFetchAsync(handlerId, payload),"@,
        ]
    } else {
        Seq::<Seq<char>>::empty()
    }) + (if has_ws {
        seq![
            "            Transport.Ws => await CallWsAsync(handlerId, payload),"@,
        ]
    } else {
        Seq::<Seq<char>>::empty()
    }) + (if has_tcp {
        seq![
            "            Transport.Tcp => await CallTcpAsync(handlerId, payload),"@,
        ]
    } else {
        Seq::<Seq<char>>::empty()
    }) + seq![
        "            _ => throw new InvalidOperationException($\"transport not enabled: {_transport}\")"@,
        "        };"@,
        "    }"@,
    ]
}

fn push_service_call(cb: &mut CodeBuf, has_http: bool, has_ws: bool, has_tcp: bool)
    ensures
        final(cb)@ == old(cb)@ + service_call(has_http, has_ws, has_tcp),
{
    let ghost start = cb@;
    cb.l("    private async Task<byte[]> CallAsync(long handlerId, byte[] payload)");
    cb.l("    {");
    cb.l("        return _transport switch");
    cb.l("        {");
    if has_http {
        cb.l("            Transport.Http => await CallFetchAsync(handlerId, payload),");
    }
    if has_ws {
        cb.l("            Transport.Ws => await CallWsAsync(handlerId, payload),");
    }
    if has_tcp {
        cb.l("            Transport.Tcp => await CallTcpAsync(handlerId, payload),");
    }
    cb.l("            _ => throw new InvalidOperationException($\"transport not enabled: {_transport}\")");
    cb.l("        };");
    cb.l("    }");
    proof {
        reveal(service_call);
    }
    assert(cb@ =~= start + service_call(has_http, has_ws, has_tcp));
}

/// The C# client's binary call over HTTP.
#[verifier::opaque]
pub open spec fn service_http_call(has_http: bool) -> Seq<Seq<char>> {
    (if has_http {
        seq![
            "    private async Task<byte[]> CallFetchAsync(long handlerId, byte[] payload)"@,
            "    {"@,
            "        var w = new BinaryWriter();"@,
            "        w.WriteU32((int)handlerId);"@,
            "        w.WriteRaw(payload);"@,
            "        var body = w.ToBytes();"@,
            "        var request = new HttpRequestMessage(HttpMethod.Post, $\"{_baseUrl}/_api\");"@,
            "        request.Content = new ByteArrayContent(body);"@,
            "        request.Content.Headers.ContentType = new System.Net.Http.Headers.MediaTypeHeaderValue(\"application/octet-stream\");"@,
            "        var response = await _httpClient.SendAsync(request);"@,
            "        response.EnsureSuccessStatusCode();"@,
            "        var respBytes = await response.Content.ReadAsByteArrayAsync();"@,
            "        if (respBytes.Length < 9) throw new InvalidOperationException(\"response too short\");"@,
            "        int status = respBytes[0];"@,
            "        if (status == 1)"@,
            "        {"@,
            "            long code = BitConverter.ToInt64(respBytes, 1);"@,
            "            string msg = Encoding.UTF8.GetString(respBytes, 9, respBytes.Length - 9);"@,
            "            throw new InvalidOperationException($\"AfError({code}): {msg}\");"@,
            "        }"@,
            "        var result = new byte[respBytes.Length - 9];"@,
            "        Array.Copy(respBytes, 9, result, 0, result.Length);"@,
            "        return result;"@,
            "    }"@,
            Seq::<char>::empty(),
        ]
    } else {
        Seq::<Seq<char>>::empty()
    })
}

fn push_service_http_call(cb: &mut CodeBuf, has_http: bool)
    ensures
        final(cb)@ == old(cb)@ + service_http_call(has_http),
{
    let ghost start = cb@;
    if has_http {
        cb.l("    private async Task<byte[]> CallFetchAsync(long handlerId, byte[] payload)");
        cb.l("    {");
        cb.l("        var w = new BinaryWriter();");
        cb.l("        w.WriteU32((int)handlerId);");
        cb.l("        w.WriteRaw(payload);");
        cb.l("        var body = w.ToBytes();");
        cb.l("        var request = new HttpRequestMessage(HttpMethod.Post, $\"{_baseUrl}/_api\");");
        cb.l("        request.Content = new ByteArrayContent(body);");
        cb.l("        request.Content.Headers.ContentType = new System.Net.Http.Headers.MediaTypeHeaderValue(\"application/octet-stream\");");
        cb.l("        var response = await _httpClient.SendAsync(request);");
        cb.l("        response.EnsureSuccessStatusCode();");
        cb.l("        var respBytes = await response.Content.ReadAsByteArrayAsync();");
        cb.l("        if (respBytes.Length < 9) throw new InvalidOperationException(\"response too short\");");
        cb.l("        int status = respBytes[0];");
        cb.l("        if (status == 1)");
        cb.l("        {");
        cb.l("            long code = BitConverter.ToInt64(respBytes, 1);");
        cb.l("            string msg = Encoding.UTF8.GetString(respBytes, 9, respBytes.Length - 9);");
        cb.l("            throw new InvalidOperationException($\"AfError({code}): {msg}\");");
        cb.l("        }");
        cb.l("        var result = new byte[respBytes.Length - 9];");
        cb.l("        Array.Copy(respBytes, 9, result, 0, result.Length);");
        cb.l("        return result;");
        cb.l("    }");
        cb.b();
    }
    proof {
        reveal(service_http_call);
    }
    assert(cb@ =~= start + service_http_call(has_http));
}

/// The C# client's binary call over the WebSocket.
#[verifier::opaque]
pub open spec fn service_ws_call(has_ws: bool) -> Seq<Seq<char>> {
    (if has_ws {
        seq![
            "    private async Task<byte[]> CallWsAsync(long handlerId, byte[] payload)"@,
            "    {"@,
            "        int id;"@,
            "        var tcs = new TaskCompletionSource<byte[]>();"@,
            "        lock (_lock) { id = _nextId++; _pending[id] = tcs; }"@,
            "        _ = Task.Run(async () => { await Task.Delay(5000); lock (_lock) { if (_pending.Remove(id)) tcs.SetException(new TimeoutException($\"timeout id={id}\")); } });"@,
            "        var w = new BinaryWriter();"@,
            "        w.WriteU32(id);"@,
            "        w.WriteU32((int)handlerId);"@,
            "        w.WriteU32(payload.Length);"@,
            "        w.WriteRaw(payload);"@,
            "        var data = w.ToBytes();"@,
            "        await _ws!.SendAsync(new ArraySegment<byte>(data), WebSocketMessageType.Binary, true, CancellationToken.None);"@,
            "        return await tcs.Task;"@,
            "    }"@,
            Seq::<char>::empty(),
        ]
    } else {
        Seq::<Seq<char>>::empty()
    })
}

fn push_service_ws_call(cb: &mut CodeBuf, has_ws: bool)
    ensures
        final(cb)@ == old(cb)@ + service_ws_call(has_ws),
{
    let ghost start = cb@;
    if has_ws {
        cb.l("    private async Task<byte[]> CallWsAsync(long handlerId, byte[] payload)");
        cb.l("    {");
        cb.l("        int id;");
        cb.l("        var tcs = new TaskCompletionSource<byte[]>();");
        cb.l("        lock (_lock) { id = _nextId++; _pending[id] = tcs; }");
        cb.l("        _ = Task.Run(async () => { await Task.Delay(5000); lock (_lock) { if (_pending.Remove(id)) tcs.SetException(new TimeoutException($\"timeout id={id}\")); } });");
        cb.l("        var w = new BinaryWriter();");
        cb.l("        w.WriteU32(id);");
        cb.l("        w.WriteU32((int)handlerId);");
        cb.l("        w.WriteU32(payload.Length);");
        cb.l("        w.WriteRaw(payload);");
        cb.l("        var data = w.ToBytes();");
        cb.l("        await _ws!.SendAsync(new ArraySegment<byte>(data), WebSocketMessageType.Binary, true, CancellationToken.None);");
        cb.l("        return await tcs.Task;");
        cb.l("    }");
        cb.b();
    }
    proof {
        reveal(service_ws_call);
    }
    assert(cb@ =~= start + service_ws_call(has_ws));
}

/// The C# client's binary call over TCP.
#[verifier::opaque]
pub open spec fn service_tcp_call(has_tcp: bool) -> Seq<Seq<char>> {
    (if has_tcp {
        seq![
            "    private async Task<byte[]> CallTcpAsync(long handlerId, byte[] payload)"@,
            "    {"@,
            "        int id;"@,
            "        var tcs = new TaskCompletionSource<byte[]>();"@,
            "        lock (_lock) { id = _nextId++; _pending[id] = tcs; }"@,
            "        _ = Task.Run(async () => { await Task.Delay(5000); lock (_lock) { if (_pending.Remove(id)) tcs.SetException(new TimeoutException($\"timeout id={id}\")); } });"@,
            "        var inner = new BinaryWriter();"@,
            "        inner.WriteU32(id);"@,
            "        inner.WriteU32((int)handlerId);"@,
            "        inner.WriteU32(payload.Length);"@,
            "        inner.WriteRaw(payload);"@,
            "        var innerBytes = inner.ToBytes();"@,
            "        var envelope = new BinaryWriter();"@,
            "        envelope.WriteU32(innerBytes.Length);"@,
            "        envelope.WriteRaw(innerBytes);"@,
            "        var data = envelope.ToBytes();"@,
            "        await _tcpStream!.WriteAsync(data);"@,
            "        await _tcpStream.FlushAsync();"@,
            "        return await tcs.Task;"@,
            "    }"@,
            Seq::<char>::empty(),
        ]
    } else {
        Seq::<Seq<char>>::empty()
    })
}

fn push_service_tcp_call(cb: &mut CodeBuf, has_tcp: bool)
    ensures
        final(cb)@ == old(cb)@ + service_tcp_call(has_tcp),
{
    let ghost start = cb@;
    if has_tcp {
        cb.l("    private async Task<byte[]> CallTcpAsync(long handlerId, byte[] payload)");
        cb.l("    {");
        cb.l("        int id;");
        cb.l("        var tcs = new TaskCompletionSource<byte[]>();");
        cb.l("        lock (_lock) { id = _nextId++; _pending[id] = tcs; }");
        cb.l("        _ = Task.Run(async () => { await Task.Delay(5000); lock (_lock) { if (_pending.Remove(id)) tcs.SetException(new TimeoutException($\"timeout id={id}\")); } });");
        cb.l("        var inner = new BinaryWriter();");
        cb.l("        inner.WriteU32(id);");
        cb.l("        inner.WriteU32((int)handlerId);");
        cb.l("        inner.WriteU32(payload.Length);");
        cb.l("        inner.WriteRaw(payload);");
        cb.l("        var innerBytes = inner.ToBytes();");
        cb.l("        var envelope = new BinaryWriter();");
        cb.l("        envelope.WriteU32(innerBytes.Length);");
        cb.l("        envelope.WriteRaw(innerBytes);");
        cb.l("        var data = envelope.ToBytes();");
        cb.l("        await _tcpStream!.WriteAsync(data);");
        cb.l("        await _tcpStream.FlushAsync();");
        cb.l("        return await tcs.Task;");
        cb.l("    }");
        cb.b();
    }
    proof {
        reveal(service_tcp_call);
    }
    assert(cb@ =~= start + service_tcp_call(has_tcp));
}

/// The C# client's raw frame sender for long connections.
#[verifier::opaque]
pub open spec fn service_send_raw(has_ws: bool, has_tcp: bool) -> Seq<Seq<char>> {
    (if has_ws || has_tcp {
        seq![
            "    private void _SendRaw(byte[] data)"@,
            "    {"@,
        ] + (if has_ws && has_tcp {
            seq![
                "        if (_transport == Transport.Ws)"@,
                "        {"@,
                "            _ws!.SendAsync(new ArraySegment<byte>(data), WebSocketMessageType.Binary, true, CancellationToken.None).Wait();"@,
                "        }"@,
                "        else"@,
                "        {"@,
                "            var w = new BinaryWriter();"@,
                "            w.WriteU32(data.Length);"@,
                "            w.WriteRaw(data);"@,
                "            _tcpStream!.Write(w.ToBytes());"@,
                "            _tcpStream.Flush();"@,
                "        }"@,
            ]
        } else {
            (if has_ws {
                seq![
                    "        _ws!.SendAsync(new ArraySegment<byte>(data), WebSocketMessageType.Binary, true, CancellationToken.None).Wait();"@,
                ]
            } else {
                seq![
                    "        var w = new BinaryWriter();"@,
                    "        w.WriteU32(data.Length);"@,
                    "        w.WriteRaw(data);"@,
                    "        _tcpStream!.Write(w.ToBytes());"@,
                    "        _tcpStream.Flush();"@,
                ]
            })
        }) + seq![
            "    }"@,
            Seq::<char>::empty(),
        ]
    } else {
        Seq::<Seq<char>>::empty()
    })
}

fn push_service_send_raw(cb: &mut CodeBuf, has_ws: bool, has_tcp: bool)
    ensures
        final(cb)@ == old(cb)@ + service_send_raw(has_ws, has_tcp),
{
    let ghost start = cb@;
    if has_ws || has_tcp {
        cb.l("    private void _SendRaw(byte[] data)");
        cb.l("    {");
        if has_ws && has_tcp {
            cb.l("        if (_transport == Transport.Ws)");
            cb.l("        {");
            cb.l("            _ws!.SendAsync(new ArraySegment<byte>(data), WebSocketMessageType.Binary, true, CancellationToken.None).Wait();");
            cb.l("        }");
            cb.l("        else");
            cb.l("        {");
            cb.l("            var w = new BinaryWriter();");
            cb.l("            w.WriteU32(data.Length);");
            cb.l("            w.WriteRaw(data);");
            cb.l("            _tcpStream!.Write(w.ToBytes());");
            cb.l("            _tcpStream.Flush();");
            cb.l("        }");
        } else {
            if has_ws {
                cb.l("        _ws!.SendAsync(new ArraySegment<byte>(data), WebSocketMessageType.Binary, true, CancellationToken.None).Wait();");
            } else {
                cb.l("        var w = new BinaryWriter();");
                cb.l("        w.WriteU32(data.Length);");
                cb.l("        w.WriteRaw(data);");
                cb.l("        _tcpStream!.Write(w.ToBytes());");
                cb.l("        _tcpStream.Flush();");
            }
        }
        cb.l("    }");
        cb.b();
    }
    proof {
        reveal(service_send_raw);
    }
    assert(cb@ =~= start + service_send_raw(has_ws, has_tcp));
}

/// The C# client's disposal and the end of its class.
#[verifier::opaque]
pub open spec fn service_dispose(has_ws: bool, has_tcp: bool) -> Seq<Seq<char>> {
    seq![
        "    public async ValueTask DisposeAsync()"@,
        "    {"@,
    ] + (if has_ws {
        seq![
            "        if (_ws != null && _ws.State == WebSocketState.Open)"@,
            "            await _ws.CloseAsync(WebSocketCloseStatus.NormalClosure, \"dispose\", CancellationToken.None);"@,
            "        _ws?.Dispose();"@,
        ]
    } else {
        Seq::<Seq<char>>::empty()
    }) + (if has_tcp {
        seq![
            "        _tcpStream?.Close();"@,
            "        _tcpClient?.Close();"@,
        ]
    } else {
        Seq::<Seq<char>>::empty()
    }) + seq![
        "        _httpClient.Dispose();"@,
        "    }"@,
        "}"@,
    ]
}

fn push_service_dispose(cb: &mut CodeBuf, has_ws: bool, has_tcp: bool)
    ensures
        final(cb)@ == old(cb)@ + service_dispose(has_ws, has_tcp),
{
    let ghost start = cb@;
    cb.l("    public async ValueTask DisposeAsync()");
    cb.l("    {");
    if has_ws {
        cb.l("        if (_ws != null && _ws.State == WebSocketState.Open)");
        cb.l("            await _ws.CloseAsync(WebSocketCloseStatus.NormalClosure, \"dispose\", CancellationToken.None);");
        cb.l("        _ws?.Dispose();");
    }
    if has_tcp {
        cb.l("        _tcpStream?.Close();");
        cb.l("        _tcpClient?.Close();");
    }
    cb.l("        _httpClient.Dispose();");
    cb.l("    }");
    cb.l("}");
    proof {
        reveal(service_dispose);
    }
    assert(cb@ =~= start + service_dispose(has_ws, has_tcp));
}

/// The transports a client's `Transport` enum lists: those requested, in
/// the order HTTP, WebSocket, TCP; HTTP alone when none is.
pub open spec fn transport_list(has_http: bool, has_ws: bool, has_tcp: bool) -> Seq<Seq<char>> {
    let v = (if has_http { seq!["Http"@] } else { Seq::empty() }) + (if has_ws {
        seq!["Ws"@]
    } else {
        Seq::empty()
    }) + (if has_tcp { seq!["Tcp"@] } else { Seq::empty() });
    if v.len() == 0 {
        seq!["Http"@]
    } else {
        v
    }
}

/// The transport a client uses when none is chosen: the first requested.
pub open spec fn default_transport(has_http: bool, has_ws: bool) -> Seq<char> {
    if has_http {
        "Http"@
    } else if has_ws {
        "Ws"@
    } else {
        "Tcp"@
    }
}

/// Some handler or top-level ordinary route of the service caches its
/// results.
pub open spec fn service_has_cache(svc: Service) -> bool {
    (svc.handlers@.len() > 0 && any_cache(svc.handlers@)) || exists|i: int|
        0 <= i < svc.ordinary_routes@.len() && (#[trigger] svc.ordinary_routes@[i]).meta.cache_seconds > 0
}

/// A group class name without its `Api` suffix.
pub open spec fn strip_api(gn: Seq<char>) -> Seq<char> {
    if "Api"@.is_suffix_of(gn) {
        gn.subrange(0, gn.len() - 3)
    } else {
        gn
    }
}

/// The constructor lines that create each group class.
pub open spec fn group_inits(names: Seq<Seq<char>>) -> Seq<Seq<char>> {
    names.map_values(
        |gn: Seq<char>| "            this."@ + camel(strip_api(gn)) + " = new "@ + gn + "(client);"@,
    )
}

/// The client class's header: its declaration and the transport enum.
pub open spec fn service_class_head(cn: Seq<char>, has_http: bool, has_ws: bool, has_tcp: bool) -> Seq<Seq<char>> {
    seq![
        "public class "@ + cn + "Client : IAsyncDisposable"@,
        "{"@,
        "    public enum Transport { "@ + join_seq(transport_list(has_http, has_ws, has_tcp), ", "@)
            + " }"@,
        Seq::empty(),
    ]
}

/// The API class that holds the handler groups and methods.
pub open spec fn service_apis(svc: Service, cn: Seq<char>, debug: bool) -> Seq<Seq<char>> {
    seq![
        "    public class "@ + cn + "Apis"@,
        "    {"@,
        "        private readonly "@ + cn + "Client _client;"@,
        Seq::empty(),
    ] + handler_object(svc.handlers@, Seq::empty(), "    "@, cn, debug) + seq![
        "        public "@ + cn + "Apis("@ + cn + "Client client)"@,
        "        {"@,
        "            _client = client;"@,
    ] + group_inits(group_names(svc.handlers@)) + seq![
        "        }"@,
        "    }"@,
        Seq::empty(),
        "    public "@ + cn + "Apis Apis { get; }"@,
    ]
}

/// The lines of a service's C# client file.
pub open spec fn service_lines(svc: Service, calls: Seq<NetCallType>, debug: bool) -> Seq<Seq<char>> {
    let has_http = calls.contains(NetCallType::Http);
    let has_ws = calls.contains(NetCallType::Ws);
    let has_tcp = calls.contains(NetCallType::Tcp);
    let cn = pascal(svc.name@);
    service_usings(has_ws, has_tcp, cn) + tree_exports(
        svc.handlers@,
        Seq::empty(),
        (Seq::empty(), Seq::empty()),
    ).0 + seq![Seq::empty()] + service_class_head(cn, has_http, has_ws, has_tcp) + service_fields(
        debug,
        has_ws,
        has_tcp,
        service_has_cache(svc),
    ) + service_ctor(has_ws, has_tcp, cn, default_transport(has_http, has_ws)) + service_tcp_init(
        has_tcp,
    ) + service_ws_init(has_ws) + service_handle_message(has_ws, has_tcp) + service_call(
        has_http,
        has_ws,
        has_tcp,
    ) + service_http_call(has_http) + service_ws_call(has_ws) + service_tcp_call(has_tcp)
        + service_send_raw(has_ws, has_tcp) + service_apis(svc, cn, debug) + cs_streams(svc.ws_routes@, false)
        + cs_streams(svc.sse_routes@, true) + service_dispose(has_ws, has_tcp)
}

/// A service's handlers can all be turned into C# types and methods.
pub open spec fn service_ok(svc: Service) -> bool {
    exports_ok(svc.handlers@, Seq::empty()) && object_ok(svc.handlers@, Seq::empty())
}

/// Whether the transports `calls` include `c`.
pub fn has_call(calls: &Vec<NetCallType>, c: NetCallType) -> (r: bool)
    ensures
        r == calls@.contains(c),
{
    let mut i: usize = 0;
    while i < calls.len()
        invariant
            i <= calls@.len(),
            forall|j: int| 0 <= j < i ==> calls@[j] != c,
        decreases calls@.len() - i,
    {
        if calls[i] == c {
            assert(calls@[i as int] == c);
            return true;
        }
        i = i + 1;
    }
    false
}

fn routes_cache(svc: &Service) -> (r: bool)
    ensures
        r == exists|i: int|
            0 <= i < svc.ordinary_routes@.len() && (#[trigger] svc.ordinary_routes@[i]).meta.cache_seconds > 0,
{
    let rs = &svc.ordinary_routes;
    let mut i: usize = 0;
    while i < rs.len()
        invariant
            i <= rs@.len(),
            rs == &svc.ordinary_routes,
            forall|j: int| 0 <= j < i ==> !((#[trigger] rs@[j]).meta.cache_seconds > 0),
        decreases rs@.len() - i,
    {
        if rs[i].meta.cache_seconds > 0 {
            assert(rs@[i as int].meta.cache_seconds > 0);
            return true;
        }
        i = i + 1;
    }
    false
}

fn transport_enum_line(has_http: bool, has_ws: bool, has_tcp: bool) -> (r: String)
    ensures
        r@ == "    public enum Transport { "@ + join_seq(transport_list(has_http, has_ws, has_tcp), ", "@)
            + " }"@,
{
    let mut v: Vec<String> = Vec::new();
    let ghost v0 = views(v@);
    if has_http {
        v.push(owned("Http"));
    }
    if has_ws {
        v.push(owned("Ws"));
    }
    if has_tcp {
        v.push(owned("Tcp"));
    }
    assert(views(v@) =~= (if has_http { seq!["Http"@] } else { Seq::<Seq<char>>::empty() }) + (if has_ws {
        seq!["Ws"@]
    } else {
        Seq::<Seq<char>>::empty()
    }) + (if has_tcp { seq!["Tcp"@] } else { Seq::<Seq<char>>::empty() }));
    if v.len() == 0 {
        v.push(owned("Http"));
        assert(views(v@) =~= seq!["Http"@]);
    }
    let j = join(&v, ", ");
    cat3("    public enum Transport { ", j.as_str(), " }")
}

fn strip_api_text(gn: &str) -> (r: String)
    ensures
        r@ == strip_api(gn@),
{
    if ends_with(gn, "Api") {
        proof {
            reveal_strlit("Api");
        }
        let v = chars_of(gn);
        string_of_range(&v, 0, v.len() - 3)
    } else {
        owned(gn)
    }
}

fn push_group_inits(cb: &mut CodeBuf, names: &Vec<String>)
    ensures
        final(cb)@ == old(cb)@ + group_inits(views(names@)),
{
    let ghost start = cb@;
    let mut i: usize = 0;
    while i < names.len()
        invariant
            i <= names@.len(),
            cb@ == start + group_inits(views(names@).subrange(0, i as int)),
        decreases names@.len() - i,
    {
        let gn = names[i].as_str();
        let base = strip_api_text(gn);
        let prop = to_camel_case(base.as_str());
        cb.push(cat5("            this.", prop.as_str(), " = new ", gn, "(client);"));
        assert(group_inits(views(names@).subrange(0, i + 1)) =~= group_inits(
            views(names@).subrange(0, i as int),
        ).push("            this."@ + camel(strip_api(gn@)) + " = new "@ + gn@ + "(client);"@));
        i = i + 1;
    }
    assert(views(names@).subrange(0, names@.len() as int) =~= views(names@));
}

fn push_service_apis(cb: &mut CodeBuf, svc: &Service, cn: &str, debug: bool)
    requires
        object_ok(svc.handlers@, Seq::empty()),
    ensures
        final(cb)@ == old(cb)@ + service_apis(*svc, cn@, debug),
{
    let ghost start = cb@;
    cb.push(cat3("    public class ", cn, "Apis"));
    cb.l("    {");
    cb.push(cat3("        private readonly ", cn, "Client _client;"));
    cb.b();
    let ghost s1 = cb@;
    let mut group_names_v: Vec<String> = Vec::new();
    collect_group_names_cs(&svc.handlers, &mut group_names_v);
    assert(views(group_names_v@) =~= group_names(svc.handlers@));
    let empty_path: Vec<String> = Vec::new();
    assert(views(empty_path@) =~= Seq::<Seq<char>>::empty());
    gen_handler_object_cs(&svc.handlers, &svc.handlers, &empty_path, "    ", cn, debug, cb);
    proof {
        reveal_strlit("    ");
    }
    let ghost s2 = cb@;
    cb.push(cat5("        public ", cn, "Apis(", cn, "Client client)"));
    cb.l("        {");
    cb.l("            _client = client;");
    let ghost s3 = cb@;
    push_group_inits(cb, &group_names_v);
    let ghost s4 = cb@;
    cb.l("        }");
    cb.l("    }");
    cb.b();
    cb.push(cat3("    public ", cn, "Apis Apis { get; }"));
    assert(cb@ =~= start + service_apis(*svc, cn@, debug));
}

/// Generates the C# client file of a service: its types, a client class
/// that calls the server over the requested transports (HTTP when none is
/// requested), the API classes with one method per handler, and a method
/// per WebSocket and server-sent-events route.
#[verifier::rlimit(60)]
pub fn generate_service_cs(svc: &Service, calls: &Vec<NetCallType>, debug: bool) -> (r: String)
    requires
        service_ok(*svc),
    ensures
        r@ == build_lines(service_lines(*svc, calls@, debug)),
{
    let has_http = has_call(calls, NetCallType::Http);
    let has_ws = has_call(calls, NetCallType::Ws);
    let has_tcp = has_call(calls, NetCallType::Tcp);
    let class_name = to_pascal_case(svc.name.as_str());
    let cn = class_name.as_str();
    let mut cb = CodeBuf::new();
    push_service_usings(&mut cb, has_ws, has_tcp, cn);
    let mut exports = CodeBuf::new();
    let mut emitted: Vec<String> = Vec::new();
    let empty_path: Vec<String> = Vec::new();
    assert(views(empty_path@) =~= Seq::<Seq<char>>::empty());
    assert(views(emitted@) =~= Seq::<Seq<char>>::empty());
    collect_type_exports_cs(&svc.handlers, &empty_path, &mut emitted, &mut exports);
    cb.extend(exports);
    cb.b();
    let has_cache = (svc.handlers.len() > 0 && has_cache_handlers(&svc.handlers)) || routes_cache(svc);
    cb.push(cat3("public class ", cn, "Client : IAsyncDisposable"));
    cb.l("{");
    cb.push(transport_enum_line(has_http, has_ws, has_tcp));
    cb.b();
    push_service_fields(&mut cb, debug, has_ws, has_tcp, has_cache);
    let dt = if has_http {
        "Http"
    } else if has_ws {
        "Ws"
    } else {
        "Tcp"
    };
    push_service_ctor(&mut cb, has_ws, has_tcp, cn, dt);
    push_service_tcp_init(&mut cb, has_tcp);
    push_service_ws_init(&mut cb, has_ws);
    push_service_handle_message(&mut cb, has_ws, has_tcp);
    push_service_call(&mut cb, has_http, has_ws, has_tcp);
    push_service_http_call(&mut cb, has_http);
    push_service_ws_call(&mut cb, has_ws);
    push_service_tcp_call(&mut cb, has_tcp);
    push_service_send_raw(&mut cb, has_ws, has_tcp);
    push_service_apis(&mut cb, svc, cn, debug);
    push_cs_streams(&mut cb, &svc.ws_routes, false);
    push_cs_streams(&mut cb, &svc.sse_routes, true);
    push_service_dispose(&mut cb, has_ws, has_tcp);
    assert(cb@ =~= service_lines(*svc, calls@, debug));
    cb.build()
}

/// The client files of the named services, for every transport and
/// without debug output.
pub open spec fn named_service_texts(svcs: Seq<Service>) -> Seq<Seq<char>>
    decreases svcs.len(),
{
    if svcs.len() == 0 {
        Seq::empty()
    } else {
        let rest = named_service_texts(svcs.drop_last());
        let s = svcs.last();
        if s.name@.len() > 0 {
            rest.push(build_lines(service_lines(s, all_calls(), false)))
        } else {
            rest
        }
    }
}

/// Every transport, in the order HTTP, WebSocket, TCP.
pub open spec fn all_calls() -> Seq<NetCallType> {
    seq![NetCallType::Http, NetCallType::Ws, NetCallType::Tcp]
}

/// Every named service's handlers can be turned into C# code.
pub open spec fn named_services_ok(svcs: Seq<Service>) -> bool {
    &&& services_ok(svcs)
    &&& forall|i: int| 0 <= i < svcs.len() && #[trigger] svcs[i].name@.len() > 0 ==> service_ok(svcs[i])
}

/// The whole C# output: the shared file, then each named service's file,
/// separated by blank lines.
pub open spec fn cs_code(svcs: Seq<Service>) -> Seq<char> {
    join_seq(seq![common_text(svcs, true, true)] + named_service_texts(svcs), "\n\n"@)
}

impl AFast {
    /// Returns the complete generated C# code as a single string.
    pub fn get_cs_code(&self) -> (r: String)
        requires
            named_services_ok(self.services@),
        ensures
            r@ == cs_code(self.services@),
    {
        let common = generate_common_cs(&self.services, false, true, true);
        let mut parts: Vec<String> = Vec::new();
        parts.push(common);
        let mut calls: Vec<NetCallType> = Vec::new();
        calls.push(NetCallType::Http);
        calls.push(NetCallType::Ws);
        calls.push(NetCallType::Tcp);
        assert(calls@ =~= all_calls());
        let mut i: usize = 0;
        while i < self.services.len()
            invariant
                i <= self.services@.len(),
                named_services_ok(self.services@),
                calls@ == all_calls(),
                views(parts@) == seq![common_text(self.services@, true, true)] + named_service_texts(
                    self.services@.subrange(0, i as int),
                ),
            decreases self.services@.len() - i,
        {
            let svc = &self.services[i];
            proof {
                assert(self.services@.subrange(0, i + 1).drop_last() =~= self.services@.subrange(0, i as int));
            }
            if svc.name.unicode_len() > 0 {
                assert(service_ok(self.services@[i as int]));
                let text = generate_service_cs(svc, &calls, false);
                let ghost p0 = views(parts@);
                parts.push(text);
                assert(views(parts@) =~= p0.push(text@));
            }
            i = i + 1;
        }
        assert(self.services@.subrange(0, self.services@.len() as int) =~= self.services@);
        join(&parts, "\n\n")
    }
}

} // verus!
