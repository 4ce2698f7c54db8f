//! The shared C# file: binary reader and writer, error types, the socket
//! class, and the types shared between services.

use vstd::prelude::*;
use crate::buf::{build_lines, CodeBuf};
use crate::collect::{add_unique, collect_types, tree_params, types_with};
use crate::cs::exports::{collect_custom_type_exports_cs, collect_header_type_exports_cs, shared_exports, Emission};
use crate::meta_spec::tree_ok;
use crate::model::Service;
use crate::text::views;

verus! {

/// The file header of the shared C# file: usings and namespace.
#[verifier::opaque]
pub open spec fn common_usings(has_ws: bool, has_tcp: bool) -> Seq<Seq<char>> {
    seq![
        "// Auto-generated by afast. DO NOT EDIT."@,
        "#pragma warning disable CS8618, CS8603, CS8604, CS0649"@,
        "using System;"@,
        "using System.Collections.Generic;"@,
        "using System.IO;"@,
    ] + (if has_ws || has_tcp {
        seq![
            "using System.Net.Sockets;"@,
        ]
    } else {
        Seq::<Seq<char>>::empty()
    }) + (if has_ws {
        seq![
            "using System.Net.WebSockets;"@,
        ]
    } else {
        Seq::<Seq<char>>::empty()
    }) + seq![
        "using System.Text;"@,
        "using System.Text.Json;"@,
        "using System.Threading;"@,
        "using System.Threading.Tasks;"@,
        Seq::<char>::empty(),
        "namespace Afast.Generated;"@,
        Seq::<char>::empty(),
    ]
}

fn push_common_usings(cb: &mut CodeBuf, has_ws: bool, has_tcp: bool)
    ensures
        final(cb)@ == old(cb)@ + common_usings(has_ws, has_tcp),
{
    let ghost start = cb@;
    cb.l("// Auto-generated by afast. DO NOT EDIT.");
    cb.l("#pragma warning disable CS8618, CS8603, CS8604, CS0649");
    cb.l("using System;");
    cb.l("using System.Collections.Generic;");
    cb.l("using System.IO;");
    if has_ws || has_tcp {
        cb.l("using System.Net.Sockets;");
    }
    if has_ws {
        cb.l("using System.Net.WebSockets;");
    }
    cb.l("using System.Text;");
    cb.l("using System.Text.Json;");
    cb.l("using System.Threading;");
    cb.l("using System.Threading.Tasks;");
    cb.b();
    cb.l("namespace Afast.Generated;");
    cb.b();
    proof {
        reveal(common_usings);
    }
    assert(cb@ =~= start + common_usings(has_ws, has_tcp));
}

/// The shared C# little-endian binary writer.
#[verifier::opaque]
pub open spec fn common_writer() -> Seq<Seq<char>> {
    seq![
        "internal class BinaryWriter"@,
        "{"@,
        "    private readonly List<byte> _buf = new();"@,
        Seq::<char>::empty(),
        "    public void WriteU8(int n) => _buf.Add((byte)(n & 0xFF));"@,
        "    public void WriteI8(int n) => _buf.Add((byte)(n & 0xFF));"@,
        "    public void WriteU16(int n) { _buf.Add((byte)(n & 0xFF)); _buf.Add((byte)((n >> 8) & 0xFF)); }"@,
        "    public void WriteI16(int n) => WriteU16(n);"@,
        "    public void WriteU32(int n) { _buf.Add((byte)(n & 0xFF)); _buf.Add((byte)((n >> 8) & 0xFF)); _buf.Add((byte)((n >> 16) & 0xFF)); _buf.Add((byte)((n >> 24) & 0xFF)); }"@,
        "    public void WriteI32(int n) => WriteU32(n);"@,
        "    public void WriteU64(long n) { WriteU32((int)(n & 0xFFFFFFFF)); WriteU32((int)((n >> 32) & 0xFFFFFFFF)); }"@,
        "    public void WriteI64(long n) => WriteU64(n);"@,
        "    public void WriteF32(float n) { var b = BitConverter.GetBytes(n); _buf.AddRange(b); }"@,
        "    public void WriteF64(double n) { var b = BitConverter.GetBytes(n); _buf.AddRange(b); }"@,
        "    public void WriteBool(bool b) => _buf.Add(b ? (byte)1 : (byte)0);"@,
        "    public void WriteString(string s) { var u = Encoding.UTF8.GetBytes(s); WriteU32(u.Length); _buf.AddRange(u); }"@,
        "    public void WriteBytes(byte[] a) { WriteU32(a.Length); _buf.AddRange(a); }"@,
        "    public void WriteRaw(byte[] a) => _buf.AddRange(a);"@,
        "    public byte[] ToBytes() => _buf.ToArray();"@,
        "}"@,
        Seq::<char>::empty(),
    ]
}

fn push_common_writer(cb: &mut CodeBuf)
    ensures
        final(cb)@ == old(cb)@ + common_writer(),
{
    let ghost start = cb@;
    cb.l("internal class BinaryWriter");
    cb.l("{");
    cb.l("    private readonly List<byte> _buf = new();");
    cb.b();
    cb.l("    public void WriteU8(int n) => _buf.Add((byte)(n & 0xFF));");
    cb.l("    public void WriteI8(int n) => _buf.Add((byte)(n & 0xFF));");
    cb.l("    public void WriteU16(int n) { _buf.Add((byte)(n & 0xFF)); _buf.Add((byte)((n >> 8) & 0xFF)); }");
    cb.l("    public void WriteI16(int n) => WriteU16(n);");
    cb.l("    public void WriteU32(int n) { _buf.Add((byte)(n & 0xFF)); _buf.Add((byte)((n >> 8) & 0xFF)); _buf.Add((byte)((n >> 16) & 0xFF)); _buf.Add((byte)((n >> 24) & 0xFF)); }");
    cb.l("    public void WriteI32(int n) => WriteU32(n);");
    cb.l("    public void WriteU64(long n) { WriteU32((int)(n & 0xFFFFFFFF)); WriteU32((int)((n >> 32) & 0xFFFFFFFF)); }");
    cb.l("    public void WriteI64(long n) => WriteU64(n);");
    cb.l("    public void WriteF32(float n) { var b = BitConverter.GetBytes(n); _buf.AddRange(b); }");
    cb.l("    public void WriteF64(double n) { var b = BitConverter.GetBytes(n); _buf.AddRange(b); }");
    cb.l("    public void WriteBool(bool b) => _buf.Add(b ? (byte)1 : (byte)0);");
    cb.l("    public void WriteString(string s) { var u = Encoding.UTF8.GetBytes(s); WriteU32(u.Length); _buf.AddRange(u); }");
    cb.l("    public void WriteBytes(byte[] a) { WriteU32(a.Length); _buf.AddRange(a); }");
    cb.l("    public void WriteRaw(byte[] a) => _buf.AddRange(a);");
    cb.l("    public byte[] ToBytes() => _buf.ToArray();");
    cb.l("}");
    cb.b();
    proof {
        reveal(common_writer);
    }
    assert(cb@ =~= start + common_writer());
}

/// The shared C# little-endian binary reader.
#[verifier::opaque]
pub open spec fn common_reader() -> Seq<Seq<char>> {
    seq![
        "internal class BinaryReader"@,
        "{"@,
        "    private readonly byte[] _d;"@,
        "    private int _o;"@,
        Seq::<char>::empty(),
        "    public BinaryReader(byte[] d) { _d = d; _o = 0; }"@,
        Seq::<char>::empty(),
        "    public int ReadU8() => _d[_o++] & 0xFF;"@,
        "    public int ReadI8() => (sbyte)_d[_o++];"@,
        "    public int ReadU16() { int v = (_d[_o] & 0xFF) | ((_d[_o + 1] & 0xFF) << 8); _o += 2; return v; }"@,
        "    public int ReadI16() => (short)ReadU16();"@,
        "    public int ReadU32() { int v = (_d[_o] & 0xFF) | ((_d[_o + 1] & 0xFF) << 8) | ((_d[_o + 2] & 0xFF) << 16) | ((_d[_o + 3] & 0xFF) << 24); _o += 4; return v; }"@,
        "    public int ReadI32() => ReadU32();"@,
        "    public long ReadU64() { long lo = (uint)ReadU32(); long hi = (uint)ReadU32(); return (hi << 32) | lo; }"@,
        "    public long ReadI64() => ReadU64();"@,
        "    public float ReadF32() { float v = BitConverter.ToSingle(_d, _o); _o += 4; return v; }"@,
        "    public double ReadF64() { double v = BitConverter.ToDouble(_d, _o); _o += 8; return v; }"@,
        "    public bool ReadBool() => _d[_o++] == 1;"@,
        "    public string ReadString() { int len = ReadU32(); string s = Encoding.UTF8.GetString(_d, _o, len); _o += len; return s; }"@,
        "    public byte[] ReadBytes(int len) { var a = new byte[len]; Array.Copy(_d, _o, a, 0, len); _o += len; return a; }"@,
        "    public byte[] ReadBytesLen() { int len = ReadU32(); return ReadBytes(len); }"@,
        "    public bool Eof => _o >= _d.Length;"@,
        "}"@,
        Seq::<char>::empty(),
    ]
}

fn push_common_reader(cb: &mut CodeBuf)
    ensures
        final(cb)@ == old(cb)@ + common_reader(),
{
    let ghost start = cb@;
    cb.l("internal class BinaryReader");
    cb.l("{");
    cb.l("    private readonly byte[] _d;");
    cb.l("    private int _o;");
    cb.b();
    cb.l("    public BinaryReader(byte[] d) { _d = d; _o = 0; }");
    cb.b();
    cb.l("    public int ReadU8() => _d[_o++] & 0xFF;");
    cb.l("    public int ReadI8() => (sbyte)_d[_o++];");
    cb.l("    public int ReadU16() { int v = (_d[_o] & 0xFF) | ((_d[_o + 1] & 0xFF) << 8); _o += 2; return v; }");
    cb.l("    public int ReadI16() => (short)ReadU16();");
    cb.l("    public int ReadU32() { int v = (_d[_o] & 0xFF) | ((_d[_o + 1] & 0xFF) << 8) | ((_d[_o + 2] & 0xFF) << 16) | ((_d[_o + 3] & 0xFF) << 24); _o += 4; return v; }");
    cb.l("    public int ReadI32() => ReadU32();");
    cb.l("    public long ReadU64() { long lo = (uint)ReadU32(); long hi = (uint)ReadU32(); return (hi << 32) | lo; }");
    cb.l("    public long ReadI64() => ReadU64();");
    cb.l("    public float ReadF32() { float v = BitConverter.ToSingle(_d, _o); _o += 4; return v; }");
    cb.l("    public double ReadF64() { double v = BitConverter.ToDouble(_d, _o); _o += 8; return v; }");
    cb.l("    public bool ReadBool() => _d[_o++] == 1;");
    cb.l("    public string ReadString() { int len = ReadU32(); string s = Encoding.UTF8.GetString(_d, _o, len); _o += len; return s; }");
    cb.l("    public byte[] ReadBytes(int len) { var a = new byte[len]; Array.Copy(_d, _o, a, 0, len); _o += len; return a; }");
    cb.l("    public byte[] ReadBytesLen() { int len = ReadU32(); return ReadBytes(len); }");
    cb.l("    public bool Eof => _o >= _d.Length;");
    cb.l("}");
    cb.b();
    proof {
        reveal(common_reader);
    }
    assert(cb@ =~= start + common_reader());
}

/// The shared C# error types: validation errors and JSON error responses.
#[verifier::opaque]
pub open spec fn common_errors() -> Seq<Seq<char>> {
    seq![
        "public class AFastValidationError : Exception"@,
        "{"@,
        "    public long Code { get; }"@,
        "    public string Field { get; }"@,
        "    public AFastValidationError(long code, string field, string message) : base(message) { Code = code; Field = field; }"@,
        "}"@,
        Seq::<char>::empty(),
        "public class AfastErrorResponse"@,
        "{"@,
        "    public int Code { get; set; }"@,
        "    public string Message { get; set; } = \"\";"@,
        "}"@,
        Seq::<char>::empty(),
    ]
}

fn push_common_errors(cb: &mut CodeBuf)
    ensures
        final(cb)@ == old(cb)@ + common_errors(),
{
    let ghost start = cb@;
    cb.l("public class AFastValidationError : Exception");
    cb.l("{");
    cb.l("    public long Code { get; }");
    cb.l("    public string Field { get; }");
    cb.l("    public AFastValidationError(long code, string field, string message) : base(message) { Code = code; Field = field; }");
    cb.l("}");
    cb.b();
    cb.l("public class AfastErrorResponse");
    cb.l("{");
    cb.l("    public int Code { get; set; }");
    cb.l("    public string Message { get; set; } = \"\";");
    cb.l("}");
    cb.b();
    proof {
        reveal(common_errors);
    }
    assert(cb@ =~= start + common_errors());
}

/// The shared C# long-connection socket class.
#[verifier::opaque]
pub open spec fn common_socket() -> Seq<Seq<char>> {
    seq![
        "public class AfastSocket : IAsyncDisposable"@,
        "{"@,
        "    public int ConnId { get; }"@,
        "    public bool IsClosed { get; private set; }"@,
        "    private bool _closing;"@,
        "    private readonly Action<byte[]> _sendRaw;"@,
        "    private readonly Action<byte[], Action<byte[], Action<object>>> _callback;"@,
        Seq::<char>::empty(),
        "    public AfastSocket(int connId, Action<byte[]> sendRaw, Action<byte[], Action<byte[], Action<object>>> callback)"@,
        "    {"@,
        "        ConnId = connId;"@,
        "        _sendRaw = sendRaw;"@,
        "        _callback = callback;"@,
        "    }"@,
        Seq::<char>::empty(),
        "    public void Send(byte[] data)"@,
        "    {"@,
        "        if (_closing || IsClosed) throw new InvalidOperationException(\"socket closed\");"@,
        "        var w = new BinaryWriter();"@,
        "        w.WriteU32(0);"@,
        "        w.WriteU32(ConnId);"@,
        "        w.WriteU32(data.Length);"@,
        "        w.WriteRaw(data);"@,
        "        _sendRaw(w.ToBytes());"@,
        "    }"@,
        Seq::<char>::empty(),
        "    public async ValueTask DisposeAsync()"@,
        "    {"@,
        "        if (IsClosed) return;"@,
        "        _closing = true;"@,
        "        var w = new BinaryWriter();"@,
        "        w.WriteU32(0);"@,
        "        w.WriteU32(ConnId);"@,
        "        w.WriteU32(0);"@,
        "        _sendRaw(w.ToBytes());"@,
        "        await Task.Delay(500);"@,
        "        IsClosed = true;"@,
        "    }"@,
        Seq::<char>::empty(),
        "    internal void OnMessage(byte[] data)"@,
        "    {"@,
        "        if (_closing && data.Length == 0) { IsClosed = true; _closing = false; return; }"@,
        "        if (!IsClosed) _callback(data, (d, _) => Send(d));"@,
        "    }"@,
        "}"@,
        Seq::<char>::empty(),
    ]
}

fn push_common_socket(cb: &mut CodeBuf)
    ensures
        final(cb)@ == old(cb)@ + common_socket(),
{
    let ghost start = cb@;
    cb.l("public class AfastSocket : IAsyncDisposable");
    cb.l("{");
    cb.l("    public int ConnId { get; }");
    cb.l("    public bool IsClosed { get; private set; }");
    cb.l("    private bool _closing;");
    cb.l("    private readonly Action<byte[]> _sendRaw;");
    cb.l("    private readonly Action<byte[], Action<byte[], Action<object>>> _callback;");
    cb.b();
    cb.l("    public AfastSocket(int connId, Action<byte[]> sendRaw, Action<byte[], Action<byte[], Action<object>>> callback)");
    cb.l("    {");
    cb.l("        ConnId = connId;");
    cb.l("        _sendRaw = sendRaw;");
    cb.l("        _callback = callback;");
    cb.l("    }");
    cb.b();
    cb.l("    public void Send(byte[] data)");
    cb.l("    {");
    cb.l("        if (_closing || IsClosed) throw new InvalidOperationException(\"socket closed\");");
    cb.l("        var w = new BinaryWriter();");
    cb.l("        w.WriteU32(0);");
    cb.l("        w.WriteU32(ConnId);");
    cb.l("        w.WriteU32(data.Length);");
    cb.l("        w.WriteRaw(data);");
    cb.l("        _sendRaw(w.ToBytes());");
    cb.l("    }");
    cb.b();
    cb.l("    public async ValueTask DisposeAsync()");
    cb.l("    {");
    cb.l("        if (IsClosed) return;");
    cb.l("        _closing = true;");
    cb.l("        var w = new BinaryWriter();");
    cb.l("        w.WriteU32(0);");
    cb.l("        w.WriteU32(ConnId);");
    cb.l("        w.WriteU32(0);");
    cb.l("        _sendRaw(w.ToBytes());");
    cb.l("        await Task.Delay(500);");
    cb.l("        IsClosed = true;");
    cb.l("    }");
    cb.b();
    cb.l("    internal void OnMessage(byte[] data)");
    cb.l("    {");
    cb.l("        if (_closing && data.Length == 0) { IsClosed = true; _closing = false; return; }");
    cb.l("        if (!IsClosed) _callback(data, (d, _) => Send(d));");
    cb.l("    }");
    cb.l("}");
    cb.b();
    proof {
        reveal(common_socket);
    }
    assert(cb@ =~= start + common_socket());
}

/// Some named service has parameters with extractor `e`.
pub open spec fn any_shared(svcs: Seq<Service>, e: Seq<char>) -> bool
    decreases svcs.len(),
{
    if svcs.len() == 0 {
        false
    } else {
        any_shared(svcs.drop_last(), e) || (svcs.last().name@.len() > 0 && add_unique(
            Seq::empty(),
            types_with(tree_params(svcs.last().handlers@), e),
        ).len() > 0)
    }
}

/// The shared declarations of the types of extractor `e`, service after
/// named service, with one set of names already declared.
pub open spec fn services_shared(svcs: Seq<Service>, e: Seq<char>, st: Emission) -> Emission
    decreases svcs.len(),
{
    if svcs.len() == 0 {
        st
    } else {
        let st1 = services_shared(svcs.drop_last(), e, st);
        let s = svcs.last();
        if s.name@.len() > 0 {
            shared_exports(s.handlers@, e, st1)
        } else {
            st1
        }
    }
}

/// The block of shared declarations for extractor `e`, followed by a blank
/// line, when some named service uses it.
pub open spec fn shared_block(svcs: Seq<Service>, e: Seq<char>) -> Seq<Seq<char>> {
    if any_shared(svcs, e) {
        services_shared(svcs, e, (Seq::empty(), Seq::empty())).0.push(Seq::empty())
    } else {
        Seq::empty()
    }
}

/// Every named service's handler tree is well formed.
pub open spec fn services_ok(svcs: Seq<Service>) -> bool {
    forall|i: int| 0 <= i < svcs.len() && #[trigger] svcs[i].name@.len() > 0 ==> tree_ok(svcs[i].handlers@)
}

/// The shared C# file for `svcs`.
pub open spec fn common_text(svcs: Seq<Service>, has_ws: bool, has_tcp: bool) -> Seq<char> {
    build_lines(
        common_usings(has_ws, has_tcp) + common_writer() + common_reader() + common_errors()
            + common_socket() + shared_block(svcs, "Custom"@) + shared_block(svcs, "Header"@),
    )
}

pub(crate) fn any_shared_exec(services: &Vec<Service>, e: &str) -> (r: bool)
    ensures
        r == any_shared(services@, e@),
{
    let mut r = false;
    let mut i: usize = 0;
    while i < services.len()
        invariant
            i <= services@.len(),
            r == any_shared(services@.subrange(0, i as int), e@),
        decreases services@.len() - i,
    {
        let s = &services[i];
        proof {
            assert(services@.subrange(0, i + 1).drop_last() =~= services@.subrange(0, i as int));
        }
        if s.name.unicode_len() > 0 {
            let ts = collect_types(&s.handlers, e);
            if ts.len() > 0 {
                r = true;
            }
        }
        i = i + 1;
    }
    assert(services@.subrange(0, services@.len() as int) =~= services@);
    r
}

fn push_shared_block(cb: &mut CodeBuf, services: &Vec<Service>, e: &str)
    requires
        services_ok(services@),
        e@ == "Custom"@ || e@ == "Header"@,
    ensures
        final(cb)@ == old(cb)@ + shared_block(services@, e@),
{
    if any_shared_exec(services, e) {
        let mut local = CodeBuf::new();
        let mut emitted: Vec<String> = Vec::new();
        let path: Vec<String> = Vec::new();
        let mut i: usize = 0;
        proof {
            assert(views(emitted@) =~= Seq::<Seq<char>>::empty());
        }
        while i < services.len()
            invariant
                i <= services@.len(),
                services_ok(services@),
                e@ == "Custom"@ || e@ == "Header"@,
                (local@, views(emitted@)) == services_shared(
                    services@.subrange(0, i as int),
                    e@,
                    (Seq::empty(), Seq::empty()),
                ),
            decreases services@.len() - i,
        {
            let s = &services[i];
            proof {
                assert(services@.subrange(0, i + 1).drop_last() =~= services@.subrange(0, i as int));
            }
            if s.name.unicode_len() > 0 {
                assert(tree_ok(services@[i as int].handlers@));
                if str_is_custom(e) {
                    collect_custom_type_exports_cs(&s.handlers, &path, &mut emitted, &mut local);
                } else {
                    collect_header_type_exports_cs(&s.handlers, &path, &mut emitted, &mut local);
                }
            }
            i = i + 1;
        }
        assert(services@.subrange(0, services@.len() as int) =~= services@);
        local.b();
        cb.extend(local);
    } else {
        assert(cb@ =~= old(cb)@ + Seq::<Seq<char>>::empty());
    }
}

fn str_is_custom(e: &str) -> (r: bool)
    requires
        e@ == "Custom"@ || e@ == "Header"@,
    ensures
        r == (e@ == "Custom"@),
{
    proof {
        reveal_strlit("Custom");
        reveal_strlit("Header");
    }
    crate::text::str_eq(e, "Custom")
}

/// Generates the shared C# file: the binary reader and writer, the error
/// types, the socket class for long connections, and the types of every
/// named service's `Custom` and `Header` parameters, each declared once.
pub fn generate_common_cs(services: &Vec<Service>, seq64: bool, has_ws: bool, has_tcp: bool) -> (r: String)
    requires
        services_ok(services@),
    ensures
        r@ == common_text(services@, has_ws, has_tcp),
{
    let mut cb = CodeBuf::new();
    push_common_usings(&mut cb, has_ws, has_tcp);
    push_common_writer(&mut cb);
    push_common_reader(&mut cb);
    push_common_errors(&mut cb);
    push_common_socket(&mut cb);
    proof {
        reveal_strlit("Custom");
        reveal_strlit("Header");
    }
    push_shared_block(&mut cb, services, "Custom");
    push_shared_block(&mut cb, services, "Header");
    assert(cb@ =~= common_usings(has_ws, has_tcp) + common_writer() + common_reader() + common_errors()
        + common_socket() + shared_block(services@, "Custom"@) + shared_block(services@, "Header"@));
    cb.build()
}

} // verus!
