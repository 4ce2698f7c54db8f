//! A service's JavaScript client module: the socket class, typedefs, and a
//! client class with every requested transport and the `apis` object.

use vstd::prelude::*;
use crate::buf::{build_lines, CodeBuf};
use crate::collect::{any_cache, any_ordinary, collect_customs, customs_of, has_cache_handlers, has_ordinary_handlers};
use crate::cs::exports::{exports_ok, Emission};
use crate::js::objects::js_object_ok;
use crate::js::streams::{js_streams, push_js_streams};
use crate::headers::{is_standard_header, standard_header};
use crate::js::exports::{collect_type_exports_js, tree_exports};
use crate::js::objects::{generate_handler_object_js, object_lines};
use crate::model::{AFast, FieldMeta, Handler, JsTsCallType, OrdinaryRoute, ParamMeta, Service, TagKind};
use crate::naming::{pascal, to_pascal_case};
use crate::text::{cat2, cat3, cat4, cat5, cat6, cat7, contains_str, join, join_seq, owned, replace_char, replace_char_seq, str_eq, views};

verus! {

/// The head of a JavaScript client module, with the Node.js TCP import when needed.
#[verifier::opaque]
pub open spec fn js_head(has_nodetcp: bool) -> Seq<Seq<char>> {
    seq![
        "// Auto-generated by afast. DO NOT EDIT."@,
        Seq::<char>::empty(),
    ] + (if has_nodetcp {
        seq![
            "import { createConnection } from 'node:net';"@,
            Seq::<char>::empty(),
        ]
    } else {
        Seq::<Seq<char>>::empty()
    })
}

fn push_js_head(cb: &mut CodeBuf, has_nodetcp: bool)
    ensures
        final(cb)@ == old(cb)@ + js_head(has_nodetcp),
{
    let ghost start = cb@;
    let ghost g1 = cb@;
    cb.l("// Auto-generated by afast. DO NOT EDIT.");
    cb.b();
    assert(cb@ =~= g1 + seq![
        "// Auto-generated by afast. DO NOT EDIT."@,
        Seq::<char>::empty(),
    ]);
    let ghost g2 = cb@;
    if has_nodetcp {
        let ghost g3 = cb@;
        cb.l("import { createConnection } from 'node:net';");
        cb.b();
        assert(cb@ =~= g3 + seq![
            "import { createConnection } from 'node:net';"@,
            Seq::<char>::empty(),
        ]);
        assert(cb@ =~= g2 + seq![
            "import { createConnection } from 'node:net';"@,
            Seq::<char>::empty(),
        ]);
    } else {
        assert(cb@ =~= g2 + Seq::<Seq<char>>::empty());
    }
    assert(cb@ =~= g2 + (if has_nodetcp {
        seq![
            "import { createConnection } from 'node:net';"@,
            Seq::<char>::empty(),
        ]
    } else {
        Seq::<Seq<char>>::empty()
    }));
    proof {
        reveal(js_head);
    }
    assert(cb@ =~= start + js_head(has_nodetcp));
}

/// The `Socket` class of long connections, present with a WebSocket or TCP transport.
#[verifier::opaque]
pub open spec fn js_socket(has_sock: bool) -> Seq<Seq<char>> {
    (if has_sock {
        seq![
            "export class Socket {"@,
            "    /** @type {number} */"@,
            "    _connId;"@,
            "    /** @type {any} */"@,
            "    _client;"@,
            "    _closing = false;"@,
            "    _closed = false;"@,
            "    /** @type {(() => void)|undefined} */"@,
            "    _closeResolve;"@,
            "    /** @type {((data: Uint8Array, send: (data: string | Uint8Array | any) => void) => void)|undefined} */"@,
            "    _callback;"@,
            ""@,
            "    /**"@,
            "     * @param {number} connId"@,
            "     * @param {any} client"@,
            "     * @param {(data: Uint8Array, send: (data: string | Uint8Array | any) => void) => void} callback"@,
            "     */"@,
            "    constructor(connId, client, callback) {"@,
            "        this._connId = connId;"@,
            "        this._client = client;"@,
            "        this._callback = callback;"@,
            "    }"@,
            ""@,
            "    /** @returns {number} */"@,
            "    get connId() { return this._connId; }"@,
            "    /** @returns {boolean} */"@,
            "    get isClosed() { return this._closed; }"@,
            ""@,
            "    /**"@,
            "     * @param {string|Uint8Array|any} data"@,
            "     */"@,
            "    send(data) {"@,
            "        if (this._closing || this._closed) throw new Error('socket closed');"@,
            "        let payload;"@,
            "        if (typeof data === 'string') {"@,
            "            payload = new TextEncoder().encode(data);"@,
            "        } else if (data instanceof Uint8Array) {"@,
            "            payload = data;"@,
            "        } else {"@,
            "            payload = new TextEncoder().encode(JSON.stringify(data));"@,
            "        }"@,
            "        const buf = new ArrayBuffer(12 + payload.length);"@,
            "        const v = new DataView(buf);"@,
            "        v.setUint32(0, 0, true);"@,
            "        v.setUint32(4, this._connId, true);"@,
            "        v.setUint32(4 + 4, payload.length, true);"@,
            "        new Uint8Array(buf).set(payload, 12);"@,
            "        this._client._sendRaw(new Uint8Array(buf));"@,
            "    }"@,
            ""@,
            "    /** @returns {Promise<void>} */"@,
            "    async close() {"@,
            "        if (this._closed) return;"@,
            "        this._closing = true;"@,
            "        const buf = new ArrayBuffer(12);"@,
            "        const v = new DataView(buf);"@,
            "        v.setUint32(0, 0, true);"@,
            "        v.setUint32(4, this._connId, true);"@,
            "        v.setUint32(4 + 4, 0, true);"@,
            "        this._client._sendRaw(new Uint8Array(buf));"@,
            "        return new Promise(resolve => { this._closeResolve = resolve; });"@,
            "    }"@,
            ""@,
            "    /** @param {Uint8Array} data */"@,
            "    _onMessage(data) {"@,
            "        if (this._closing && data.length === 0) {"@,
            "            this._closed = true;"@,
            "            this._closing = false;"@,
            "            this._closeResolve?.();"@,
            "            return;"@,
            "        }"@,
            "        if (!this._closed) {"@,
            "            this._callback?.(data, this.send.bind(this));"@,
            "        }"@,
            "    }"@,
            "}"@,
        ]
    } else {
        Seq::<Seq<char>>::empty()
    })
}

fn push_js_socket(cb: &mut CodeBuf, has_sock: bool)
    ensures
        final(cb)@ == old(cb)@ + js_socket(has_sock),
{
    let ghost start = cb@;
    let ghost g4 = cb@;
    if has_sock {
        let ghost g5 = cb@;
        cb.l("export class Socket {");
        cb.l("    /** @type {number} */");
        cb.l("    _connId;");
        cb.l("    /** @type {any} */");
        cb.l("    _client;");
        cb.l("    _closing = false;");
        cb.l("    _closed = false;");
        cb.l("    /** @type {(() => void)|undefined} */");
        cb.l("    _closeResolve;");
        cb.l("    /** @type {((data: Uint8Array, send: (data: string | Uint8Array | any) => void) => void)|undefined} */");
        cb.l("    _callback;");
        cb.l("");
        cb.l("    /**");
        cb.l("     * @param {number} connId");
        cb.l("     * @param {any} client");
        cb.l("     * @param {(data: Uint8Array, send: (data: string | Uint8Array | any) => void) => void} callback");
        cb.l("     */");
        cb.l("    constructor(connId, client, callback) {");
        cb.l("        this._connId = connId;");
        cb.l("        this._client = client;");
        cb.l("        this._callback = callback;");
        cb.l("    }");
        cb.l("");
        cb.l("    /** @returns {number} */");
        cb.l("    get connId() { return this._connId; }");
        cb.l("    /** @returns {boolean} */");
        cb.l("    get isClosed() { return this._closed; }");
        cb.l("");
        cb.l("    /**");
        cb.l("     * @param {string|Uint8Array|any} data");
        cb.l("     */");
        cb.l("    send(data) {");
        cb.l("        if (this._closing || this._closed) throw new Error('socket closed');");
        cb.l("        let payload;");
        cb.l("        if (typeof data === 'string') {");
        cb.l("            payload = new TextEncoder().encode(data);");
        cb.l("        } else if (data instanceof Uint8Array) {");
        cb.l("            payload = data;");
        cb.l("        } else {");
        cb.l("            payload = new TextEncoder().encode(JSON.stringify(data));");
        cb.l("        }");
        cb.l("        const buf = new ArrayBuffer(12 + payload.length);");
        cb.l("        const v = new DataView(buf);");
        cb.l("        v.setUint32(0, 0, true);");
        cb.l("        v.setUint32(4, this._connId, true);");
        cb.l("        v.setUint32(4 + 4, payload.length, true);");
        cb.l("        new Uint8Array(buf).set(payload, 12);");
        cb.l("        this._client._sendRaw(new Uint8Array(buf));");
        cb.l("    }");
        cb.l("");
        cb.l("    /** @returns {Promise<void>} */");
        cb.l("    async close() {");
        cb.l("        if (this._closed) return;");
        cb.l("        this._closing = true;");
        cb.l("        const buf = new ArrayBuffer(12);");
        cb.l("        const v = new DataView(buf);");
        cb.l("        v.setUint32(0, 0, true);");
        cb.l("        v.setUint32(4, this._connId, true);");
        cb.l("        v.setUint32(4 + 4, 0, true);");
        cb.l("        this._client._sendRaw(new Uint8Array(buf));");
        cb.l("        return new Promise(resolve => { this._closeResolve = resolve; });");
        cb.l("    }");
        cb.l("");
        cb.l("    /** @param {Uint8Array} data */");
        cb.l("    _onMessage(data) {");
        cb.l("        if (this._closing && data.length === 0) {");
        cb.l("            this._closed = true;");
        cb.l("            this._closing = false;");
        cb.l("            this._closeResolve?.();");
        cb.l("            return;");
        cb.l("        }");
        cb.l("        if (!this._closed) {");
        cb.l("            this._callback?.(data, this.send.bind(this));");
        cb.l("        }");
        cb.l("    }");
        cb.l("}");
        assert(cb@ =~= g5 + seq![
            "export class Socket {"@,
            "    /** @type {number} */"@,
            "    _connId;"@,
            "    /** @type {any} */"@,
            "    _client;"@,
            "    _closing = false;"@,
            "    _closed = false;"@,
            "    /** @type {(() => void)|undefined} */"@,
            "    _closeResolve;"@,
            "    /** @type {((data: Uint8Array, send: (data: string | Uint8Array | any) => void) => void)|undefined} */"@,
            "    _callback;"@,
            ""@,
            "    /**"@,
            "     * @param {number} connId"@,
            "     * @param {any} client"@,
            "     * @param {(data: Uint8Array, send: (data: string | Uint8Array | any) => void) => void} callback"@,
            "     */"@,
            "    constructor(connId, client, callback) {"@,
            "        this._connId = connId;"@,
            "        this._client = client;"@,
            "        this._callback = callback;"@,
            "    }"@,
            ""@,
            "    /** @returns {number} */"@,
            "    get connId() { return this._connId; }"@,
            "    /** @returns {boolean} */"@,
            "    get isClosed() { return this._closed; }"@,
            ""@,
            "    /**"@,
            "     * @param {string|Uint8Array|any} data"@,
            "     */"@,
            "    send(data) {"@,
            "        if (this._closing || this._closed) throw new Error('socket closed');"@,
            "        let payload;"@,
            "        if (typeof data === 'string') {"@,
            "            payload = new TextEncoder().encode(data);"@,
            "        } else if (data instanceof Uint8Array) {"@,
            "            payload = data;"@,
            "        } else {"@,
            "            payload = new TextEncoder().encode(JSON.stringify(data));"@,
            "        }"@,
            "        const buf = new ArrayBuffer(12 + payload.length);"@,
            "        const v = new DataView(buf);"@,
            "        v.setUint32(0, 0, true);"@,
            "        v.setUint32(4, this._connId, true);"@,
            "        v.setUint32(4 + 4, payload.length, true);"@,
            "        new Uint8Array(buf).set(payload, 12);"@,
            "        this._client._sendRaw(new Uint8Array(buf));"@,
            "    }"@,
            ""@,
            "    /** @returns {Promise<void>} */"@,
            "    async close() {"@,
            "        if (this._closed) return;"@,
            "        this._closing = true;"@,
            "        const buf = new ArrayBuffer(12);"@,
            "        const v = new DataView(buf);"@,
            "        v.setUint32(0, 0, true);"@,
            "        v.setUint32(4, this._connId, true);"@,
            "        v.setUint32(4 + 4, 0, true);"@,
            "        this._client._sendRaw(new Uint8Array(buf));"@,
            "        return new Promise(resolve => { this._closeResolve = resolve; });"@,
            "    }"@,
            ""@,
            "    /** @param {Uint8Array} data */"@,
            "    _onMessage(data) {"@,
            "        if (this._closing && data.length === 0) {"@,
            "            this._closed = true;"@,
            "            this._closing = false;"@,
            "            this._closeResolve?.();"@,
            "            return;"@,
            "        }"@,
            "        if (!this._closed) {"@,
            "            this._callback?.(data, this.send.bind(this));"@,
            "        }"@,
            "    }"@,
            "}"@,
        ]);
        assert(cb@ =~= g4 + seq![
            "export class Socket {"@,
            "    /** @type {number} */"@,
            "    _connId;"@,
            "    /** @type {any} */"@,
            "    _client;"@,
            "    _closing = false;"@,
            "    _closed = false;"@,
            "    /** @type {(() => void)|undefined} */"@,
            "    _closeResolve;"@,
            "    /** @type {((data: Uint8Array, send: (data: string | Uint8Array | any) => void) => void)|undefined} */"@,
            "    _callback;"@,
            ""@,
            "    /**"@,
            "     * @param {number} connId"@,
            "     * @param {any} client"@,
            "     * @param {(data: Uint8Array, send: (data: string | Uint8Array | any) => void) => void} callback"@,
            "     */"@,
            "    constructor(connId, client, callback) {"@,
            "        this._connId = connId;"@,
            "        this._client = client;"@,
            "        this._callback = callback;"@,
            "    }"@,
            ""@,
            "    /** @returns {number} */"@,
            "    get connId() { return this._connId; }"@,
            "    /** @returns {boolean} */"@,
            "    get isClosed() { return this._closed; }"@,
            ""@,
            "    /**"@,
            "     * @param {string|Uint8Array|any} data"@,
            "     */"@,
            "    send(data) {"@,
            "        if (this._closing || this._closed) throw new Error('socket closed');"@,
            "        let payload;"@,
            "        if (typeof data === 'string') {"@,
            "            payload = new TextEncoder().encode(data);"@,
            "        } else if (data instanceof Uint8Array) {"@,
            "            payload = data;"@,
            "        } else {"@,
            "            payload = new TextEncoder().encode(JSON.stringify(data));"@,
            "        }"@,
            "        const buf = new ArrayBuffer(12 + payload.length);"@,
            "        const v = new DataView(buf);"@,
            "        v.setUint32(0, 0, true);"@,
            "        v.setUint32(4, this._connId, true);"@,
            "        v.setUint32(4 + 4, payload.length, true);"@,
            "        new Uint8Array(buf).set(payload, 12);"@,
            "        this._client._sendRaw(new Uint8Array(buf));"@,
            "    }"@,
            ""@,
            "    /** @returns {Promise<void>} */"@,
            "    async close() {"@,
            "        if (this._closed) return;"@,
            "        this._closing = true;"@,
            "        const buf = new ArrayBuffer(12);"@,
            "        const v = new DataView(buf);"@,
            "        v.setUint32(0, 0, true);"@,
            "        v.setUint32(4, this._connId, true);"@,
            "        v.setUint32(4 + 4, 0, true);"@,
            "        this._client._sendRaw(new Uint8Array(buf));"@,
            "        return new Promise(resolve => { this._closeResolve = resolve; });"@,
            "    }"@,
            ""@,
            "    /** @param {Uint8Array} data */"@,
            "    _onMessage(data) {"@,
            "        if (this._closing && data.length === 0) {"@,
            "            this._closed = true;"@,
            "            this._closing = false;"@,
            "            this._closeResolve?.();"@,
            "            return;"@,
            "        }"@,
            "        if (!this._closed) {"@,
            "            this._callback?.(data, this.send.bind(this));"@,
            "        }"@,
            "    }"@,
            "}"@,
        ]);
    } else {
        assert(cb@ =~= g4 + Seq::<Seq<char>>::empty());
    }
    assert(cb@ =~= g4 + (if has_sock {
        seq![
            "export class Socket {"@,
            "    /** @type {number} */"@,
            "    _connId;"@,
            "    /** @type {any} */"@,
            "    _client;"@,
            "    _closing = false;"@,
            "    _closed = false;"@,
            "    /** @type {(() => void)|undefined} */"@,
            "    _closeResolve;"@,
            "    /** @type {((data: Uint8Array, send: (data: string | Uint8Array | any) => void) => void)|undefined} */"@,
            "    _callback;"@,
            ""@,
            "    /**"@,
            "     * @param {number} connId"@,
            "     * @param {any} client"@,
            "     * @param {(data: Uint8Array, send: (data: string | Uint8Array | any) => void) => void} callback"@,
            "     */"@,
            "    constructor(connId, client, callback) {"@,
            "        this._connId = connId;"@,
            "        this._client = client;"@,
            "        this._callback = callback;"@,
            "    }"@,
            ""@,
            "    /** @returns {number} */"@,
            "    get connId() { return this._connId; }"@,
            "    /** @returns {boolean} */"@,
            "    get isClosed() { return this._closed; }"@,
            ""@,
            "    /**"@,
            "     * @param {string|Uint8Array|any} data"@,
            "     */"@,
            "    send(data) {"@,
            "        if (this._closing || this._closed) throw new Error('socket closed');"@,
            "        let payload;"@,
            "        if (typeof data === 'string') {"@,
            "            payload = new TextEncoder().encode(data);"@,
            "        } else if (data instanceof Uint8Array) {"@,
            "            payload = data;"@,
            "        } else {"@,
            "            payload = new TextEncoder().encode(JSON.stringify(data));"@,
            "        }"@,
            "        const buf = new ArrayBuffer(12 + payload.length);"@,
            "        const v = new DataView(buf);"@,
            "        v.setUint32(0, 0, true);"@,
            "        v.setUint32(4, this._connId, true);"@,
            "        v.setUint32(4 + 4, payload.length, true);"@,
            "        new Uint8Array(buf).set(payload, 12);"@,
            "        this._client._sendRaw(new Uint8Array(buf));"@,
            "    }"@,
            ""@,
            "    /** @returns {Promise<void>} */"@,
            "    async close() {"@,
            "        if (this._closed) return;"@,
            "        this._closing = true;"@,
            "        const buf = new ArrayBuffer(12);"@,
            "        const v = new DataView(buf);"@,
            "        v.setUint32(0, 0, true);"@,
            "        v.setUint32(4, this._connId, true);"@,
            "        v.setUint32(4 + 4, 0, true);"@,
            "        this._client._sendRaw(new Uint8Array(buf));"@,
            "        return new Promise(resolve => { this._closeResolve = resolve; });"@,
            "    }"@,
            ""@,
            "    /** @param {Uint8Array} data */"@,
            "    _onMessage(data) {"@,
            "        if (this._closing && data.length === 0) {"@,
            "            this._closed = true;"@,
            "            this._closing = false;"@,
            "            this._closeResolve?.();"@,
            "            return;"@,
            "        }"@,
            "        if (!this._closed) {"@,
            "            this._callback?.(data, this.send.bind(this));"@,
            "        }"@,
            "    }"@,
            "}"@,
        ]
    } else {
        Seq::<Seq<char>>::empty()
    }));
    proof {
        reveal(js_socket);
    }
    assert(cb@ =~= start + js_socket(has_sock));
}

/// The `AFastError` class.
#[verifier::opaque]
pub open spec fn js_error() -> Seq<Seq<char>> {
    seq![
        Seq::<char>::empty(),
        "export class AFastError extends Error {"@,
        "    /** @param {number} code @param {string} message */"@,
        "    constructor(code, message) {"@,
        "        super(message);"@,
        "        this.name = 'AFastError';"@,
        "        this.code = code;"@,
        "    }"@,
        "}"@,
        Seq::<char>::empty(),
    ]
}

fn push_js_error(cb: &mut CodeBuf)
    ensures
        final(cb)@ == old(cb)@ + js_error(),
{
    let ghost start = cb@;
    let ghost g6 = cb@;
    cb.b();
    cb.l("export class AFastError extends Error {");
    cb.l("    /** @param {number} code @param {string} message */");
    cb.l("    constructor(code, message) {");
    cb.l("        super(message);");
    cb.l("        this.name = 'AFastError';");
    cb.l("        this.code = code;");
    cb.l("    }");
    cb.l("}");
    cb.b();
    assert(cb@ =~= g6 + seq![
        Seq::<char>::empty(),
        "export class AFastError extends Error {"@,
        "    /** @param {number} code @param {string} message */"@,
        "    constructor(code, message) {"@,
        "        super(message);"@,
        "        this.name = 'AFastError';"@,
        "        this.code = code;"@,
        "    }"@,
        "}"@,
        Seq::<char>::empty(),
    ]);
    proof {
        reveal(js_error);
    }
    assert(cb@ =~= start + js_error());
}

/// The shared response cache of the client class.
#[verifier::opaque]
pub open spec fn js_cache_field(has_cache: bool) -> Seq<Seq<char>> {
    (if has_cache {
        seq![
            "    /** @type {Map<string, { request: string, response: any, expiry: number }>} */"@,
            "    static _cache = new Map();"@,
        ]
    } else {
        Seq::<Seq<char>>::empty()
    })
}

fn push_js_cache_field(cb: &mut CodeBuf, has_cache: bool)
    ensures
        final(cb)@ == old(cb)@ + js_cache_field(has_cache),
{
    let ghost start = cb@;
    let ghost g7 = cb@;
    if has_cache {
        let ghost g8 = cb@;
        cb.l("    /** @type {Map<string, { request: string, response: any, expiry: number }>} */");
        cb.l("    static _cache = new Map();");
        assert(cb@ =~= g8 + seq![
            "    /** @type {Map<string, { request: string, response: any, expiry: number }>} */"@,
            "    static _cache = new Map();"@,
        ]);
        assert(cb@ =~= g7 + seq![
            "    /** @type {Map<string, { request: string, response: any, expiry: number }>} */"@,
            "    static _cache = new Map();"@,
        ]);
    } else {
        assert(cb@ =~= g7 + Seq::<Seq<char>>::empty());
    }
    assert(cb@ =~= g7 + (if has_cache {
        seq![
            "    /** @type {Map<string, { request: string, response: any, expiry: number }>} */"@,
            "    static _cache = new Map();"@,
        ]
    } else {
        Seq::<Seq<char>>::empty()
    }));
    proof {
        reveal(js_cache_field);
    }
    assert(cb@ =~= start + js_cache_field(has_cache));
}

/// A part of [`js_fields`].
#[verifier::opaque]
pub open spec fn js_fields_part1(has_tcp: bool, has_ws: bool, has_uni_ws: bool, has_wxws: bool, has_sock: bool, has_req: bool) -> Seq<Seq<char>> {
    seq![
        "    _transport;"@,
        "    /** @type {string} */"@,
        "    _url;"@,
        "    /** @type {string} */"@,
        "    _host;"@,
        "    /** @type {number} */"@,
        "    _port;"@,
        "    /** @type {boolean} */"@,
        "    _tls;"@,
    ] + (if has_tcp {
        seq![
            "    /** @type {number} */"@,
            "    /** @type {any} */"@,
            "    _tcpSocket;"@,
            "    /** @type {Uint8Array} */"@,
            "    _tcpBuf = new Uint8Array(0);"@,
        ]
    } else {
        Seq::<Seq<char>>::empty()
    }) + (if has_ws {
        seq![
            "    /** @type {WebSocket} */"@,
            "    _ws;"@,
        ]
    } else {
        Seq::<Seq<char>>::empty()
    })
}

fn push_js_fields_part1(cb: &mut CodeBuf, has_tcp: bool, has_ws: bool, has_uni_ws: bool, has_wxws: bool, has_sock: bool, has_req: bool)
    ensures
        final(cb)@ == old(cb)@ + js_fields_part1(has_tcp, has_ws, has_uni_ws, has_wxws, has_sock, has_req),
{
    let ghost start = cb@;
    let ghost g9 = cb@;
    cb.l("    _transport;");
    cb.l("    /** @type {string} */");
    cb.l("    _url;");
    cb.l("    /** @type {string} */");
    cb.l("    _host;");
    cb.l("    /** @type {number} */");
    cb.l("    _port;");
    cb.l("    /** @type {boolean} */");
    cb.l("    _tls;");
    assert(cb@ =~= g9 + seq![
        "    _transport;"@,
        "    /** @type {string} */"@,
        "    _url;"@,
        "    /** @type {string} */"@,
        "    _host;"@,
        "    /** @type {number} */"@,
        "    _port;"@,
        "    /** @type {boolean} */"@,
        "    _tls;"@,
    ]);
    let ghost g10 = cb@;
    if has_tcp {
        let ghost g11 = cb@;
        cb.l("    /** @type {number} */");
        cb.l("    /** @type {any} */");
        cb.l("    _tcpSocket;");
        cb.l("    /** @type {Uint8Array} */");
        cb.l("    _tcpBuf = new Uint8Array(0);");
        assert(cb@ =~= g11 + seq![
            "    /** @type {number} */"@,
            "    /** @type {any} */"@,
            "    _tcpSocket;"@,
            "    /** @type {Uint8Array} */"@,
            "    _tcpBuf = new Uint8Array(0);"@,
        ]);
        assert(cb@ =~= g10 + seq![
            "    /** @type {number} */"@,
            "    /** @type {any} */"@,
            "    _tcpSocket;"@,
            "    /** @type {Uint8Array} */"@,
            "    _tcpBuf = new Uint8Array(0);"@,
        ]);
    } else {
        assert(cb@ =~= g10 + Seq::<Seq<char>>::empty());
    }
    assert(cb@ =~= g10 + (if has_tcp {
        seq![
            "    /** @type {number} */"@,
            "    /** @type {any} */"@,
            "    _tcpSocket;"@,
            "    /** @type {Uint8Array} */"@,
            "    _tcpBuf = new Uint8Array(0);"@,
        ]
    } else {
        Seq::<Seq<char>>::empty()
    }));
    let ghost g12 = cb@;
    if has_ws {
        let ghost g13 = cb@;
        cb.l("    /** @type {WebSocket} */");
        cb.l("    _ws;");
        assert(cb@ =~= g13 + seq![
            "    /** @type {WebSocket} */"@,
            "    _ws;"@,
        ]);
        assert(cb@ =~= g12 + seq![
            "    /** @type {WebSocket} */"@,
            "    _ws;"@,
        ]);
    } else {
        assert(cb@ =~= g12 + Seq::<Seq<char>>::empty());
    }
    assert(cb@ =~= g12 + (if has_ws {
        seq![
            "    /** @type {WebSocket} */"@,
            "    _ws;"@,
        ]
    } else {
        Seq::<Seq<char>>::empty()
    }));
    proof {
        reveal(js_fields_part1);
    }
    assert(cb@ =~= start + js_fields_part1(has_tcp, has_ws, has_uni_ws, has_wxws, has_sock, has_req));
}

/// A part of [`js_fields`].
#[verifier::opaque]
pub open spec fn js_fields_part2(has_tcp: bool, has_ws: bool, has_uni_ws: bool, has_wxws: bool, has_sock: bool, has_req: bool) -> Seq<Seq<char>> {
    (if has_uni_ws {
        seq![
            "    /** @type {UniApp.SocketTask} */"@,
            "    _wsTask;"@,
        ]
    } else {
        Seq::<Seq<char>>::empty()
    }) + (if has_wxws {
        seq![
            "    /** @type {WechatMiniprogram.SocketTask} */"@,
            "    _wxSocketTask;"@,
        ]
    } else {
        Seq::<Seq<char>>::empty()
    })
}

fn push_js_fields_part2(cb: &mut CodeBuf, has_tcp: bool, has_ws: bool, has_uni_ws: bool, has_wxws: bool, has_sock: bool, has_req: bool)
    ensures
        final(cb)@ == old(cb)@ + js_fields_part2(has_tcp, has_ws, has_uni_ws, has_wxws, has_sock, has_req),
{
    let ghost start = cb@;
    let ghost g14 = cb@;
    if has_uni_ws {
        let ghost g15 = cb@;
        cb.l("    /** @type {UniApp.SocketTask} */");
        cb.l("    _wsTask;");
        assert(cb@ =~= g15 + seq![
            "    /** @type {UniApp.SocketTask} */"@,
            "    _wsTask;"@,
        ]);
        assert(cb@ =~= g14 + seq![
            "    /** @type {UniApp.SocketTask} */"@,
            "    _wsTask;"@,
        ]);
    } else {
        assert(cb@ =~= g14 + Seq::<Seq<char>>::empty());
    }
    assert(cb@ =~= g14 + (if has_uni_ws {
        seq![
            "    /** @type {UniApp.SocketTask} */"@,
            "    _wsTask;"@,
        ]
    } else {
        Seq::<Seq<char>>::empty()
    }));
    let ghost g16 = cb@;
    if has_wxws {
        let ghost g17 = cb@;
        cb.l("    /** @type {WechatMiniprogram.SocketTask} */");
        cb.l("    _wxSocketTask;");
        assert(cb@ =~= g17 + seq![
            "    /** @type {WechatMiniprogram.SocketTask} */"@,
            "    _wxSocketTask;"@,
        ]);
        assert(cb@ =~= g16 + seq![
            "    /** @type {WechatMiniprogram.SocketTask} */"@,
            "    _wxSocketTask;"@,
        ]);
    } else {
        assert(cb@ =~= g16 + Seq::<Seq<char>>::empty());
    }
    assert(cb@ =~= g16 + (if has_wxws {
        seq![
            "    /** @type {WechatMiniprogram.SocketTask} */"@,
            "    _wxSocketTask;"@,
        ]
    } else {
        Seq::<Seq<char>>::empty()
    }));
    proof {
        reveal(js_fields_part2);
    }
    assert(cb@ =~= start + js_fields_part2(has_tcp, has_ws, has_uni_ws, has_wxws, has_sock, has_req));
}

/// A part of [`js_fields`].
#[verifier::opaque]
pub open spec fn js_fields_part3(has_tcp: bool, has_ws: bool, has_uni_ws: bool, has_wxws: bool, has_sock: bool, has_req: bool) -> Seq<Seq<char>> {
    (if has_sock {
        seq![
            "    _nextId = 1;"@,
            "    /** @type {Map<number, {resolve: (d: Uint8Array) => void, reject: (e: Error) => void, timer: ReturnType<typeof setTimeout>}>} */"@,
            "    _pending = new Map();"@,
            "    /** @type {Map<number, (data: Uint8Array) => void>} */"@,
            "    _pushHandlers = new Map();"@,
            "    /** @type {ReturnType<typeof setInterval>|undefined} */"@,
            "    _heartbeatTimer;"@,
        ]
    } else {
        Seq::<Seq<char>>::empty()
    }) + seq![
        "    /** @type {Promise<void>} */"@,
        "    _ready;"@,
        "    /** @type {(handlerId: number, payload: Uint8Array) => Promise<Uint8Array>} */"@,
        "    _call;"@,
    ] + (if has_req {
        seq![
            "    /** @type {(url: string, opts: Record<string, any>) => Promise<any>} */"@,
            "    _request;"@,
        ]
    } else {
        Seq::<Seq<char>>::empty()
    })
}

fn push_js_fields_part3(cb: &mut CodeBuf, has_tcp: bool, has_ws: bool, has_uni_ws: bool, has_wxws: bool, has_sock: bool, has_req: bool)
    ensures
        final(cb)@ == old(cb)@ + js_fields_part3(has_tcp, has_ws, has_uni_ws, has_wxws, has_sock, has_req),
{
    let ghost start = cb@;
    let ghost g18 = cb@;
    if has_sock {
        let ghost g19 = cb@;
        cb.l("    _nextId = 1;");
        cb.l("    /** @type {Map<number, {resolve: (d: Uint8Array) => void, reject: (e: Error) => void, timer: ReturnType<typeof setTimeout>}>} */");
        cb.l("    _pending = new Map();");
        cb.l("    /** @type {Map<number, (data: Uint8Array) => void>} */");
        cb.l("    _pushHandlers = new Map();");
        cb.l("    /** @type {ReturnType<typeof setInterval>|undefined} */");
        cb.l("    _heartbeatTimer;");
        assert(cb@ =~= g19 + seq![
            "    _nextId = 1;"@,
            "    /** @type {Map<number, {resolve: (d: Uint8Array) => void, reject: (e: Error) => void, timer: ReturnType<typeof setTimeout>}>} */"@,
            "    _pending = new Map();"@,
            "    /** @type {Map<number, (data: Uint8Array) => void>} */"@,
            "    _pushHandlers = new Map();"@,
            "    /** @type {ReturnType<typeof setInterval>|undefined} */"@,
            "    _heartbeatTimer;"@,
        ]);
        assert(cb@ =~= g18 + seq![
            "    _nextId = 1;"@,
            "    /** @type {Map<number, {resolve: (d: Uint8Array) => void, reject: (e: Error) => void, timer: ReturnType<typeof setTimeout>}>} */"@,
            "    _pending = new Map();"@,
            "    /** @type {Map<number, (data: Uint8Array) => void>} */"@,
            "    _pushHandlers = new Map();"@,
            "    /** @type {ReturnType<typeof setInterval>|undefined} */"@,
            "    _heartbeatTimer;"@,
        ]);
    } else {
        assert(cb@ =~= g18 + Seq::<Seq<char>>::empty());
    }
    assert(cb@ =~= g18 + (if has_sock {
        seq![
            "    _nextId = 1;"@,
            "    /** @type {Map<number, {resolve: (d: Uint8Array) => void, reject: (e: Error) => void, timer: ReturnType<typeof setTimeout>}>} */"@,
            "    _pending = new Map();"@,
            "    /** @type {Map<number, (data: Uint8Array) => void>} */"@,
            "    _pushHandlers = new Map();"@,
            "    /** @type {ReturnType<typeof setInterval>|undefined} */"@,
            "    _heartbeatTimer;"@,
        ]
    } else {
        Seq::<Seq<char>>::empty()
    }));
    let ghost g20 = cb@;
    cb.l("    /** @type {Promise<void>} */");
    cb.l("    _ready;");
    cb.l("    /** @type {(handlerId: number, payload: Uint8Array) => Promise<Uint8Array>} */");
    cb.l("    _call;");
    assert(cb@ =~= g20 + seq![
        "    /** @type {Promise<void>} */"@,
        "    _ready;"@,
        "    /** @type {(handlerId: number, payload: Uint8Array) => Promise<Uint8Array>} */"@,
        "    _call;"@,
    ]);
    let ghost g21 = cb@;
    if has_req {
        let ghost g22 = cb@;
        cb.l("    /** @type {(url: string, opts: Record<string, any>) => Promise<any>} */");
        cb.l("    _request;");
        assert(cb@ =~= g22 + seq![
            "    /** @type {(url: string, opts: Record<string, any>) => Promise<any>} */"@,
            "    _request;"@,
        ]);
        assert(cb@ =~= g21 + seq![
            "    /** @type {(url: string, opts: Record<string, any>) => Promise<any>} */"@,
            "    _request;"@,
        ]);
    } else {
        assert(cb@ =~= g21 + Seq::<Seq<char>>::empty());
    }
    assert(cb@ =~= g21 + (if has_req {
        seq![
            "    /** @type {(url: string, opts: Record<string, any>) => Promise<any>} */"@,
            "    _request;"@,
        ]
    } else {
        Seq::<Seq<char>>::empty()
    }));
    proof {
        reveal(js_fields_part3);
    }
    assert(cb@ =~= start + js_fields_part3(has_tcp, has_ws, has_uni_ws, has_wxws, has_sock, has_req));
}

/// The transport fields of the client class.
pub open spec fn js_fields(has_tcp: bool, has_ws: bool, has_uni_ws: bool, has_wxws: bool, has_sock: bool, has_req: bool) -> Seq<Seq<char>> {
    js_fields_part1(has_tcp, has_ws, has_uni_ws, has_wxws, has_sock, has_req) + js_fields_part2(has_tcp, has_ws, has_uni_ws, has_wxws, has_sock, has_req) + js_fields_part3(has_tcp, has_ws, has_uni_ws, has_wxws, has_sock, has_req)
}

fn push_js_fields(cb: &mut CodeBuf, has_tcp: bool, has_ws: bool, has_uni_ws: bool, has_wxws: bool, has_sock: bool, has_req: bool)
    ensures
        final(cb)@ == old(cb)@ + js_fields(has_tcp, has_ws, has_uni_ws, has_wxws, has_sock, has_req),
{
    let ghost start = cb@;
    push_js_fields_part1(cb, has_tcp, has_ws, has_uni_ws, has_wxws, has_sock, has_req);
    push_js_fields_part2(cb, has_tcp, has_ws, has_uni_ws, has_wxws, has_sock, has_req);
    push_js_fields_part3(cb, has_tcp, has_ws, has_uni_ws, has_wxws, has_sock, has_req);
    assert(cb@ =~= start + (js_fields_part1(has_tcp, has_ws, has_uni_ws, has_wxws, has_sock, has_req) + js_fields_part2(has_tcp, has_ws, has_uni_ws, has_wxws, has_sock, has_req) + js_fields_part3(has_tcp, has_ws, has_uni_ws, has_wxws, has_sock, has_req)));
}

/// The error hook and debug fields of the client class.
#[verifier::opaque]
pub open spec fn js_fields_tail(debug: bool) -> Seq<Seq<char>> {
    seq![
        "    /** @type {((code: number, message: string) => void) | undefined} */"@,
        "    _onError;"@,
    ] + (if debug {
        seq![
            "    /** @type {boolean} */"@,
            "    _debug;"@,
        ]
    } else {
        Seq::<Seq<char>>::empty()
    })
}

fn push_js_fields_tail(cb: &mut CodeBuf, debug: bool)
    ensures
        final(cb)@ == old(cb)@ + js_fields_tail(debug),
{
    let ghost start = cb@;
    let ghost g23 = cb@;
    cb.l("    /** @type {((code: number, message: string) => void) | undefined} */");
    cb.l("    _onError;");
    assert(cb@ =~= g23 + seq![
        "    /** @type {((code: number, message: string) => void) | undefined} */"@,
        "    _onError;"@,
    ]);
    let ghost g24 = cb@;
    if debug {
        let ghost g25 = cb@;
        cb.l("    /** @type {boolean} */");
        cb.l("    _debug;");
        assert(cb@ =~= g25 + seq![
            "    /** @type {boolean} */"@,
            "    _debug;"@,
        ]);
        assert(cb@ =~= g24 + seq![
            "    /** @type {boolean} */"@,
            "    _debug;"@,
        ]);
    } else {
        assert(cb@ =~= g24 + Seq::<Seq<char>>::empty());
    }
    assert(cb@ =~= g24 + (if debug {
        seq![
            "    /** @type {boolean} */"@,
            "    _debug;"@,
        ]
    } else {
        Seq::<Seq<char>>::empty()
    }));
    proof {
        reveal(js_fields_tail);
    }
    assert(cb@ =~= start + js_fields_tail(debug));
}

/// A part of [`js_init`].
#[verifier::opaque]
pub open spec fn js_init_part1(has_ws: bool, has_uni_ws: bool, has_wxws: bool, has_wxrequest: bool, has_fetch: bool, has_uni_req: bool, has_nodetcp: bool, has_buntcp: bool, has_ordinary: bool) -> Seq<Seq<char>> {
    (if has_ws {
        seq![
            "        if (this._transport === 'ws') {"@,
            "            this._ready = new Promise((resolve, reject) => {"@,
            "                this._ws = new WebSocket(this._url + '/_ws');"@,
            "                const failTimer = setTimeout(() => reject(new Error('WebSocket connection timeout (10s)')), 10000);"@,
            "                this._ws.binaryType = 'arraybuffer';"@,
            "                this._ws.addEventListener('open', () => { clearTimeout(failTimer); resolve(); });"@,
            "                this._ws.addEventListener('error', () => { clearTimeout(failTimer); reject(new Error('WebSocket connection failed')); });"@,
            "                this._ws.addEventListener('close', (ev) => { clearTimeout(failTimer); reject(new Error(`WebSocket closed before open (code=${ev.code})`)); });"@,
            "                this._ws.addEventListener('message', (ev) => this._handleMessage(new Uint8Array(ev.data)));"@,
            "            });"@,
            "            this._ready.then(() => { if (this._heartbeatTimer) clearInterval(this._heartbeatTimer); this._heartbeatTimer = setInterval(() => this._sendHeartbeat(), 180_000); });"@,
            "            this._call = this._callWs;"@,
        ]
    } else {
        Seq::<Seq<char>>::empty()
    }) + (if has_uni_ws {
        (if has_ws {
            seq![
                "        } else if (this._transport === 'uniws') {"@,
            ]
        } else {
            seq![
                "        if (this._transport === 'uniws') {"@,
            ]
        }) + seq![
            "            this._ready = new Promise((resolve, reject) => {"@,
            "                this._wsTask = uni.connectSocket({ url: this._url + '/_ws', complete: () => {} });"@,
            "                const failTimer = setTimeout(() => reject(new Error('UniApp WS connection timeout (10s)')), 10000);"@,
            "                this._wsTask.onOpen(() => { clearTimeout(failTimer); resolve(); });"@,
            "                this._wsTask.onError(() => { clearTimeout(failTimer); reject(new Error('UniApp WS connection failed')); });"@,
            "                this._wsTask.onClose(() => { clearTimeout(failTimer); reject(new Error('UniApp WS closed before open')); });"@,
            "                this._wsTask.onMessage((res) => {"@,
            "                    const raw = typeof res.data === 'string' ? new TextEncoder().encode(res.data) : new Uint8Array(res.data);"@,
            "                    this._handleMessage(raw);"@,
            "                });"@,
            "            });"@,
            "            this._ready.then(() => { if (this._heartbeatTimer) clearInterval(this._heartbeatTimer); this._heartbeatTimer = setInterval(() => this._sendHeartbeat(), 180_000); });"@,
            "            this._call = this._callUniWs;"@,
        ]
    } else {
        Seq::<Seq<char>>::empty()
    })
}

fn push_js_init_part1(cb: &mut CodeBuf, has_ws: bool, has_uni_ws: bool, has_wxws: bool, has_wxrequest: bool, has_fetch: bool, has_uni_req: bool, has_nodetcp: bool, has_buntcp: bool, has_ordinary: bool)
    ensures
        final(cb)@ == old(cb)@ + js_init_part1(has_ws, has_uni_ws, has_wxws, has_wxrequest, has_fetch, has_uni_req, has_nodetcp, has_buntcp, has_ordinary),
{
    let ghost start = cb@;
    let ghost g26 = cb@;
    if has_ws {
        let ghost g27 = cb@;
        cb.l("        if (this._transport === 'ws') {");
        cb.l("            this._ready = new Promise((resolve, reject) => {");
        cb.l("                this._ws = new WebSocket(this._url + '/_ws');");
        cb.l("                const failTimer = setTimeout(() => reject(new Error('WebSocket connection timeout (10s)')), 10000);");
        cb.l("                this._ws.binaryType = 'arraybuffer';");
        cb.l("                this._ws.addEventListener('open', () => { clearTimeout(failTimer); resolve(); });");
        cb.l("                this._ws.addEventListener('error', () => { clearTimeout(failTimer); reject(new Error('WebSocket connection failed')); });");
        cb.l("                this._ws.addEventListener('close', (ev) => { clearTimeout(failTimer); reject(new Error(`WebSocket closed before open (code=${ev.code})`)); });");
        cb.l("                this._ws.addEventListener('message', (ev) => this._handleMessage(new Uint8Array(ev.data)));");
        cb.l("            });");
        cb.l("            this._ready.then(() => { if (this._heartbeatTimer) clearInterval(this._heartbeatTimer); this._heartbeatTimer = setInterval(() => this._sendHeartbeat(), 180_000); });");
        cb.l("            this._call = this._callWs;");
        assert(cb@ =~= g27 + seq![
            "        if (this._transport === 'ws') {"@,
            "            this._ready = new Promise((resolve, reject) => {"@,
            "                this._ws = new WebSocket(this._url + '/_ws');"@,
            "                const failTimer = setTimeout(() => reject(new Error('WebSocket connection timeout (10s)')), 10000);"@,
            "                this._ws.binaryType = 'arraybuffer';"@,
            "                this._ws.addEventListener('open', () => { clearTimeout(failTimer); resolve(); });"@,
            "                this._ws.addEventListener('error', () => { clearTimeout(failTimer); reject(new Error('WebSocket connection failed')); });"@,
            "                this._ws.addEventListener('close', (ev) => { clearTimeout(failTimer); reject(new Error(`WebSocket closed before open (code=${ev.code})`)); });"@,
            "                this._ws.addEventListener('message', (ev) => this._handleMessage(new Uint8Array(ev.data)));"@,
            "            });"@,
            "            this._ready.then(() => { if (this._heartbeatTimer) clearInterval(this._heartbeatTimer); this._heartbeatTimer = setInterval(() => this._sendHeartbeat(), 180_000); });"@,
            "            this._call = this._callWs;"@,
        ]);
        assert(cb@ =~= g26 + seq![
            "        if (this._transport === 'ws') {"@,
            "            this._ready = new Promise((resolve, reject) => {"@,
            "                this._ws = new WebSocket(this._url + '/_ws');"@,
            "                const failTimer = setTimeout(() => reject(new Error('WebSocket connection timeout (10s)')), 10000);"@,
            "                this._ws.binaryType = 'arraybuffer';"@,
            "                this._ws.addEventListener('open', () => { clearTimeout(failTimer); resolve(); });"@,
            "                this._ws.addEventListener('error', () => { clearTimeout(failTimer); reject(new Error('WebSocket connection failed')); });"@,
            "                this._ws.addEventListener('close', (ev) => { clearTimeout(failTimer); reject(new Error(`WebSocket closed before open (code=${ev.code})`)); });"@,
            "                this._ws.addEventListener('message', (ev) => this._handleMessage(new Uint8Array(ev.data)));"@,
            "            });"@,
            "            this._ready.then(() => { if (this._heartbeatTimer) clearInterval(this._heartbeatTimer); this._heartbeatTimer = setInterval(() => this._sendHeartbeat(), 180_000); });"@,
            "            this._call = this._callWs;"@,
        ]);
    } else {
        assert(cb@ =~= g26 + Seq::<Seq<char>>::empty());
    }
    assert(cb@ =~= g26 + (if has_ws {
        seq![
            "        if (this._transport === 'ws') {"@,
            "            this._ready = new Promise((resolve, reject) => {"@,
            "                this._ws = new WebSocket(this._url + '/_ws');"@,
            "                const failTimer = setTimeout(() => reject(new Error('WebSocket connection timeout (10s)')), 10000);"@,
            "                this._ws.binaryType = 'arraybuffer';"@,
            "                this._ws.addEventListener('open', () => { clearTimeout(failTimer); resolve(); });"@,
            "                this._ws.addEventListener('error', () => { clearTimeout(failTimer); reject(new Error('WebSocket connection failed')); });"@,
            "                this._ws.addEventListener('close', (ev) => { clearTimeout(failTimer); reject(new Error(`WebSocket closed before open (code=${ev.code})`)); });"@,
            "                this._ws.addEventListener('message', (ev) => this._handleMessage(new Uint8Array(ev.data)));"@,
            "            });"@,
            "            this._ready.then(() => { if (this._heartbeatTimer) clearInterval(this._heartbeatTimer); this._heartbeatTimer = setInterval(() => this._sendHeartbeat(), 180_000); });"@,
            "            this._call = this._callWs;"@,
        ]
    } else {
        Seq::<Seq<char>>::empty()
    }));
    let ghost g28 = cb@;
    if has_uni_ws {
        let ghost g29 = cb@;
        if has_ws {
            let ghost g30 = cb@;
            cb.l("        } else if (this._transport === 'uniws') {");
            assert(cb@ =~= g30 + seq![
                "        } else if (this._transport === 'uniws') {"@,
            ]);
            assert(cb@ =~= g29 + seq![
                "        } else if (this._transport === 'uniws') {"@,
            ]);
        } else {
            let ghost g31 = cb@;
            cb.l("        if (this._transport === 'uniws') {");
            assert(cb@ =~= g31 + seq![
                "        if (this._transport === 'uniws') {"@,
            ]);
            assert(cb@ =~= g29 + seq![
                "        if (this._transport === 'uniws') {"@,
            ]);
        }
        assert(cb@ =~= g29 + (if has_ws {
            seq![
                "        } else if (this._transport === 'uniws') {"@,
            ]
        } else {
            seq![
                "        if (this._transport === 'uniws') {"@,
            ]
        }));
        let ghost g32 = cb@;
        cb.l("            this._ready = new Promise((resolve, reject) => {");
        cb.l("                this._wsTask = uni.connectSocket({ url: this._url + '/_ws', complete: () => {} });");
        cb.l("                const failTimer = setTimeout(() => reject(new Error('UniApp WS connection timeout (10s)')), 10000);");
        cb.l("                this._wsTask.onOpen(() => { clearTimeout(failTimer); resolve(); });");
        cb.l("                this._wsTask.onError(() => { clearTimeout(failTimer); reject(new Error('UniApp WS connection failed')); });");
        cb.l("                this._wsTask.onClose(() => { clearTimeout(failTimer); reject(new Error('UniApp WS closed before open')); });");
        cb.l("                this._wsTask.onMessage((res) => {");
        cb.l("                    const raw = typeof res.data === 'string' ? new TextEncoder().encode(res.data) : new Uint8Array(res.data);");
        cb.l("                    this._handleMessage(raw);");
        cb.l("                });");
        cb.l("            });");
        cb.l("            this._ready.then(() => { if (this._heartbeatTimer) clearInterval(this._heartbeatTimer); this._heartbeatTimer = setInterval(() => this._sendHeartbeat(), 180_000); });");
        cb.l("            this._call = this._callUniWs;");
        assert(cb@ =~= g32 + seq![
            "            this._ready = new Promise((resolve, reject) => {"@,
            "                this._wsTask = uni.connectSocket({ url: this._url + '/_ws', complete: () => {} });"@,
            "                const failTimer = setTimeout(() => reject(new Error('UniApp WS connection timeout (10s)')), 10000);"@,
            "                this._wsTask.onOpen(() => { clearTimeout(failTimer); resolve(); });"@,
            "                this._wsTask.onError(() => { clearTimeout(failTimer); reject(new Error('UniApp WS connection failed')); });"@,
            "                this._wsTask.onClose(() => { clearTimeout(failTimer); reject(new Error('UniApp WS closed before open')); });"@,
            "                this._wsTask.onMessage((res) => {"@,
            "                    const raw = typeof res.data === 'string' ? new TextEncoder().encode(res.data) : new Uint8Array(res.data);"@,
            "                    this._handleMessage(raw);"@,
            "                });"@,
            "            });"@,
            "            this._ready.then(() => { if (this._heartbeatTimer) clearInterval(this._heartbeatTimer); this._heartbeatTimer = setInterval(() => this._sendHeartbeat(), 180_000); });"@,
            "            this._call = this._callUniWs;"@,
        ]);
        assert(cb@ =~= g28 + (if has_ws {
            seq![
                "        } else if (this._transport === 'uniws') {"@,
            ]
        } else {
            seq![
                "        if (this._transport === 'uniws') {"@,
            ]
        }) + seq![
            "            this._ready = new Promise((resolve, reject) => {"@,
            "                this._wsTask = uni.connectSocket({ url: this._url + '/_ws', complete: () => {} });"@,
            "                const failTimer = setTimeout(() => reject(new Error('UniApp WS connection timeout (10s)')), 10000);"@,
            "                this._wsTask.onOpen(() => { clearTimeout(failTimer); resolve(); });"@,
            "                this._wsTask.onError(() => { clearTimeout(failTimer); reject(new Error('UniApp WS connection failed')); });"@,
            "                this._wsTask.onClose(() => { clearTimeout(failTimer); reject(new Error('UniApp WS closed before open')); });"@,
            "                this._wsTask.onMessage((res) => {"@,
            "                    const raw = typeof res.data === 'string' ? new TextEncoder().encode(res.data) : new Uint8Array(res.data);"@,
            "                    this._handleMessage(raw);"@,
            "                });"@,
            "            });"@,
            "            this._ready.then(() => { if (this._heartbeatTimer) clearInterval(this._heartbeatTimer); this._heartbeatTimer = setInterval(() => this._sendHeartbeat(), 180_000); });"@,
            "            this._call = this._callUniWs;"@,
        ]);
    } else {
        assert(cb@ =~= g28 + Seq::<Seq<char>>::empty());
    }
    assert(cb@ =~= g28 + (if has_uni_ws {
        (if has_ws {
            seq![
                "        } else if (this._transport === 'uniws') {"@,
            ]
        } else {
            seq![
                "        if (this._transport === 'uniws') {"@,
            ]
        }) + seq![
            "            this._ready = new Promise((resolve, reject) => {"@,
            "                this._wsTask = uni.connectSocket({ url: this._url + '/_ws', complete: () => {} });"@,
            "                const failTimer = setTimeout(() => reject(new Error('UniApp WS connection timeout (10s)')), 10000);"@,
            "                this._wsTask.onOpen(() => { clearTimeout(failTimer); resolve(); });"@,
            "                this._wsTask.onError(() => { clearTimeout(failTimer); reject(new Error('UniApp WS connection failed')); });"@,
            "                this._wsTask.onClose(() => { clearTimeout(failTimer); reject(new Error('UniApp WS closed before open')); });"@,
            "                this._wsTask.onMessage((res) => {"@,
            "                    const raw = typeof res.data === 'string' ? new TextEncoder().encode(res.data) : new Uint8Array(res.data);"@,
            "                    this._handleMessage(raw);"@,
            "                });"@,
            "            });"@,
            "            this._ready.then(() => { if (this._heartbeatTimer) clearInterval(this._heartbeatTimer); this._heartbeatTimer = setInterval(() => this._sendHeartbeat(), 180_000); });"@,
            "            this._call = this._callUniWs;"@,
        ]
    } else {
        Seq::<Seq<char>>::empty()
    }));
    proof {
        reveal(js_init_part1);
    }
    assert(cb@ =~= start + js_init_part1(has_ws, has_uni_ws, has_wxws, has_wxrequest, has_fetch, has_uni_req, has_nodetcp, has_buntcp, has_ordinary));
}

/// A part of [`js_init`].
#[verifier::opaque]
pub open spec fn js_init_part2(has_ws: bool, has_uni_ws: bool, has_wxws: bool, has_wxrequest: bool, has_fetch: bool, has_uni_req: bool, has_nodetcp: bool, has_buntcp: bool, has_ordinary: bool) -> Seq<Seq<char>> {
    (if has_wxws {
        (if has_ws || has_uni_ws {
            seq![
                "        } else if (this._transport === 'wxws') {"@,
            ]
        } else {
            seq![
                "        if (this._transport === 'wxws') {"@,
            ]
        }) + seq![
            "            this._ready = new Promise((resolve, reject) => {"@,
            "                this._wxSocketTask = wx.connectSocket({ url: this._url + '/_ws' });"@,
            "                const failTimer = setTimeout(() => reject(new Error('Wx WS connection timeout (10s)')), 10000);"@,
            "                this._wxSocketTask.onOpen(() => { clearTimeout(failTimer); resolve(); });"@,
            "                this._wxSocketTask.onError(() => { clearTimeout(failTimer); reject(new Error('Wx WS connection failed')); });"@,
            "                this._wxSocketTask.onClose(() => { clearTimeout(failTimer); reject(new Error('Wx WS closed before open')); });"@,
            "                this._wxSocketTask.onMessage((res) => {"@,
            "                    const raw = typeof res.data === 'string' ? new TextEncoder().encode(res.data) : new Uint8Array(res.data);"@,
            "                    this._handleMessage(raw);"@,
            "                });"@,
            "            });"@,
            "            this._ready.then(() => { if (this._heartbeatTimer) clearInterval(this._heartbeatTimer); this._heartbeatTimer = setInterval(() => this._sendHeartbeat(), 180_000); });"@,
            "            this._call = this._callWxWs;"@,
        ]
    } else {
        Seq::<Seq<char>>::empty()
    }) + (if has_wxrequest {
        (if has_ws || has_uni_ws || has_wxws {
            seq![
                "        } else if (this._transport === 'wxrequest') {"@,
            ]
        } else {
            seq![
                "        if (this._transport === 'wxrequest') {"@,
            ]
        }) + seq![
            "            this._ready = Promise.resolve();"@,
            "            this._call = this._callWxReq;"@,
        ] + (if has_ordinary {
            seq![
                "            this._request = this._requestWxReq;"@,
            ]
        } else {
            Seq::<Seq<char>>::empty()
        })
    } else {
        Seq::<Seq<char>>::empty()
    })
}

fn push_js_init_part2(cb: &mut CodeBuf, has_ws: bool, has_uni_ws: bool, has_wxws: bool, has_wxrequest: bool, has_fetch: bool, has_uni_req: bool, has_nodetcp: bool, has_buntcp: bool, has_ordinary: bool)
    ensures
        final(cb)@ == old(cb)@ + js_init_part2(has_ws, has_uni_ws, has_wxws, has_wxrequest, has_fetch, has_uni_req, has_nodetcp, has_buntcp, has_ordinary),
{
    let ghost start = cb@;
    let ghost g33 = cb@;
    if has_wxws {
        let ghost g34 = cb@;
        if has_ws || has_uni_ws {
            let ghost g35 = cb@;
            cb.l("        } else if (this._transport === 'wxws') {");
            assert(cb@ =~= g35 + seq![
                "        } else if (this._transport === 'wxws') {"@,
            ]);
            assert(cb@ =~= g34 + seq![
                "        } else if (this._transport === 'wxws') {"@,
            ]);
        } else {
            let ghost g36 = cb@;
            cb.l("        if (this._transport === 'wxws') {");
            assert(cb@ =~= g36 + seq![
                "        if (this._transport === 'wxws') {"@,
            ]);
            assert(cb@ =~= g34 + seq![
                "        if (this._transport === 'wxws') {"@,
            ]);
        }
        assert(cb@ =~= g34 + (if has_ws || has_uni_ws {
            seq![
                "        } else if (this._transport === 'wxws') {"@,
            ]
        } else {
            seq![
                "        if (this._transport === 'wxws') {"@,
            ]
        }));
        let ghost g37 = cb@;
        cb.l("            this._ready = new Promise((resolve, reject) => {");
        cb.l("                this._wxSocketTask = wx.connectSocket({ url: this._url + '/_ws' });");
        cb.l("                const failTimer = setTimeout(() => reject(new Error('Wx WS connection timeout (10s)')), 10000);");
        cb.l("                this._wxSocketTask.onOpen(() => { clearTimeout(failTimer); resolve(); });");
        cb.l("                this._wxSocketTask.onError(() => { clearTimeout(failTimer); reject(new Error('Wx WS connection failed')); });");
        cb.l("                this._wxSocketTask.onClose(() => { clearTimeout(failTimer); reject(new Error('Wx WS closed before open')); });");
        cb.l("                this._wxSocketTask.onMessage((res) => {");
        cb.l("                    const raw = typeof res.data === 'string' ? new TextEncoder().encode(res.data) : new Uint8Array(res.data);");
        cb.l("                    this._handleMessage(raw);");
        cb.l("                });");
        cb.l("            });");
        cb.l("            this._ready.then(() => { if (this._heartbeatTimer) clearInterval(this._heartbeatTimer); this._heartbeatTimer = setInterval(() => this._sendHeartbeat(), 180_000); });");
        cb.l("            this._call = this._callWxWs;");
        assert(cb@ =~= g37 + seq![
            "            this._ready = new Promise((resolve, reject) => {"@,
            "                this._wxSocketTask = wx.connectSocket({ url: this._url + '/_ws' });"@,
            "                const failTimer = setTimeout(() => reject(new Error('Wx WS connection timeout (10s)')), 10000);"@,
            "                this._wxSocketTask.onOpen(() => { clearTimeout(failTimer); resolve(); });"@,
            "                this._wxSocketTask.onError(() => { clearTimeout(failTimer); reject(new Error('Wx WS connection failed')); });"@,
            "                this._wxSocketTask.onClose(() => { clearTimeout(failTimer); reject(new Error('Wx WS closed before open')); });"@,
            "                this._wxSocketTask.onMessage((res) => {"@,
            "                    const raw = typeof res.data === 'string' ? new TextEncoder().encode(res.data) : new Uint8Array(res.data);"@,
            "                    this._handleMessage(raw);"@,
            "                });"@,
            "            });"@,
            "            this._ready.then(() => { if (this._heartbeatTimer) clearInterval(this._heartbeatTimer); this._heartbeatTimer = setInterval(() => this._sendHeartbeat(), 180_000); });"@,
            "            this._call = this._callWxWs;"@,
        ]);
        assert(cb@ =~= g33 + (if has_ws || has_uni_ws {
            seq![
                "        } else if (this._transport === 'wxws') {"@,
            ]
        } else {
            seq![
                "        if (this._transport === 'wxws') {"@,
            ]
        }) + seq![
            "            this._ready = new Promise((resolve, reject) => {"@,
            "                this._wxSocketTask = wx.connectSocket({ url: this._url + '/_ws' });"@,
            "                const failTimer = setTimeout(() => reject(new Error('Wx WS connection timeout (10s)')), 10000);"@,
            "                this._wxSocketTask.onOpen(() => { clearTimeout(failTimer); resolve(); });"@,
            "                this._wxSocketTask.onError(() => { clearTimeout(failTimer); reject(new Error('Wx WS connection failed')); });"@,
            "                this._wxSocketTask.onClose(() => { clearTimeout(failTimer); reject(new Error('Wx WS closed before open')); });"@,
            "                this._wxSocketTask.onMessage((res) => {"@,
            "                    const raw = typeof res.data === 'string' ? new TextEncoder().encode(res.data) : new Uint8Array(res.data);"@,
            "                    this._handleMessage(raw);"@,
            "                });"@,
            "            });"@,
            "            this._ready.then(() => { if (this._heartbeatTimer) clearInterval(this._heartbeatTimer); this._heartbeatTimer = setInterval(() => this._sendHeartbeat(), 180_000); });"@,
            "            this._call = this._callWxWs;"@,
        ]);
    } else {
        assert(cb@ =~= g33 + Seq::<Seq<char>>::empty());
    }
    assert(cb@ =~= g33 + (if has_wxws {
        (if has_ws || has_uni_ws {
            seq![
                "        } else if (this._transport === 'wxws') {"@,
            ]
        } else {
            seq![
                "        if (this._transport === 'wxws') {"@,
            ]
        }) + seq![
            "            this._ready = new Promise((resolve, reject) => {"@,
            "                this._wxSocketTask = wx.connectSocket({ url: this._url + '/_ws' });"@,
            "                const failTimer = setTimeout(() => reject(new Error('Wx WS connection timeout (10s)')), 10000);"@,
            "                this._wxSocketTask.onOpen(() => { clearTimeout(failTimer); resolve(); });"@,
            "                this._wxSocketTask.onError(() => { clearTimeout(failTimer); reject(new Error('Wx WS connection failed')); });"@,
            "                this._wxSocketTask.onClose(() => { clearTimeout(failTimer); reject(new Error('Wx WS closed before open')); });"@,
            "                this._wxSocketTask.onMessage((res) => {"@,
            "                    const raw = typeof res.data === 'string' ? new TextEncoder().encode(res.data) : new Uint8Array(res.data);"@,
            "                    this._handleMessage(raw);"@,
            "                });"@,
            "            });"@,
            "            this._ready.then(() => { if (this._heartbeatTimer) clearInterval(this._heartbeatTimer); this._heartbeatTimer = setInterval(() => this._sendHeartbeat(), 180_000); });"@,
            "            this._call = this._callWxWs;"@,
        ]
    } else {
        Seq::<Seq<char>>::empty()
    }));
    let ghost g38 = cb@;
    if has_wxrequest {
        let ghost g39 = cb@;
        if has_ws || has_uni_ws || has_wxws {
            let ghost g40 = cb@;
            cb.l("        } else if (this._transport === 'wxrequest') {");
            assert(cb@ =~= g40 + seq![
                "        } else if (this._transport === 'wxrequest') {"@,
            ]);
            assert(cb@ =~= g39 + seq![
                "        } else if (this._transport === 'wxrequest') {"@,
            ]);
        } else {
            let ghost g41 = cb@;
            cb.l("        if (this._transport === 'wxrequest') {");
            assert(cb@ =~= g41 + seq![
                "        if (this._transport === 'wxrequest') {"@,
            ]);
            assert(cb@ =~= g39 + seq![
                "        if (this._transport === 'wxrequest') {"@,
            ]);
        }
        assert(cb@ =~= g39 + (if has_ws || has_uni_ws || has_wxws {
            seq![
                "        } else if (this._transport === 'wxrequest') {"@,
            ]
        } else {
            seq![
                "        if (this._transport === 'wxrequest') {"@,
            ]
        }));
        let ghost g42 = cb@;
        cb.l("            this._ready = Promise.resolve();");
        cb.l("            this._call = this._callWxReq;");
        assert(cb@ =~= g42 + seq![
            "            this._ready = Promise.resolve();"@,
            "            this._call = this._callWxReq;"@,
        ]);
        let ghost g43 = cb@;
        if has_ordinary {
            let ghost g44 = cb@;
            cb.l("            this._request = this._requestWxReq;");
            assert(cb@ =~= g44 + seq![
                "            this._request = this._requestWxReq;"@,
            ]);
            assert(cb@ =~= g43 + seq![
                "            this._request = this._requestWxReq;"@,
            ]);
        } else {
            assert(cb@ =~= g43 + Seq::<Seq<char>>::empty());
        }
        assert(cb@ =~= g43 + (if has_ordinary {
            seq![
                "            this._request = this._requestWxReq;"@,
            ]
        } else {
            Seq::<Seq<char>>::empty()
        }));
        assert(cb@ =~= g38 + (if has_ws || has_uni_ws || has_wxws {
            seq![
                "        } else if (this._transport === 'wxrequest') {"@,
            ]
        } else {
            seq![
                "        if (this._transport === 'wxrequest') {"@,
            ]
        }) + seq![
            "            this._ready = Promise.resolve();"@,
            "            this._call = this._callWxReq;"@,
        ] + (if has_ordinary {
            seq![
                "            this._request = this._requestWxReq;"@,
            ]
        } else {
            Seq::<Seq<char>>::empty()
        }));
    } else {
        assert(cb@ =~= g38 + Seq::<Seq<char>>::empty());
    }
    assert(cb@ =~= g38 + (if has_wxrequest {
        (if has_ws || has_uni_ws || has_wxws {
            seq![
                "        } else if (this._transport === 'wxrequest') {"@,
            ]
        } else {
            seq![
                "        if (this._transport === 'wxrequest') {"@,
            ]
        }) + seq![
            "            this._ready = Promise.resolve();"@,
            "            this._call = this._callWxReq;"@,
        ] + (if has_ordinary {
            seq![
                "            this._request = this._requestWxReq;"@,
            ]
        } else {
            Seq::<Seq<char>>::empty()
        })
    } else {
        Seq::<Seq<char>>::empty()
    }));
    proof {
        reveal(js_init_part2);
    }
    assert(cb@ =~= start + js_init_part2(has_ws, has_uni_ws, has_wxws, has_wxrequest, has_fetch, has_uni_req, has_nodetcp, has_buntcp, has_ordinary));
}

/// A part of [`js_init`].
#[verifier::opaque]
pub open spec fn js_init_part3(has_ws: bool, has_uni_ws: bool, has_wxws: bool, has_wxrequest: bool, has_fetch: bool, has_uni_req: bool, has_nodetcp: bool, has_buntcp: bool, has_ordinary: bool) -> Seq<Seq<char>> {
    (if has_fetch {
        (if has_ws || has_uni_ws || has_wxws || has_wxrequest {
            seq![
                "        } else if (this._transport === 'fetch') {"@,
            ]
        } else {
            seq![
                "        if (this._transport === 'fetch') {"@,
            ]
        }) + seq![
            "            this._ready = Promise.resolve();"@,
            "            this._call = this._callFetch;"@,
        ] + (if has_ordinary {
            seq![
                "            this._request = this._requestFetch;"@,
            ]
        } else {
            Seq::<Seq<char>>::empty()
        })
    } else {
        Seq::<Seq<char>>::empty()
    }) + (if has_uni_req {
        (if has_ws || has_uni_ws || has_wxws || has_wxrequest || has_fetch {
            seq![
                "        } else if (this._transport === 'unirequest') {"@,
            ]
        } else {
            seq![
                "        if (this._transport === 'unirequest') {"@,
            ]
        }) + seq![
            "            this._ready = Promise.resolve();"@,
            "            this._call = this._callUniReq;"@,
        ] + (if has_ordinary {
            seq![
                "            this._request = this._requestUniReq;"@,
            ]
        } else {
            Seq::<Seq<char>>::empty()
        })
    } else {
        Seq::<Seq<char>>::empty()
    })
}

fn push_js_init_part3(cb: &mut CodeBuf, has_ws: bool, has_uni_ws: bool, has_wxws: bool, has_wxrequest: bool, has_fetch: bool, has_uni_req: bool, has_nodetcp: bool, has_buntcp: bool, has_ordinary: bool)
    ensures
        final(cb)@ == old(cb)@ + js_init_part3(has_ws, has_uni_ws, has_wxws, has_wxrequest, has_fetch, has_uni_req, has_nodetcp, has_buntcp, has_ordinary),
{
    let ghost start = cb@;
    let ghost g45 = cb@;
    if has_fetch {
        let ghost g46 = cb@;
        if has_ws || has_uni_ws || has_wxws || has_wxrequest {
            let ghost g47 = cb@;
            cb.l("        } else if (this._transport === 'fetch') {");
            assert(cb@ =~= g47 + seq![
                "        } else if (this._transport === 'fetch') {"@,
            ]);
            assert(cb@ =~= g46 + seq![
                "        } else if (this._transport === 'fetch') {"@,
            ]);
        } else {
            let ghost g48 = cb@;
            cb.l("        if (this._transport === 'fetch') {");
            assert(cb@ =~= g48 + seq![
                "        if (this._transport === 'fetch') {"@,
            ]);
            assert(cb@ =~= g46 + seq![
                "        if (this._transport === 'fetch') {"@,
            ]);
        }
        assert(cb@ =~= g46 + (if has_ws || has_uni_ws || has_wxws || has_wxrequest {
            seq![
                "        } else if (this._transport === 'fetch') {"@,
            ]
        } else {
            seq![
                "        if (this._transport === 'fetch') {"@,
            ]
        }));
        let ghost g49 = cb@;
        cb.l("            this._ready = Promise.resolve();");
        cb.l("            this._call = this._callFetch;");
        assert(cb@ =~= g49 + seq![
            "            this._ready = Promise.resolve();"@,
            "            this._call = this._callFetch;"@,
        ]);
        let ghost g50 = cb@;
        if has_ordinary {
            let ghost g51 = cb@;
            cb.l("            this._request = this._requestFetch;");
            assert(cb@ =~= g51 + seq![
                "            this._request = this._requestFetch;"@,
            ]);
            assert(cb@ =~= g50 + seq![
                "            this._request = this._requestFetch;"@,
            ]);
        } else {
            assert(cb@ =~= g50 + Seq::<Seq<char>>::empty());
        }
        assert(cb@ =~= g50 + (if has_ordinary {
            seq![
                "            this._request = this._requestFetch;"@,
            ]
        } else {
            Seq::<Seq<char>>::empty()
        }));
        assert(cb@ =~= g45 + (if has_ws || has_uni_ws || has_wxws || has_wxrequest {
            seq![
                "        } else if (this._transport === 'fetch') {"@,
            ]
        } else {
            seq![
                "        if (this._transport === 'fetch') {"@,
            ]
        }) + seq![
            "            this._ready = Promise.resolve();"@,
            "            this._call = this._callFetch;"@,
        ] + (if has_ordinary {
            seq![
                "            this._request = this._requestFetch;"@,
            ]
        } else {
            Seq::<Seq<char>>::empty()
        }));
    } else {
        assert(cb@ =~= g45 + Seq::<Seq<char>>::empty());
    }
    assert(cb@ =~= g45 + (if has_fetch {
        (if has_ws || has_uni_ws || has_wxws || has_wxrequest {
            seq![
                "        } else if (this._transport === 'fetch') {"@,
            ]
        } else {
            seq![
                "        if (this._transport === 'fetch') {"@,
            ]
        }) + seq![
            "            this._ready = Promise.resolve();"@,
            "            this._call = this._callFetch;"@,
        ] + (if has_ordinary {
            seq![
                "            this._request = this._requestFetch;"@,
            ]
        } else {
            Seq::<Seq<char>>::empty()
        })
    } else {
        Seq::<Seq<char>>::empty()
    }));
    let ghost g52 = cb@;
    if has_uni_req {
        let ghost g53 = cb@;
        if has_ws || has_uni_ws || has_wxws || has_wxrequest || has_fetch {
            let ghost g54 = cb@;
            cb.l("        } else if (this._transport === 'unirequest') {");
            assert(cb@ =~= g54 + seq![
                "        } else if (this._transport === 'unirequest') {"@,
            ]);
            assert(cb@ =~= g53 + seq![
                "        } else if (this._transport === 'unirequest') {"@,
            ]);
        } else {
            let ghost g55 = cb@;
            cb.l("        if (this._transport === 'unirequest') {");
            assert(cb@ =~= g55 + seq![
                "        if (this._transport === 'unirequest') {"@,
            ]);
            assert(cb@ =~= g53 + seq![
                "        if (this._transport === 'unirequest') {"@,
            ]);
        }
        assert(cb@ =~= g53 + (if has_ws || has_uni_ws || has_wxws || has_wxrequest || has_fetch {
            seq![
                "        } else if (this._transport === 'unirequest') {"@,
            ]
        } else {
            seq![
                "        if (this._transport === 'unirequest') {"@,
            ]
        }));
        let ghost g56 = cb@;
        cb.l("            this._ready = Promise.resolve();");
        cb.l("            this._call = this._callUniReq;");
        assert(cb@ =~= g56 + seq![
            "            this._ready = Promise.resolve();"@,
            "            this._call = this._callUniReq;"@,
        ]);
        let ghost g57 = cb@;
        if has_ordinary {
            let ghost g58 = cb@;
            cb.l("            this._request = this._requestUniReq;");
            assert(cb@ =~= g58 + seq![
                "            this._request = this._requestUniReq;"@,
            ]);
            assert(cb@ =~= g57 + seq![
                "            this._request = this._requestUniReq;"@,
            ]);
        } else {
            assert(cb@ =~= g57 + Seq::<Seq<char>>::empty());
        }
        assert(cb@ =~= g57 + (if has_ordinary {
            seq![
                "            this._request = this._requestUniReq;"@,
            ]
        } else {
            Seq::<Seq<char>>::empty()
        }));
        assert(cb@ =~= g52 + (if has_ws || has_uni_ws || has_wxws || has_wxrequest || has_fetch {
            seq![
                "        } else if (this._transport === 'unirequest') {"@,
            ]
        } else {
            seq![
                "        if (this._transport === 'unirequest') {"@,
            ]
        }) + seq![
            "            this._ready = Promise.resolve();"@,
            "            this._call = this._callUniReq;"@,
        ] + (if has_ordinary {
            seq![
                "            this._request = this._requestUniReq;"@,
            ]
        } else {
            Seq::<Seq<char>>::empty()
        }));
    } else {
        assert(cb@ =~= g52 + Seq::<Seq<char>>::empty());
    }
    assert(cb@ =~= g52 + (if has_uni_req {
        (if has_ws || has_uni_ws || has_wxws || has_wxrequest || has_fetch {
            seq![
                "        } else if (this._transport === 'unirequest') {"@,
            ]
        } else {
            seq![
                "        if (this._transport === 'unirequest') {"@,
            ]
        }) + seq![
            "            this._ready = Promise.resolve();"@,
            "            this._call = this._callUniReq;"@,
        ] + (if has_ordinary {
            seq![
                "            this._request = this._requestUniReq;"@,
            ]
        } else {
            Seq::<Seq<char>>::empty()
        })
    } else {
        Seq::<Seq<char>>::empty()
    }));
    proof {
        reveal(js_init_part3);
    }
    assert(cb@ =~= start + js_init_part3(has_ws, has_uni_ws, has_wxws, has_wxrequest, has_fetch, has_uni_req, has_nodetcp, has_buntcp, has_ordinary));
}

/// A part of [`js_init`].
#[verifier::opaque]
pub open spec fn js_init_part4(has_ws: bool, has_uni_ws: bool, has_wxws: bool, has_wxrequest: bool, has_fetch: bool, has_uni_req: bool, has_nodetcp: bool, has_buntcp: bool, has_ordinary: bool) -> Seq<Seq<char>> {
    (if has_nodetcp {
        (if has_ws || has_uni_ws || has_wxws || has_wxrequest || has_fetch || has_uni_req {
            seq![
                "        } else if (this._transport === 'nodetcp') {"@,
            ]
        } else {
            seq![
                "        if (this._transport === 'nodetcp') {"@,
            ]
        }) + seq![
            "            this._initNodeTcp();"@,
        ]
    } else {
        Seq::<Seq<char>>::empty()
    }) + (if has_buntcp {
        (if has_ws || has_uni_ws || has_wxws || has_wxrequest || has_fetch || has_uni_req || has_nodetcp {
            seq![
                "        } else if (this._transport === 'buntcp') {"@,
            ]
        } else {
            seq![
                "        if (this._transport === 'buntcp') {"@,
            ]
        }) + seq![
            "            this._initBunTcp();"@,
        ]
    } else {
        Seq::<Seq<char>>::empty()
    })
}

fn push_js_init_part4(cb: &mut CodeBuf, has_ws: bool, has_uni_ws: bool, has_wxws: bool, has_wxrequest: bool, has_fetch: bool, has_uni_req: bool, has_nodetcp: bool, has_buntcp: bool, has_ordinary: bool)
    ensures
        final(cb)@ == old(cb)@ + js_init_part4(has_ws, has_uni_ws, has_wxws, has_wxrequest, has_fetch, has_uni_req, has_nodetcp, has_buntcp, has_ordinary),
{
    let ghost start = cb@;
    let ghost g59 = cb@;
    if has_nodetcp {
        let ghost g60 = cb@;
        if has_ws || has_uni_ws || has_wxws || has_wxrequest || has_fetch || has_uni_req {
            let ghost g61 = cb@;
            cb.l("        } else if (this._transport === 'nodetcp') {");
            assert(cb@ =~= g61 + seq![
                "        } else if (this._transport === 'nodetcp') {"@,
            ]);
            assert(cb@ =~= g60 + seq![
                "        } else if (this._transport === 'nodetcp') {"@,
            ]);
        } else {
            let ghost g62 = cb@;
            cb.l("        if (this._transport === 'nodetcp') {");
            assert(cb@ =~= g62 + seq![
                "        if (this._transport === 'nodetcp') {"@,
            ]);
            assert(cb@ =~= g60 + seq![
                "        if (this._transport === 'nodetcp') {"@,
            ]);
        }
        assert(cb@ =~= g60 + (if has_ws || has_uni_ws || has_wxws || has_wxrequest || has_fetch || has_uni_req {
            seq![
                "        } else if (this._transport === 'nodetcp') {"@,
            ]
        } else {
            seq![
                "        if (this._transport === 'nodetcp') {"@,
            ]
        }));
        let ghost g63 = cb@;
        cb.l("            this._initNodeTcp();");
        assert(cb@ =~= g63 + seq![
            "            this._initNodeTcp();"@,
        ]);
        assert(cb@ =~= g59 + (if has_ws || has_uni_ws || has_wxws || has_wxrequest || has_fetch || has_uni_req {
            seq![
                "        } else if (this._transport === 'nodetcp') {"@,
            ]
        } else {
            seq![
                "        if (this._transport === 'nodetcp') {"@,
            ]
        }) + seq![
            "            this._initNodeTcp();"@,
        ]);
    } else {
        assert(cb@ =~= g59 + Seq::<Seq<char>>::empty());
    }
    assert(cb@ =~= g59 + (if has_nodetcp {
        (if has_ws || has_uni_ws || has_wxws || has_wxrequest || has_fetch || has_uni_req {
            seq![
                "        } else if (this._transport === 'nodetcp') {"@,
            ]
        } else {
            seq![
                "        if (this._transport === 'nodetcp') {"@,
            ]
        }) + seq![
            "            this._initNodeTcp();"@,
        ]
    } else {
        Seq::<Seq<char>>::empty()
    }));
    let ghost g64 = cb@;
    if has_buntcp {
        let ghost g65 = cb@;
        if has_ws || has_uni_ws || has_wxws || has_wxrequest || has_fetch || has_uni_req || has_nodetcp {
            let ghost g66 = cb@;
            cb.l("        } else if (this._transport === 'buntcp') {");
            assert(cb@ =~= g66 + seq![
                "        } else if (this._transport === 'buntcp') {"@,
            ]);
            assert(cb@ =~= g65 + seq![
                "        } else if (this._transport === 'buntcp') {"@,
            ]);
        } else {
            let ghost g67 = cb@;
            cb.l("        if (this._transport === 'buntcp') {");
            assert(cb@ =~= g67 + seq![
                "        if (this._transport === 'buntcp') {"@,
            ]);
            assert(cb@ =~= g65 + seq![
                "        if (this._transport === 'buntcp') {"@,
            ]);
        }
        assert(cb@ =~= g65 + (if has_ws || has_uni_ws || has_wxws || has_wxrequest || has_fetch || has_uni_req || has_nodetcp {
            seq![
                "        } else if (this._transport === 'buntcp') {"@,
            ]
        } else {
            seq![
                "        if (this._transport === 'buntcp') {"@,
            ]
        }));
        let ghost g68 = cb@;
        cb.l("            this._initBunTcp();");
        assert(cb@ =~= g68 + seq![
            "            this._initBunTcp();"@,
        ]);
        assert(cb@ =~= g64 + (if has_ws || has_uni_ws || has_wxws || has_wxrequest || has_fetch || has_uni_req || has_nodetcp {
            seq![
                "        } else if (this._transport === 'buntcp') {"@,
            ]
        } else {
            seq![
                "        if (this._transport === 'buntcp') {"@,
            ]
        }) + seq![
            "            this._initBunTcp();"@,
        ]);
    } else {
        assert(cb@ =~= g64 + Seq::<Seq<char>>::empty());
    }
    assert(cb@ =~= g64 + (if has_buntcp {
        (if has_ws || has_uni_ws || has_wxws || has_wxrequest || has_fetch || has_uni_req || has_nodetcp {
            seq![
                "        } else if (this._transport === 'buntcp') {"@,
            ]
        } else {
            seq![
                "        if (this._transport === 'buntcp') {"@,
            ]
        }) + seq![
            "            this._initBunTcp();"@,
        ]
    } else {
        Seq::<Seq<char>>::empty()
    }));
    proof {
        reveal(js_init_part4);
    }
    assert(cb@ =~= start + js_init_part4(has_ws, has_uni_ws, has_wxws, has_wxrequest, has_fetch, has_uni_req, has_nodetcp, has_buntcp, has_ordinary));
}

/// A part of [`js_init`].
#[verifier::opaque]
pub open spec fn js_init_part5(has_ws: bool, has_uni_ws: bool, has_wxws: bool, has_wxrequest: bool, has_fetch: bool, has_uni_req: bool, has_nodetcp: bool, has_buntcp: bool, has_ordinary: bool) -> Seq<Seq<char>> {
    (if has_ws || has_uni_ws || has_wxws || has_wxrequest || has_fetch || has_uni_req || has_nodetcp || has_buntcp {
        seq![
            "        }"@,
        ]
    } else {
        seq![
            "        this._ready = Promise.resolve();"@,
        ]
    }) + seq![
        "    }"@,
    ]
}

fn push_js_init_part5(cb: &mut CodeBuf, has_ws: bool, has_uni_ws: bool, has_wxws: bool, has_wxrequest: bool, has_fetch: bool, has_uni_req: bool, has_nodetcp: bool, has_buntcp: bool, has_ordinary: bool)
    ensures
        final(cb)@ == old(cb)@ + js_init_part5(has_ws, has_uni_ws, has_wxws, has_wxrequest, has_fetch, has_uni_req, has_nodetcp, has_buntcp, has_ordinary),
{
    let ghost start = cb@;
    let ghost g69 = cb@;
    if has_ws || has_uni_ws || has_wxws || has_wxrequest || has_fetch || has_uni_req || has_nodetcp || has_buntcp {
        let ghost g70 = cb@;
        cb.l("        }");
        assert(cb@ =~= g70 + seq![
            "        }"@,
        ]);
        assert(cb@ =~= g69 + seq![
            "        }"@,
        ]);
    } else {
        let ghost g71 = cb@;
        cb.l("        this._ready = Promise.resolve();");
        assert(cb@ =~= g71 + seq![
            "        this._ready = Promise.resolve();"@,
        ]);
        assert(cb@ =~= g69 + seq![
            "        this._ready = Promise.resolve();"@,
        ]);
    }
    assert(cb@ =~= g69 + (if has_ws || has_uni_ws || has_wxws || has_wxrequest || has_fetch || has_uni_req || has_nodetcp || has_buntcp {
        seq![
            "        }"@,
        ]
    } else {
        seq![
            "        this._ready = Promise.resolve();"@,
        ]
    }));
    let ghost g72 = cb@;
    cb.l("    }");
    assert(cb@ =~= g72 + seq![
        "    }"@,
    ]);
    proof {
        reveal(js_init_part5);
    }
    assert(cb@ =~= start + js_init_part5(has_ws, has_uni_ws, has_wxws, has_wxrequest, has_fetch, has_uni_req, has_nodetcp, has_buntcp, has_ordinary));
}

/// The transport set-up at the end of the client constructor.
pub open spec fn js_init(has_ws: bool, has_uni_ws: bool, has_wxws: bool, has_wxrequest: bool, has_fetch: bool, has_uni_req: bool, has_nodetcp: bool, has_buntcp: bool, has_ordinary: bool) -> Seq<Seq<char>> {
    js_init_part1(has_ws, has_uni_ws, has_wxws, has_wxrequest, has_fetch, has_uni_req, has_nodetcp, has_buntcp, has_ordinary) + js_init_part2(has_ws, has_uni_ws, has_wxws, has_wxrequest, has_fetch, has_uni_req, has_nodetcp, has_buntcp, has_ordinary) + js_init_part3(has_ws, has_uni_ws, has_wxws, has_wxrequest, has_fetch, has_uni_req, has_nodetcp, has_buntcp, has_ordinary) + js_init_part4(has_ws, has_uni_ws, has_wxws, has_wxrequest, has_fetch, has_uni_req, has_nodetcp, has_buntcp, has_ordinary) + js_init_part5(has_ws, has_uni_ws, has_wxws, has_wxrequest, has_fetch, has_uni_req, has_nodetcp, has_buntcp, has_ordinary)
}

fn push_js_init(cb: &mut CodeBuf, has_ws: bool, has_uni_ws: bool, has_wxws: bool, has_wxrequest: bool, has_fetch: bool, has_uni_req: bool, has_nodetcp: bool, has_buntcp: bool, has_ordinary: bool)
    ensures
        final(cb)@ == old(cb)@ + js_init(has_ws, has_uni_ws, has_wxws, has_wxrequest, has_fetch, has_uni_req, has_nodetcp, has_buntcp, has_ordinary),
{
    let ghost start = cb@;
    push_js_init_part1(cb, has_ws, has_uni_ws, has_wxws, has_wxrequest, has_fetch, has_uni_req, has_nodetcp, has_buntcp, has_ordinary);
    push_js_init_part2(cb, has_ws, has_uni_ws, has_wxws, has_wxrequest, has_fetch, has_uni_req, has_nodetcp, has_buntcp, has_ordinary);
    push_js_init_part3(cb, has_ws, has_uni_ws, has_wxws, has_wxrequest, has_fetch, has_uni_req, has_nodetcp, has_buntcp, has_ordinary);
    push_js_init_part4(cb, has_ws, has_uni_ws, has_wxws, has_wxrequest, has_fetch, has_uni_req, has_nodetcp, has_buntcp, has_ordinary);
    push_js_init_part5(cb, has_ws, has_uni_ws, has_wxws, has_wxrequest, has_fetch, has_uni_req, has_nodetcp, has_buntcp, has_ordinary);
    assert(cb@ =~= start + (js_init_part1(has_ws, has_uni_ws, has_wxws, has_wxrequest, has_fetch, has_uni_req, has_nodetcp, has_buntcp, has_ordinary) + js_init_part2(has_ws, has_uni_ws, has_wxws, has_wxrequest, has_fetch, has_uni_req, has_nodetcp, has_buntcp, has_ordinary) + js_init_part3(has_ws, has_uni_ws, has_wxws, has_wxrequest, has_fetch, has_uni_req, has_nodetcp, has_buntcp, has_ordinary) + js_init_part4(has_ws, has_uni_ws, has_wxws, has_wxrequest, has_fetch, has_uni_req, has_nodetcp, has_buntcp, has_ordinary) + js_init_part5(has_ws, has_uni_ws, has_wxws, has_wxrequest, has_fetch, has_uni_req, has_nodetcp, has_buntcp, has_ordinary)));
}

/// The dispatcher of long-connection frames: pushed data and call replies.
#[verifier::opaque]
pub open spec fn js_handle_message(has_sock: bool) -> Seq<Seq<char>> {
    (if has_sock {
        seq![
            ""@,
            "    /** @param {Uint8Array} raw */"@,
            "    _handleMessage(raw) {"@,
            "        if (raw.length < 4) return;"@,
            "        const reqId = raw[0] | (raw[1] << 8) | (raw[2] << 16) | (raw[3] << 24);"@,
            "        if (reqId === 0) {"@,
            "            if (raw.length < 12) return;"@,
            "            const connId = raw[4] | (raw[5]<<8) | (raw[6]<<16) | (raw[7]<<24);"@,
            "            const len = raw[8]|(raw[9]<<8)|(raw[10]<<16)|(raw[11]<<24);"@,
            "            const payload = raw.slice(12, 12 + len);"@,
            "            this._pushHandlers.get(connId)?.(payload);"@,
            "            return;"@,
            "        }"@,
            "        const p = this._pending.get(reqId);"@,
            "        if (!p) return;"@,
            "        clearTimeout(p.timer);"@,
            "        this._pending.delete(reqId);"@,
            "        if (raw.length < 17) { if(this._onError) this._onError(-1, 'response too short'); p.reject(new AFastError(-1, 'response too short')); return; }"@,
            "        const status = raw[8];"@,
            "        if (status === 1) {"@,
            "            const codeLo = raw[9]|(raw[10]<<8)|(raw[11]<<16)|(raw[12]<<24);"@,
            "            const codeHi = raw[13]|(raw[14]<<8)|(raw[15]<<16)|(raw[16]<<24);"@,
            "            const codeVal = codeHi * 0x100000000 + (codeLo >>> 0);"@,
            "            const msg = new TextDecoder().decode(raw.slice(17));"@,
            "            if(this._onError) this._onError(codeVal, msg);"@,
            "            p.reject(new AFastError(codeVal, msg));"@,
            "        } else {"@,
            "            p.resolve(raw.slice(17));"@,
            "        }"@,
            "    }"@,
        ]
    } else {
        Seq::<Seq<char>>::empty()
    })
}

fn push_js_handle_message(cb: &mut CodeBuf, has_sock: bool)
    ensures
        final(cb)@ == old(cb)@ + js_handle_message(has_sock),
{
    let ghost start = cb@;
    let ghost g73 = cb@;
    if has_sock {
        let ghost g74 = cb@;
        cb.l("");
        cb.l("    /** @param {Uint8Array} raw */");
        cb.l("    _handleMessage(raw) {");
        cb.l("        if (raw.length < 4) return;");
        cb.l("        const reqId = raw[0] | (raw[1] << 8) | (raw[2] << 16) | (raw[3] << 24);");
        cb.l("        if (reqId === 0) {");
        cb.l("            if (raw.length < 12) return;");
        cb.l("            const connId = raw[4] | (raw[5]<<8) | (raw[6]<<16) | (raw[7]<<24);");
        cb.l("            const len = raw[8]|(raw[9]<<8)|(raw[10]<<16)|(raw[11]<<24);");
        cb.l("            const payload = raw.slice(12, 12 + len);");
        cb.l("            this._pushHandlers.get(connId)?.(payload);");
        cb.l("            return;");
        cb.l("        }");
        cb.l("        const p = this._pending.get(reqId);");
        cb.l("        if (!p) return;");
        cb.l("        clearTimeout(p.timer);");
        cb.l("        this._pending.delete(reqId);");
        cb.l("        if (raw.length < 17) { if(this._onError) this._onError(-1, 'response too short'); p.reject(new AFastError(-1, 'response too short')); return; }");
        cb.l("        const status = raw[8];");
        cb.l("        if (status === 1) {");
        cb.l("            const codeLo = raw[9]|(raw[10]<<8)|(raw[11]<<16)|(raw[12]<<24);");
        cb.l("            const codeHi = raw[13]|(raw[14]<<8)|(raw[15]<<16)|(raw[16]<<24);");
        cb.l("            const codeVal = codeHi * 0x100000000 + (codeLo >>> 0);");
        cb.l("            const msg = new TextDecoder().decode(raw.slice(17));");
        cb.l("            if(this._onError) this._onError(codeVal, msg);");
        cb.l("            p.reject(new AFastError(codeVal, msg));");
        cb.l("        } else {");
        cb.l("            p.resolve(raw.slice(17));");
        cb.l("        }");
        cb.l("    }");
        assert(cb@ =~= g74 + seq![
            ""@,
            "    /** @param {Uint8Array} raw */"@,
            "    _handleMessage(raw) {"@,
            "        if (raw.length < 4) return;"@,
            "        const reqId = raw[0] | (raw[1] << 8) | (raw[2] << 16) | (raw[3] << 24);"@,
            "        if (reqId === 0) {"@,
            "            if (raw.length < 12) return;"@,
            "            const connId = raw[4] | (raw[5]<<8) | (raw[6]<<16) | (raw[7]<<24);"@,
            "            const len = raw[8]|(raw[9]<<8)|(raw[10]<<16)|(raw[11]<<24);"@,
            "            const payload = raw.slice(12, 12 + len);"@,
            "            this._pushHandlers.get(connId)?.(payload);"@,
            "            return;"@,
            "        }"@,
            "        const p = this._pending.get(reqId);"@,
            "        if (!p) return;"@,
            "        clearTimeout(p.timer);"@,
            "        this._pending.delete(reqId);"@,
            "        if (raw.length < 17) { if(this._onError) this._onError(-1, 'response too short'); p.reject(new AFastError(-1, 'response too short')); return; }"@,
            "        const status = raw[8];"@,
            "        if (status === 1) {"@,
            "            const codeLo = raw[9]|(raw[10]<<8)|(raw[11]<<16)|(raw[12]<<24);"@,
            "            const codeHi = raw[13]|(raw[14]<<8)|(raw[15]<<16)|(raw[16]<<24);"@,
            "            const codeVal = codeHi * 0x100000000 + (codeLo >>> 0);"@,
            "            const msg = new TextDecoder().decode(raw.slice(17));"@,
            "            if(this._onError) this._onError(codeVal, msg);"@,
            "            p.reject(new AFastError(codeVal, msg));"@,
            "        } else {"@,
            "            p.resolve(raw.slice(17));"@,
            "        }"@,
            "    }"@,
        ]);
        assert(cb@ =~= g73 + seq![
            ""@,
            "    /** @param {Uint8Array} raw */"@,
            "    _handleMessage(raw) {"@,
            "        if (raw.length < 4) return;"@,
            "        const reqId = raw[0] | (raw[1] << 8) | (raw[2] << 16) | (raw[3] << 24);"@,
            "        if (reqId === 0) {"@,
            "            if (raw.length < 12) return;"@,
            "            const connId = raw[4] | (raw[5]<<8) | (raw[6]<<16) | (raw[7]<<24);"@,
            "            const len = raw[8]|(raw[9]<<8)|(raw[10]<<16)|(raw[11]<<24);"@,
            "            const payload = raw.slice(12, 12 + len);"@,
            "            this._pushHandlers.get(connId)?.(payload);"@,
            "            return;"@,
            "        }"@,
            "        const p = this._pending.get(reqId);"@,
            "        if (!p) return;"@,
            "        clearTimeout(p.timer);"@,
            "        this._pending.delete(reqId);"@,
            "        if (raw.length < 17) { if(this._onError) this._onError(-1, 'response too short'); p.reject(new AFastError(-1, 'response too short')); return; }"@,
            "        const status = raw[8];"@,
            "        if (status === 1) {"@,
            "            const codeLo = raw[9]|(raw[10]<<8)|(raw[11]<<16)|(raw[12]<<24);"@,
            "            const codeHi = raw[13]|(raw[14]<<8)|(raw[15]<<16)|(raw[16]<<24);"@,
            "            const codeVal = codeHi * 0x100000000 + (codeLo >>> 0);"@,
            "            const msg = new TextDecoder().decode(raw.slice(17));"@,
            "            if(this._onError) this._onError(codeVal, msg);"@,
            "            p.reject(new AFastError(codeVal, msg));"@,
            "        } else {"@,
            "            p.resolve(raw.slice(17));"@,
            "        }"@,
            "    }"@,
        ]);
    } else {
        assert(cb@ =~= g73 + Seq::<Seq<char>>::empty());
    }
    assert(cb@ =~= g73 + (if has_sock {
        seq![
            ""@,
            "    /** @param {Uint8Array} raw */"@,
            "    _handleMessage(raw) {"@,
            "        if (raw.length < 4) return;"@,
            "        const reqId = raw[0] | (raw[1] << 8) | (raw[2] << 16) | (raw[3] << 24);"@,
            "        if (reqId === 0) {"@,
            "            if (raw.length < 12) return;"@,
            "            const connId = raw[4] | (raw[5]<<8) | (raw[6]<<16) | (raw[7]<<24);"@,
            "            const len = raw[8]|(raw[9]<<8)|(raw[10]<<16)|(raw[11]<<24);"@,
            "            const payload = raw.slice(12, 12 + len);"@,
            "            this._pushHandlers.get(connId)?.(payload);"@,
            "            return;"@,
            "        }"@,
            "        const p = this._pending.get(reqId);"@,
            "        if (!p) return;"@,
            "        clearTimeout(p.timer);"@,
            "        this._pending.delete(reqId);"@,
            "        if (raw.length < 17) { if(this._onError) this._onError(-1, 'response too short'); p.reject(new AFastError(-1, 'response too short')); return; }"@,
            "        const status = raw[8];"@,
            "        if (status === 1) {"@,
            "            const codeLo = raw[9]|(raw[10]<<8)|(raw[11]<<16)|(raw[12]<<24);"@,
            "            const codeHi = raw[13]|(raw[14]<<8)|(raw[15]<<16)|(raw[16]<<24);"@,
            "            const codeVal = codeHi * 0x100000000 + (codeLo >>> 0);"@,
            "            const msg = new TextDecoder().decode(raw.slice(17));"@,
            "            if(this._onError) this._onError(codeVal, msg);"@,
            "            p.reject(new AFastError(codeVal, msg));"@,
            "        } else {"@,
            "            p.resolve(raw.slice(17));"@,
            "        }"@,
            "    }"@,
        ]
    } else {
        Seq::<Seq<char>>::empty()
    }));
    proof {
        reveal(js_handle_message);
    }
    assert(cb@ =~= start + js_handle_message(has_sock));
}

/// The ordinary JSON request over `fetch`.
#[verifier::opaque]
pub open spec fn js_request_fetch(has_fetch: bool, has_ordinary: bool) -> Seq<Seq<char>> {
    (if has_ordinary && has_fetch {
        seq![
            ""@,
            "    /**"@,
            "     * @param {string} url"@,
            "     * @param {RequestInit} opts"@,
            "     * @returns {Promise<any>}"@,
            "     */"@,
            "    async _requestFetch(url, opts) {"@,
            "        const resp = await fetch(url, opts);"@,
            "        if (!resp.ok) {"@,
            "            let err;"@,
            "            try { err = await resp.json(); } catch { err = { code: -1, message: resp.statusText }; }"@,
            "            if (this._onError) this._onError(err.code || -1, err.message || String(resp.status));"@,
            "            throw new AFastError(err.code || -1, err.message || String(resp.status));"@,
            "        }"@,
            "        try { return await resp.json(); } catch { return null; }"@,
            "    }"@,
        ]
    } else {
        Seq::<Seq<char>>::empty()
    })
}

fn push_js_request_fetch(cb: &mut CodeBuf, has_fetch: bool, has_ordinary: bool)
    ensures
        final(cb)@ == old(cb)@ + js_request_fetch(has_fetch, has_ordinary),
{
    let ghost start = cb@;
    let ghost g75 = cb@;
    if has_ordinary && has_fetch {
        let ghost g76 = cb@;
        cb.l("");
        cb.l("    /**");
        cb.l("     * @param {string} url");
        cb.l("     * @param {RequestInit} opts");
        cb.l("     * @returns {Promise<any>}");
        cb.l("     */");
        cb.l("    async _requestFetch(url, opts) {");
        cb.l("        const resp = await fetch(url, opts);");
        cb.l("        if (!resp.ok) {");
        cb.l("            let err;");
        cb.l("            try { err = await resp.json(); } catch { err = { code: -1, message: resp.statusText }; }");
        cb.l("            if (this._onError) this._onError(err.code || -1, err.message || String(resp.status));");
        cb.l("            throw new AFastError(err.code || -1, err.message || String(resp.status));");
        cb.l("        }");
        cb.l("        try { return await resp.json(); } catch { return null; }");
        cb.l("    }");
        assert(cb@ =~= g76 + seq![
            ""@,
            "    /**"@,
            "     * @param {string} url"@,
            "     * @param {RequestInit} opts"@,
            "     * @returns {Promise<any>}"@,
            "     */"@,
            "    async _requestFetch(url, opts) {"@,
            "        const resp = await fetch(url, opts);"@,
            "        if (!resp.ok) {"@,
            "            let err;"@,
            "            try { err = await resp.json(); } catch { err = { code: -1, message: resp.statusText }; }"@,
            "            if (this._onError) this._onError(err.code || -1, err.message || String(resp.status));"@,
            "            throw new AFastError(err.code || -1, err.message || String(resp.status));"@,
            "        }"@,
            "        try { return await resp.json(); } catch { return null; }"@,
            "    }"@,
        ]);
        assert(cb@ =~= g75 + seq![
            ""@,
            "    /**"@,
            "     * @param {string} url"@,
            "     * @param {RequestInit} opts"@,
            "     * @returns {Promise<any>}"@,
            "     */"@,
            "    async _requestFetch(url, opts) {"@,
            "        const resp = await fetch(url, opts);"@,
            "        if (!resp.ok) {"@,
            "            let err;"@,
            "            try { err = await resp.json(); } catch { err = { code: -1, message: resp.statusText }; }"@,
            "            if (this._onError) this._onError(err.code || -1, err.message || String(resp.status));"@,
            "            throw new AFastError(err.code || -1, err.message || String(resp.status));"@,
            "        }"@,
            "        try { return await resp.json(); } catch { return null; }"@,
            "    }"@,
        ]);
    } else {
        assert(cb@ =~= g75 + Seq::<Seq<char>>::empty());
    }
    assert(cb@ =~= g75 + (if has_ordinary && has_fetch {
        seq![
            ""@,
            "    /**"@,
            "     * @param {string} url"@,
            "     * @param {RequestInit} opts"@,
            "     * @returns {Promise<any>}"@,
            "     */"@,
            "    async _requestFetch(url, opts) {"@,
            "        const resp = await fetch(url, opts);"@,
            "        if (!resp.ok) {"@,
            "            let err;"@,
            "            try { err = await resp.json(); } catch { err = { code: -1, message: resp.statusText }; }"@,
            "            if (this._onError) this._onError(err.code || -1, err.message || String(resp.status));"@,
            "            throw new AFastError(err.code || -1, err.message || String(resp.status));"@,
            "        }"@,
            "        try { return await resp.json(); } catch { return null; }"@,
            "    }"@,
        ]
    } else {
        Seq::<Seq<char>>::empty()
    }));
    proof {
        reveal(js_request_fetch);
    }
    assert(cb@ =~= start + js_request_fetch(has_fetch, has_ordinary));
}

/// The ordinary JSON request over `uni.request`.
#[verifier::opaque]
pub open spec fn js_request_uni(has_uni_req: bool, has_ordinary: bool) -> Seq<Seq<char>> {
    (if has_ordinary && has_uni_req {
        seq![
            ""@,
            "    /**"@,
            "     * @param {string} url"@,
            "     * @param {Record<string, any>} opts"@,
            "     * @returns {Promise<any>}"@,
            "     */"@,
            "    async _requestUniReq(url, opts) {"@,
            "        const res = await uni.request({"@,
            "            url,"@,
            "            method: opts.method || 'GET',"@,
            "            header: opts.headers,"@,
            "            data: opts.body,"@,
            "        });"@,
            "        if (res.statusCode < 200 || res.statusCode >= 300) {"@,
            "            const err = typeof res.data === 'object' ? res.data : { code: -1, message: String(res.statusCode) };"@,
            "            if (this._onError) this._onError(err.code || -1, err.message || String(res.statusCode));"@,
            "            throw new AFastError(err.code || -1, err.message || String(res.statusCode));"@,
            "        }"@,
            "        return typeof res.data === 'object' ? res.data : null;"@,
            "    }"@,
        ]
    } else {
        Seq::<Seq<char>>::empty()
    })
}

fn push_js_request_uni(cb: &mut CodeBuf, has_uni_req: bool, has_ordinary: bool)
    ensures
        final(cb)@ == old(cb)@ + js_request_uni(has_uni_req, has_ordinary),
{
    let ghost start = cb@;
    let ghost g77 = cb@;
    if has_ordinary && has_uni_req {
        let ghost g78 = cb@;
        cb.l("");
        cb.l("    /**");
        cb.l("     * @param {string} url");
        cb.l("     * @param {Record<string, any>} opts");
        cb.l("     * @returns {Promise<any>}");
        cb.l("     */");
        cb.l("    async _requestUniReq(url, opts) {");
        cb.l("        const res = await uni.request({");
        cb.l("            url,");
        cb.l("            method: opts.method || 'GET',");
        cb.l("            header: opts.headers,");
        cb.l("            data: opts.body,");
        cb.l("        });");
        cb.l("        if (res.statusCode < 200 || res.statusCode >= 300) {");
        cb.l("            const err = typeof res.data === 'object' ? res.data : { code: -1, message: String(res.statusCode) };");
        cb.l("            if (this._onError) this._onError(err.code || -1, err.message || String(res.statusCode));");
        cb.l("            throw new AFastError(err.code || -1, err.message || String(res.statusCode));");
        cb.l("        }");
        cb.l("        return typeof res.data === 'object' ? res.data : null;");
        cb.l("    }");
        assert(cb@ =~= g78 + seq![
            ""@,
            "    /**"@,
            "     * @param {string} url"@,
            "     * @param {Record<string, any>} opts"@,
            "     * @returns {Promise<any>}"@,
            "     */"@,
            "    async _requestUniReq(url, opts) {"@,
            "        const res = await uni.request({"@,
            "            url,"@,
            "            method: opts.method || 'GET',"@,
            "            header: opts.headers,"@,
            "            data: opts.body,"@,
            "        });"@,
            "        if (res.statusCode < 200 || res.statusCode >= 300) {"@,
            "            const err = typeof res.data === 'object' ? res.data : { code: -1, message: String(res.statusCode) };"@,
            "            if (this._onError) this._onError(err.code || -1, err.message || String(res.statusCode));"@,
            "            throw new AFastError(err.code || -1, err.message || String(res.statusCode));"@,
            "        }"@,
            "        return typeof res.data === 'object' ? res.data : null;"@,
            "    }"@,
        ]);
        assert(cb@ =~= g77 + seq![
            ""@,
            "    /**"@,
            "     * @param {string} url"@,
            "     * @param {Record<string, any>} opts"@,
            "     * @returns {Promise<any>}"@,
            "     */"@,
            "    async _requestUniReq(url, opts) {"@,
            "        const res = await uni.request({"@,
            "            url,"@,
            "            method: opts.method || 'GET',"@,
            "            header: opts.headers,"@,
            "            data: opts.body,"@,
            "        });"@,
            "        if (res.statusCode < 200 || res.statusCode >= 300) {"@,
            "            const err = typeof res.data === 'object' ? res.data : { code: -1, message: String(res.statusCode) };"@,
            "            if (this._onError) this._onError(err.code || -1, err.message || String(res.statusCode));"@,
            "            throw new AFastError(err.code || -1, err.message || String(res.statusCode));"@,
            "        }"@,
            "        return typeof res.data === 'object' ? res.data : null;"@,
            "    }"@,
        ]);
    } else {
        assert(cb@ =~= g77 + Seq::<Seq<char>>::empty());
    }
    assert(cb@ =~= g77 + (if has_ordinary && has_uni_req {
        seq![
            ""@,
            "    /**"@,
            "     * @param {string} url"@,
            "     * @param {Record<string, any>} opts"@,
            "     * @returns {Promise<any>}"@,
            "     */"@,
            "    async _requestUniReq(url, opts) {"@,
            "        const res = await uni.request({"@,
            "            url,"@,
            "            method: opts.method || 'GET',"@,
            "            header: opts.headers,"@,
            "            data: opts.body,"@,
            "        });"@,
            "        if (res.statusCode < 200 || res.statusCode >= 300) {"@,
            "            const err = typeof res.data === 'object' ? res.data : { code: -1, message: String(res.statusCode) };"@,
            "            if (this._onError) this._onError(err.code || -1, err.message || String(res.statusCode));"@,
            "            throw new AFastError(err.code || -1, err.message || String(res.statusCode));"@,
            "        }"@,
            "        return typeof res.data === 'object' ? res.data : null;"@,
            "    }"@,
        ]
    } else {
        Seq::<Seq<char>>::empty()
    }));
    proof {
        reveal(js_request_uni);
    }
    assert(cb@ =~= start + js_request_uni(has_uni_req, has_ordinary));
}

/// The ordinary JSON request over `wx.request`.
#[verifier::opaque]
pub open spec fn js_request_wx(has_wxrequest: bool, has_ordinary: bool) -> Seq<Seq<char>> {
    (if has_ordinary && has_wxrequest {
        seq![
            ""@,
            "    /**"@,
            "     * @param {string} url"@,
            "     * @param {Record<string, any>} opts"@,
            "     * @returns {Promise<any>}"@,
            "     */"@,
            "    async _requestWxReq(url, opts) {"@,
            "        const res = await new Promise((resolve, reject) => {"@,
            "            wx.request({"@,
            "                url,"@,
            "                method: opts.method || 'GET',"@,
            "                header: opts.headers,"@,
            "                data: opts.body,"@,
            "                success: resolve,"@,
            "                fail: reject,"@,
            "            });"@,
            "        });"@,
            "        if (res.statusCode < 200 || res.statusCode >= 300) {"@,
            "            const err = typeof res.data === 'object' ? res.data : { code: -1, message: String(res.statusCode) };"@,
            "            if (this._onError) this._onError(err.code || -1, err.message || String(res.statusCode));"@,
            "            throw new AFastError(err.code || -1, err.message || String(res.statusCode));"@,
            "        }"@,
            "        return typeof res.data === 'object' ? res.data : null;"@,
            "    }"@,
        ]
    } else {
        Seq::<Seq<char>>::empty()
    })
}

fn push_js_request_wx(cb: &mut CodeBuf, has_wxrequest: bool, has_ordinary: bool)
    ensures
        final(cb)@ == old(cb)@ + js_request_wx(has_wxrequest, has_ordinary),
{
    let ghost start = cb@;
    let ghost g79 = cb@;
    if has_ordinary && has_wxrequest {
        let ghost g80 = cb@;
        cb.l("");
        cb.l("    /**");
        cb.l("     * @param {string} url");
        cb.l("     * @param {Record<string, any>} opts");
        cb.l("     * @returns {Promise<any>}");
        cb.l("     */");
        cb.l("    async _requestWxReq(url, opts) {");
        cb.l("        const res = await new Promise((resolve, reject) => {");
        cb.l("            wx.request({");
        cb.l("                url,");
        cb.l("                method: opts.method || 'GET',");
        cb.l("                header: opts.headers,");
        cb.l("                data: opts.body,");
        cb.l("                success: resolve,");
        cb.l("                fail: reject,");
        cb.l("            });");
        cb.l("        });");
        cb.l("        if (res.statusCode < 200 || res.statusCode >= 300) {");
        cb.l("            const err = typeof res.data === 'object' ? res.data : { code: -1, message: String(res.statusCode) };");
        cb.l("            if (this._onError) this._onError(err.code || -1, err.message || String(res.statusCode));");
        cb.l("            throw new AFastError(err.code || -1, err.message || String(res.statusCode));");
        cb.l("        }");
        cb.l("        return typeof res.data === 'object' ? res.data : null;");
        cb.l("    }");
        assert(cb@ =~= g80 + seq![
            ""@,
            "    /**"@,
            "     * @param {string} url"@,
            "     * @param {Record<string, any>} opts"@,
            "     * @returns {Promise<any>}"@,
            "     */"@,
            "    async _requestWxReq(url, opts) {"@,
            "        const res = await new Promise((resolve, reject) => {"@,
            "            wx.request({"@,
            "                url,"@,
            "                method: opts.method || 'GET',"@,
            "                header: opts.headers,"@,
            "                data: opts.body,"@,
            "                success: resolve,"@,
            "                fail: reject,"@,
            "            });"@,
            "        });"@,
            "        if (res.statusCode < 200 || res.statusCode >= 300) {"@,
            "            const err = typeof res.data === 'object' ? res.data : { code: -1, message: String(res.statusCode) };"@,
            "            if (this._onError) this._onError(err.code || -1, err.message || String(res.statusCode));"@,
            "            throw new AFastError(err.code || -1, err.message || String(res.statusCode));"@,
            "        }"@,
            "        return typeof res.data === 'object' ? res.data : null;"@,
            "    }"@,
        ]);
        assert(cb@ =~= g79 + seq![
            ""@,
            "    /**"@,
            "     * @param {string} url"@,
            "     * @param {Record<string, any>} opts"@,
            "     * @returns {Promise<any>}"@,
            "     */"@,
            "    async _requestWxReq(url, opts) {"@,
            "        const res = await new Promise((resolve, reject) => {"@,
            "            wx.request({"@,
            "                url,"@,
            "                method: opts.method || 'GET',"@,
            "                header: opts.headers,"@,
            "                data: opts.body,"@,
            "                success: resolve,"@,
            "                fail: reject,"@,
            "            });"@,
            "        });"@,
            "        if (res.statusCode < 200 || res.statusCode >= 300) {"@,
            "            const err = typeof res.data === 'object' ? res.data : { code: -1, message: String(res.statusCode) };"@,
            "            if (this._onError) this._onError(err.code || -1, err.message || String(res.statusCode));"@,
            "            throw new AFastError(err.code || -1, err.message || String(res.statusCode));"@,
            "        }"@,
            "        return typeof res.data === 'object' ? res.data : null;"@,
            "    }"@,
        ]);
    } else {
        assert(cb@ =~= g79 + Seq::<Seq<char>>::empty());
    }
    assert(cb@ =~= g79 + (if has_ordinary && has_wxrequest {
        seq![
            ""@,
            "    /**"@,
            "     * @param {string} url"@,
            "     * @param {Record<string, any>} opts"@,
            "     * @returns {Promise<any>}"@,
            "     */"@,
            "    async _requestWxReq(url, opts) {"@,
            "        const res = await new Promise((resolve, reject) => {"@,
            "            wx.request({"@,
            "                url,"@,
            "                method: opts.method || 'GET',"@,
            "                header: opts.headers,"@,
            "                data: opts.body,"@,
            "                success: resolve,"@,
            "                fail: reject,"@,
            "            });"@,
            "        });"@,
            "        if (res.statusCode < 200 || res.statusCode >= 300) {"@,
            "            const err = typeof res.data === 'object' ? res.data : { code: -1, message: String(res.statusCode) };"@,
            "            if (this._onError) this._onError(err.code || -1, err.message || String(res.statusCode));"@,
            "            throw new AFastError(err.code || -1, err.message || String(res.statusCode));"@,
            "        }"@,
            "        return typeof res.data === 'object' ? res.data : null;"@,
            "    }"@,
        ]
    } else {
        Seq::<Seq<char>>::empty()
    }));
    proof {
        reveal(js_request_wx);
    }
    assert(cb@ =~= start + js_request_wx(has_wxrequest, has_ordinary));
}

/// The binary call over HTTP with `fetch`.
#[verifier::opaque]
pub open spec fn js_call_fetch(has_fetch: bool) -> Seq<Seq<char>> {
    (if has_fetch {
        seq![
            ""@,
            "    /**"@,
            "     * @param {number} handlerId"@,
            "     * @param {Uint8Array} payload"@,
            "     * @returns {Promise<Uint8Array>}"@,
            "     */"@,
            "    async _callFetch(handlerId, payload) {"@,
            "        await this._ready;"@,
            "        const body = new ArrayBuffer(4 + payload.length);"@,
            "        const bv = new DataView(body);"@,
            "        bv.setUint32(0, handlerId, true);"@,
            "        new Uint8Array(body).set(payload, 4);"@,
            "        const resp = await fetch(`${this._url}/_api`, { method: 'POST', body });"@,
            "        const buf = new Uint8Array(await resp.arrayBuffer());"@,
            "        if (buf.length < 9) { if(this._onError) this._onError(-1, 'response too short'); throw new AFastError(-1, 'response too short'); }"@,
            "        const status = buf[0];"@,
            "        if (status === 1) {"@,
            "            const codeLo = buf[1]|(buf[2]<<8)|(buf[3]<<16)|(buf[4]<<24);"@,
            "            const codeHi = buf[5]|(buf[6]<<8)|(buf[7]<<16)|(buf[8]<<24);"@,
            "            const codeVal = codeHi * 0x100000000 + (codeLo >>> 0);"@,
            "            const msg = new TextDecoder().decode(buf.slice(9));"@,
            "            if(this._onError) this._onError(codeVal, msg);"@,
            "            throw new AFastError(codeVal, msg);"@,
            "        }"@,
            "        return buf.slice(9);"@,
            "    }"@,
        ]
    } else {
        Seq::<Seq<char>>::empty()
    })
}

fn push_js_call_fetch(cb: &mut CodeBuf, has_fetch: bool)
    ensures
        final(cb)@ == old(cb)@ + js_call_fetch(has_fetch),
{
    let ghost start = cb@;
    let ghost g81 = cb@;
    if has_fetch {
        let ghost g82 = cb@;
        cb.l("");
        cb.l("    /**");
        cb.l("     * @param {number} handlerId");
        cb.l("     * @param {Uint8Array} payload");
        cb.l("     * @returns {Promise<Uint8Array>}");
        cb.l("     */");
        cb.l("    async _callFetch(handlerId, payload) {");
        cb.l("        await this._ready;");
        cb.l("        const body = new ArrayBuffer(4 + payload.length);");
        cb.l("        const bv = new DataView(body);");
        cb.l("        bv.setUint32(0, handlerId, true);");
        cb.l("        new Uint8Array(body).set(payload, 4);");
        cb.l("        const resp = await fetch(`${this._url}/_api`, { method: 'POST', body });");
        cb.l("        const buf = new Uint8Array(await resp.arrayBuffer());");
        cb.l("        if (buf.length < 9) { if(this._onError) this._onError(-1, 'response too short'); throw new AFastError(-1, 'response too short'); }");
        cb.l("        const status = buf[0];");
        cb.l("        if (status === 1) {");
        cb.l("            const codeLo = buf[1]|(buf[2]<<8)|(buf[3]<<16)|(buf[4]<<24);");
        cb.l("            const codeHi = buf[5]|(buf[6]<<8)|(buf[7]<<16)|(buf[8]<<24);");
        cb.l("            const codeVal = codeHi * 0x100000000 + (codeLo >>> 0);");
        cb.l("            const msg = new TextDecoder().decode(buf.slice(9));");
        cb.l("            if(this._onError) this._onError(codeVal, msg);");
        cb.l("            throw new AFastError(codeVal, msg);");
        cb.l("        }");
        cb.l("        return buf.slice(9);");
        cb.l("    }");
        assert(cb@ =~= g82 + seq![
            ""@,
            "    /**"@,
            "     * @param {number} handlerId"@,
            "     * @param {Uint8Array} payload"@,
            "     * @returns {Promise<Uint8Array>}"@,
            "     */"@,
            "    async _callFetch(handlerId, payload) {"@,
            "        await this._ready;"@,
            "        const body = new ArrayBuffer(4 + payload.length);"@,
            "        const bv = new DataView(body);"@,
            "        bv.setUint32(0, handlerId, true);"@,
            "        new Uint8Array(body).set(payload, 4);"@,
            "        const resp = await fetch(`${this._url}/_api`, { method: 'POST', body });"@,
            "        const buf = new Uint8Array(await resp.arrayBuffer());"@,
            "        if (buf.length < 9) { if(this._onError) this._onError(-1, 'response too short'); throw new AFastError(-1, 'response too short'); }"@,
            "        const status = buf[0];"@,
            "        if (status === 1) {"@,
            "            const codeLo = buf[1]|(buf[2]<<8)|(buf[3]<<16)|(buf[4]<<24);"@,
            "            const codeHi = buf[5]|(buf[6]<<8)|(buf[7]<<16)|(buf[8]<<24);"@,
            "            const codeVal = codeHi * 0x100000000 + (codeLo >>> 0);"@,
            "            const msg = new TextDecoder().decode(buf.slice(9));"@,
            "            if(this._onError) this._onError(codeVal, msg);"@,
            "            throw new AFastError(codeVal, msg);"@,
            "        }"@,
            "        return buf.slice(9);"@,
            "    }"@,
        ]);
        assert(cb@ =~= g81 + seq![
            ""@,
            "    /**"@,
            "     * @param {number} handlerId"@,
            "     * @param {Uint8Array} payload"@,
            "     * @returns {Promise<Uint8Array>}"@,
            "     */"@,
            "    async _callFetch(handlerId, payload) {"@,
            "        await this._ready;"@,
            "        const body = new ArrayBuffer(4 + payload.length);"@,
            "        const bv = new DataView(body);"@,
            "        bv.setUint32(0, handlerId, true);"@,
            "        new Uint8Array(body).set(payload, 4);"@,
            "        const resp = await fetch(`${this._url}/_api`, { method: 'POST', body });"@,
            "        const buf = new Uint8Array(await resp.arrayBuffer());"@,
            "        if (buf.length < 9) { if(this._onError) this._onError(-1, 'response too short'); throw new AFastError(-1, 'response too short'); }"@,
            "        const status = buf[0];"@,
            "        if (status === 1) {"@,
            "            const codeLo = buf[1]|(buf[2]<<8)|(buf[3]<<16)|(buf[4]<<24);"@,
            "            const codeHi = buf[5]|(buf[6]<<8)|(buf[7]<<16)|(buf[8]<<24);"@,
            "            const codeVal = codeHi * 0x100000000 + (codeLo >>> 0);"@,
            "            const msg = new TextDecoder().decode(buf.slice(9));"@,
            "            if(this._onError) this._onError(codeVal, msg);"@,
            "            throw new AFastError(codeVal, msg);"@,
            "        }"@,
            "        return buf.slice(9);"@,
            "    }"@,
        ]);
    } else {
        assert(cb@ =~= g81 + Seq::<Seq<char>>::empty());
    }
    assert(cb@ =~= g81 + (if has_fetch {
        seq![
            ""@,
            "    /**"@,
            "     * @param {number} handlerId"@,
            "     * @param {Uint8Array} payload"@,
            "     * @returns {Promise<Uint8Array>}"@,
            "     */"@,
            "    async _callFetch(handlerId, payload) {"@,
            "        await this._ready;"@,
            "        const body = new ArrayBuffer(4 + payload.length);"@,
            "        const bv = new DataView(body);"@,
            "        bv.setUint32(0, handlerId, true);"@,
            "        new Uint8Array(body).set(payload, 4);"@,
            "        const resp = await fetch(`${this._url}/_api`, { method: 'POST', body });"@,
            "        const buf = new Uint8Array(await resp.arrayBuffer());"@,
            "        if (buf.length < 9) { if(this._onError) this._onError(-1, 'response too short'); throw new AFastError(-1, 'response too short'); }"@,
            "        const status = buf[0];"@,
            "        if (status === 1) {"@,
            "            const codeLo = buf[1]|(buf[2]<<8)|(buf[3]<<16)|(buf[4]<<24);"@,
            "            const codeHi = buf[5]|(buf[6]<<8)|(buf[7]<<16)|(buf[8]<<24);"@,
            "            const codeVal = codeHi * 0x100000000 + (codeLo >>> 0);"@,
            "            const msg = new TextDecoder().decode(buf.slice(9));"@,
            "            if(this._onError) this._onError(codeVal, msg);"@,
            "            throw new AFastError(codeVal, msg);"@,
            "        }"@,
            "        return buf.slice(9);"@,
            "    }"@,
        ]
    } else {
        Seq::<Seq<char>>::empty()
    }));
    proof {
        reveal(js_call_fetch);
    }
    assert(cb@ =~= start + js_call_fetch(has_fetch));
}

/// The binary call over HTTP with `uni.request`.
#[verifier::opaque]
pub open spec fn js_call_uni_req(has_uni_req: bool) -> Seq<Seq<char>> {
    (if has_uni_req {
        seq![
            ""@,
            "    /**"@,
            "     * @param {number} handlerId"@,
            "     * @param {Uint8Array} payload"@,
            "     * @returns {Promise<Uint8Array>}"@,
            "     */"@,
            "    async _callUniReq(handlerId, payload) {"@,
            "        await this._ready;"@,
            "        const body = new ArrayBuffer(4 + payload.length);"@,
            "        const bv = new DataView(body);"@,
            "        bv.setUint32(0, handlerId, true);"@,
            "        new Uint8Array(body).set(payload, 4);"@,
            "        const res = await uni.request({"@,
            "            url: `${this._url}/_api`,"@,
            "            method: 'POST',"@,
            "            data: body,"@,
            "            responseType: 'arraybuffer',"@,
            "        });"@,
            "        const buf = new Uint8Array(res.data);"@,
            "        if (buf.length < 9) { if(this._onError) this._onError(-1, 'response too short'); throw new AFastError(-1, 'response too short'); }"@,
            "        const status = buf[0];"@,
            "        if (status === 1) {"@,
            "            const codeLo = buf[1]|(buf[2]<<8)|(buf[3]<<16)|(buf[4]<<24);"@,
            "            const codeHi = buf[5]|(buf[6]<<8)|(buf[7]<<16)|(buf[8]<<24);"@,
            "            const codeVal = codeHi * 0x100000000 + (codeLo >>> 0);"@,
            "            const msg = new TextDecoder().decode(buf.slice(9));"@,
            "            if(this._onError) this._onError(codeVal, msg);"@,
            "            throw new AFastError(codeVal, msg);"@,
            "        }"@,
            "        return buf.slice(9);"@,
            "    }"@,
        ]
    } else {
        Seq::<Seq<char>>::empty()
    })
}

fn push_js_call_uni_req(cb: &mut CodeBuf, has_uni_req: bool)
    ensures
        final(cb)@ == old(cb)@ + js_call_uni_req(has_uni_req),
{
    let ghost start = cb@;
    let ghost g83 = cb@;
    if has_uni_req {
        let ghost g84 = cb@;
        cb.l("");
        cb.l("    /**");
        cb.l("     * @param {number} handlerId");
        cb.l("     * @param {Uint8Array} payload");
        cb.l("     * @returns {Promise<Uint8Array>}");
        cb.l("     */");
        cb.l("    async _callUniReq(handlerId, payload) {");
        cb.l("        await this._ready;");
        cb.l("        const body = new ArrayBuffer(4 + payload.length);");
        cb.l("        const bv = new DataView(body);");
        cb.l("        bv.setUint32(0, handlerId, true);");
        cb.l("        new Uint8Array(body).set(payload, 4);");
        cb.l("        const res = await uni.request({");
        cb.l("            url: `${this._url}/_api`,");
        cb.l("            method: 'POST',");
        cb.l("            data: body,");
        cb.l("            responseType: 'arraybuffer',");
        cb.l("        });");
        cb.l("        const buf = new Uint8Array(res.data);");
        cb.l("        if (buf.length < 9) { if(this._onError) this._onError(-1, 'response too short'); throw new AFastError(-1, 'response too short'); }");
        cb.l("        const status = buf[0];");
        cb.l("        if (status === 1) {");
        cb.l("            const codeLo = buf[1]|(buf[2]<<8)|(buf[3]<<16)|(buf[4]<<24);");
        cb.l("            const codeHi = buf[5]|(buf[6]<<8)|(buf[7]<<16)|(buf[8]<<24);");
        cb.l("            const codeVal = codeHi * 0x100000000 + (codeLo >>> 0);");
        cb.l("            const msg = new TextDecoder().decode(buf.slice(9));");
        cb.l("            if(this._onError) this._onError(codeVal, msg);");
        cb.l("            throw new AFastError(codeVal, msg);");
        cb.l("        }");
        cb.l("        return buf.slice(9);");
        cb.l("    }");
        assert(cb@ =~= g84 + seq![
            ""@,
            "    /**"@,
            "     * @param {number} handlerId"@,
            "     * @param {Uint8Array} payload"@,
            "     * @returns {Promise<Uint8Array>}"@,
            "     */"@,
            "    async _callUniReq(handlerId, payload) {"@,
            "        await this._ready;"@,
            "        const body = new ArrayBuffer(4 + payload.length);"@,
            "        const bv = new DataView(body);"@,
            "        bv.setUint32(0, handlerId, true);"@,
            "        new Uint8Array(body).set(payload, 4);"@,
            "        const res = await uni.request({"@,
            "            url: `${this._url}/_api`,"@,
            "            method: 'POST',"@,
            "            data: body,"@,
            "            responseType: 'arraybuffer',"@,
            "        });"@,
            "        const buf = new Uint8Array(res.data);"@,
            "        if (buf.length < 9) { if(this._onError) this._onError(-1, 'response too short'); throw new AFastError(-1, 'response too short'); }"@,
            "        const status = buf[0];"@,
            "        if (status === 1) {"@,
            "            const codeLo = buf[1]|(buf[2]<<8)|(buf[3]<<16)|(buf[4]<<24);"@,
            "            const codeHi = buf[5]|(buf[6]<<8)|(buf[7]<<16)|(buf[8]<<24);"@,
            "            const codeVal = codeHi * 0x100000000 + (codeLo >>> 0);"@,
            "            const msg = new TextDecoder().decode(buf.slice(9));"@,
            "            if(this._onError) this._onError(codeVal, msg);"@,
            "            throw new AFastError(codeVal, msg);"@,
            "        }"@,
            "        return buf.slice(9);"@,
            "    }"@,
        ]);
        assert(cb@ =~= g83 + seq![
            ""@,
            "    /**"@,
            "     * @param {number} handlerId"@,
            "     * @param {Uint8Array} payload"@,
            "     * @returns {Promise<Uint8Array>}"@,
            "     */"@,
            "    async _callUniReq(handlerId, payload) {"@,
            "        await this._ready;"@,
            "        const body = new ArrayBuffer(4 + payload.length);"@,
            "        const bv = new DataView(body);"@,
            "        bv.setUint32(0, handlerId, true);"@,
            "        new Uint8Array(body).set(payload, 4);"@,
            "        const res = await uni.request({"@,
            "            url: `${this._url}/_api`,"@,
            "            method: 'POST',"@,
            "            data: body,"@,
            "            responseType: 'arraybuffer',"@,
            "        });"@,
            "        const buf = new Uint8Array(res.data);"@,
            "        if (buf.length < 9) { if(this._onError) this._onError(-1, 'response too short'); throw new AFastError(-1, 'response too short'); }"@,
            "        const status = buf[0];"@,
            "        if (status === 1) {"@,
            "            const codeLo = buf[1]|(buf[2]<<8)|(buf[3]<<16)|(buf[4]<<24);"@,
            "            const codeHi = buf[5]|(buf[6]<<8)|(buf[7]<<16)|(buf[8]<<24);"@,
            "            const codeVal = codeHi * 0x100000000 + (codeLo >>> 0);"@,
            "            const msg = new TextDecoder().decode(buf.slice(9));"@,
            "            if(this._onError) this._onError(codeVal, msg);"@,
            "            throw new AFastError(codeVal, msg);"@,
            "        }"@,
            "        return buf.slice(9);"@,
            "    }"@,
        ]);
    } else {
        assert(cb@ =~= g83 + Seq::<Seq<char>>::empty());
    }
    assert(cb@ =~= g83 + (if has_uni_req {
        seq![
            ""@,
            "    /**"@,
            "     * @param {number} handlerId"@,
            "     * @param {Uint8Array} payload"@,
            "     * @returns {Promise<Uint8Array>}"@,
            "     */"@,
            "    async _callUniReq(handlerId, payload) {"@,
            "        await this._ready;"@,
            "        const body = new ArrayBuffer(4 + payload.length);"@,
            "        const bv = new DataView(body);"@,
            "        bv.setUint32(0, handlerId, true);"@,
            "        new Uint8Array(body).set(payload, 4);"@,
            "        const res = await uni.request({"@,
            "            url: `${this._url}/_api`,"@,
            "            method: 'POST',"@,
            "            data: body,"@,
            "            responseType: 'arraybuffer',"@,
            "        });"@,
            "        const buf = new Uint8Array(res.data);"@,
            "        if (buf.length < 9) { if(this._onError) this._onError(-1, 'response too short'); throw new AFastError(-1, 'response too short'); }"@,
            "        const status = buf[0];"@,
            "        if (status === 1) {"@,
            "            const codeLo = buf[1]|(buf[2]<<8)|(buf[3]<<16)|(buf[4]<<24);"@,
            "            const codeHi = buf[5]|(buf[6]<<8)|(buf[7]<<16)|(buf[8]<<24);"@,
            "            const codeVal = codeHi * 0x100000000 + (codeLo >>> 0);"@,
            "            const msg = new TextDecoder().decode(buf.slice(9));"@,
            "            if(this._onError) this._onError(codeVal, msg);"@,
            "            throw new AFastError(codeVal, msg);"@,
            "        }"@,
            "        return buf.slice(9);"@,
            "    }"@,
        ]
    } else {
        Seq::<Seq<char>>::empty()
    }));
    proof {
        reveal(js_call_uni_req);
    }
    assert(cb@ =~= start + js_call_uni_req(has_uni_req));
}

/// The binary call over HTTP with `wx.request`.
#[verifier::opaque]
pub open spec fn js_call_wx_req(has_wxrequest: bool) -> Seq<Seq<char>> {
    (if has_wxrequest {
        seq![
            ""@,
            "    /**"@,
            "     * @param {number} handlerId"@,
            "     * @param {Uint8Array} payload"@,
            "     * @returns {Promise<Uint8Array>}"@,
            "     */"@,
            "    async _callWxReq(handlerId, payload) {"@,
            "        await this._ready;"@,
            "        const body = new ArrayBuffer(4 + payload.length);"@,
            "        const bv = new DataView(body);"@,
            "        bv.setUint32(0, handlerId, true);"@,
            "        new Uint8Array(body).set(payload, 4);"@,
            "        const res = await new Promise((resolve, reject) => {"@,
            "            wx.request({"@,
            "                url: `${this._url}/_api`,"@,
            "                method: 'POST',"@,
            "                data: body,"@,
            "                responseType: 'arraybuffer',"@,
            "                success: resolve,"@,
            "                fail: reject,"@,
            "            });"@,
            "        });"@,
            "        const buf = new Uint8Array(res.data);"@,
            "        if (buf.length < 9) { if(this._onError) this._onError(-1, 'response too short'); throw new AFastError(-1, 'response too short'); }"@,
            "        const status = buf[0];"@,
            "        if (status === 1) {"@,
            "            const codeLo = buf[1]|(buf[2]<<8)|(buf[3]<<16)|(buf[4]<<24);"@,
            "            const codeHi = buf[5]|(buf[6]<<8)|(buf[7]<<16)|(buf[8]<<24);"@,
            "            const codeVal = codeHi * 0x100000000 + (codeLo >>> 0);"@,
            "            const msg = new TextDecoder().decode(buf.slice(9));"@,
            "            if(this._onError) this._onError(codeVal, msg);"@,
            "            throw new AFastError(codeVal, msg);"@,
            "        }"@,
            "        return buf.slice(9);"@,
            "    }"@,
        ]
    } else {
        Seq::<Seq<char>>::empty()
    })
}

fn push_js_call_wx_req(cb: &mut CodeBuf, has_wxrequest: bool)
    ensures
        final(cb)@ == old(cb)@ + js_call_wx_req(has_wxrequest),
{
    let ghost start = cb@;
    let ghost g85 = cb@;
    if has_wxrequest {
        let ghost g86 = cb@;
        cb.l("");
        cb.l("    /**");
        cb.l("     * @param {number} handlerId");
        cb.l("     * @param {Uint8Array} payload");
        cb.l("     * @returns {Promise<Uint8Array>}");
        cb.l("     */");
        cb.l("    async _callWxReq(handlerId, payload) {");
        cb.l("        await this._ready;");
        cb.l("        const body = new ArrayBuffer(4 + payload.length);");
        cb.l("        const bv = new DataView(body);");
        cb.l("        bv.setUint32(0, handlerId, true);");
        cb.l("        new Uint8Array(body).set(payload, 4);");
        cb.l("        const res = await new Promise((resolve, reject) => {");
        cb.l("            wx.request({");
        cb.l("                url: `${this._url}/_api`,");
        cb.l("                method: 'POST',");
        cb.l("                data: body,");
        cb.l("                responseType: 'arraybuffer',");
        cb.l("                success: resolve,");
        cb.l("                fail: reject,");
        cb.l("            });");
        cb.l("        });");
        cb.l("        const buf = new Uint8Array(res.data);");
        cb.l("        if (buf.length < 9) { if(this._onError) this._onError(-1, 'response too short'); throw new AFastError(-1, 'response too short'); }");
        cb.l("        const status = buf[0];");
        cb.l("        if (status === 1) {");
        cb.l("            const codeLo = buf[1]|(buf[2]<<8)|(buf[3]<<16)|(buf[4]<<24);");
        cb.l("            const codeHi = buf[5]|(buf[6]<<8)|(buf[7]<<16)|(buf[8]<<24);");
        cb.l("            const codeVal = codeHi * 0x100000000 + (codeLo >>> 0);");
        cb.l("            const msg = new TextDecoder().decode(buf.slice(9));");
        cb.l("            if(this._onError) this._onError(codeVal, msg);");
        cb.l("            throw new AFastError(codeVal, msg);");
        cb.l("        }");
        cb.l("        return buf.slice(9);");
        cb.l("    }");
        assert(cb@ =~= g86 + seq![
            ""@,
            "    /**"@,
            "     * @param {number} handlerId"@,
            "     * @param {Uint8Array} payload"@,
            "     * @returns {Promise<Uint8Array>}"@,
            "     */"@,
            "    async _callWxReq(handlerId, payload) {"@,
            "        await this._ready;"@,
            "        const body = new ArrayBuffer(4 + payload.length);"@,
            "        const bv = new DataView(body);"@,
            "        bv.setUint32(0, handlerId, true);"@,
            "        new Uint8Array(body).set(payload, 4);"@,
            "        const res = await new Promise((resolve, reject) => {"@,
            "            wx.request({"@,
            "                url: `${this._url}/_api`,"@,
            "                method: 'POST',"@,
            "                data: body,"@,
            "                responseType: 'arraybuffer',"@,
            "                success: resolve,"@,
            "                fail: reject,"@,
            "            });"@,
            "        });"@,
            "        const buf = new Uint8Array(res.data);"@,
            "        if (buf.length < 9) { if(this._onError) this._onError(-1, 'response too short'); throw new AFastError(-1, 'response too short'); }"@,
            "        const status = buf[0];"@,
            "        if (status === 1) {"@,
            "            const codeLo = buf[1]|(buf[2]<<8)|(buf[3]<<16)|(buf[4]<<24);"@,
            "            const codeHi = buf[5]|(buf[6]<<8)|(buf[7]<<16)|(buf[8]<<24);"@,
            "            const codeVal = codeHi * 0x100000000 + (codeLo >>> 0);"@,
            "            const msg = new TextDecoder().decode(buf.slice(9));"@,
            "            if(this._onError) this._onError(codeVal, msg);"@,
            "            throw new AFastError(codeVal, msg);"@,
            "        }"@,
            "        return buf.slice(9);"@,
            "    }"@,
        ]);
        assert(cb@ =~= g85 + seq![
            ""@,
            "    /**"@,
            "     * @param {number} handlerId"@,
            "     * @param {Uint8Array} payload"@,
            "     * @returns {Promise<Uint8Array>}"@,
            "     */"@,
            "    async _callWxReq(handlerId, payload) {"@,
            "        await this._ready;"@,
            "        const body = new ArrayBuffer(4 + payload.length);"@,
            "        const bv = new DataView(body);"@,
            "        bv.setUint32(0, handlerId, true);"@,
            "        new Uint8Array(body).set(payload, 4);"@,
            "        const res = await new Promise((resolve, reject) => {"@,
            "            wx.request({"@,
            "                url: `${this._url}/_api`,"@,
            "                method: 'POST',"@,
            "                data: body,"@,
            "                responseType: 'arraybuffer',"@,
            "                success: resolve,"@,
            "                fail: reject,"@,
            "            });"@,
            "        });"@,
            "        const buf = new Uint8Array(res.data);"@,
            "        if (buf.length < 9) { if(this._onError) this._onError(-1, 'response too short'); throw new AFastError(-1, 'response too short'); }"@,
            "        const status = buf[0];"@,
            "        if (status === 1) {"@,
            "            const codeLo = buf[1]|(buf[2]<<8)|(buf[3]<<16)|(buf[4]<<24);"@,
            "            const codeHi = buf[5]|(buf[6]<<8)|(buf[7]<<16)|(buf[8]<<24);"@,
            "            const codeVal = codeHi * 0x100000000 + (codeLo >>> 0);"@,
            "            const msg = new TextDecoder().decode(buf.slice(9));"@,
            "            if(this._onError) this._onError(codeVal, msg);"@,
            "            throw new AFastError(codeVal, msg);"@,
            "        }"@,
            "        return buf.slice(9);"@,
            "    }"@,
        ]);
    } else {
        assert(cb@ =~= g85 + Seq::<Seq<char>>::empty());
    }
    assert(cb@ =~= g85 + (if has_wxrequest {
        seq![
            ""@,
            "    /**"@,
            "     * @param {number} handlerId"@,
            "     * @param {Uint8Array} payload"@,
            "     * @returns {Promise<Uint8Array>}"@,
            "     */"@,
            "    async _callWxReq(handlerId, payload) {"@,
            "        await this._ready;"@,
            "        const body = new ArrayBuffer(4 + payload.length);"@,
            "        const bv = new DataView(body);"@,
            "        bv.setUint32(0, handlerId, true);"@,
            "        new Uint8Array(body).set(payload, 4);"@,
            "        const res = await new Promise((resolve, reject) => {"@,
            "            wx.request({"@,
            "                url: `${this._url}/_api`,"@,
            "                method: 'POST',"@,
            "                data: body,"@,
            "                responseType: 'arraybuffer',"@,
            "                success: resolve,"@,
            "                fail: reject,"@,
            "            });"@,
            "        });"@,
            "        const buf = new Uint8Array(res.data);"@,
            "        if (buf.length < 9) { if(this._onError) this._onError(-1, 'response too short'); throw new AFastError(-1, 'response too short'); }"@,
            "        const status = buf[0];"@,
            "        if (status === 1) {"@,
            "            const codeLo = buf[1]|(buf[2]<<8)|(buf[3]<<16)|(buf[4]<<24);"@,
            "            const codeHi = buf[5]|(buf[6]<<8)|(buf[7]<<16)|(buf[8]<<24);"@,
            "            const codeVal = codeHi * 0x100000000 + (codeLo >>> 0);"@,
            "            const msg = new TextDecoder().decode(buf.slice(9));"@,
            "            if(this._onError) this._onError(codeVal, msg);"@,
            "            throw new AFastError(codeVal, msg);"@,
            "        }"@,
            "        return buf.slice(9);"@,
            "    }"@,
        ]
    } else {
        Seq::<Seq<char>>::empty()
    }));
    proof {
        reveal(js_call_wx_req);
    }
    assert(cb@ =~= start + js_call_wx_req(has_wxrequest));
}

/// The binary call over the WebSocket.
#[verifier::opaque]
pub open spec fn js_call_ws(has_ws: bool) -> Seq<Seq<char>> {
    (if has_ws {
        seq![
            ""@,
            "    /**"@,
            "     * @param {number} handlerId"@,
            "     * @param {Uint8Array} payload"@,
            "     * @returns {Promise<Uint8Array>}"@,
            "     */"@,
            "    async _callWs(handlerId, payload) {"@,
            "        await this._ready;"@,
            "        return new Promise((resolve, reject) => {"@,
            "            const id = this._nextId;"@,
            "            this._nextId = this._nextId >= Number.MAX_SAFE_INTEGER ? 1 : this._nextId + 1;"@,
            "            const timer = setTimeout(() => { this._pending.delete(id); reject(new Error(`timeout id=${id}`)); }, 5000);"@,
            "            this._pending.set(id, { resolve, reject, timer });"@,
            "            const frame = new ArrayBuffer(4 + 4 + 4 + payload.length);"@,
            "            const fv = new DataView(frame);"@,
            "            fv.setUint32(0, id, true);"@,
            "            fv.setUint32(4, handlerId, true);"@,
            "            fv.setUint32(4 + 4, payload.length, true);"@,
            "            new Uint8Array(frame).set(payload, 4 + 4 + 4);"@,
            "            this._ws.send(frame);"@,
            "        });"@,
            "    }"@,
        ]
    } else {
        Seq::<Seq<char>>::empty()
    })
}

fn push_js_call_ws(cb: &mut CodeBuf, has_ws: bool)
    ensures
        final(cb)@ == old(cb)@ + js_call_ws(has_ws),
{
    let ghost start = cb@;
    let ghost g87 = cb@;
    if has_ws {
        let ghost g88 = cb@;
        cb.l("");
        cb.l("    /**");
        cb.l("     * @param {number} handlerId");
        cb.l("     * @param {Uint8Array} payload");
        cb.l("     * @returns {Promise<Uint8Array>}");
        cb.l("     */");
        cb.l("    async _callWs(handlerId, payload) {");
        cb.l("        await this._ready;");
        cb.l("        return new Promise((resolve, reject) => {");
        cb.l("            const id = this._nextId;");
        cb.l("            this._nextId = this._nextId >= Number.MAX_SAFE_INTEGER ? 1 : this._nextId + 1;");
        cb.l("            const timer = setTimeout(() => { this._pending.delete(id); reject(new Error(`timeout id=${id}`)); }, 5000);");
        cb.l("            this._pending.set(id, { resolve, reject, timer });");
        cb.l("            const frame = new ArrayBuffer(4 + 4 + 4 + payload.length);");
        cb.l("            const fv = new DataView(frame);");
        cb.l("            fv.setUint32(0, id, true);");
        cb.l("            fv.setUint32(4, handlerId, true);");
        cb.l("            fv.setUint32(4 + 4, payload.length, true);");
        cb.l("            new Uint8Array(frame).set(payload, 4 + 4 + 4);");
        cb.l("            this._ws.send(frame);");
        cb.l("        });");
        cb.l("    }");
        assert(cb@ =~= g88 + seq![
            ""@,
            "    /**"@,
            "     * @param {number} handlerId"@,
            "     * @param {Uint8Array} payload"@,
            "     * @returns {Promise<Uint8Array>}"@,
            "     */"@,
            "    async _callWs(handlerId, payload) {"@,
            "        await this._ready;"@,
            "        return new Promise((resolve, reject) => {"@,
            "            const id = this._nextId;"@,
            "            this._nextId = this._nextId >= Number.MAX_SAFE_INTEGER ? 1 : this._nextId + 1;"@,
            "            const timer = setTimeout(() => { this._pending.delete(id); reject(new Error(`timeout id=${id}`)); }, 5000);"@,
            "            this._pending.set(id, { resolve, reject, timer });"@,
            "            const frame = new ArrayBuffer(4 + 4 + 4 + payload.length);"@,
            "            const fv = new DataView(frame);"@,
            "            fv.setUint32(0, id, true);"@,
            "            fv.setUint32(4, handlerId, true);"@,
            "            fv.setUint32(4 + 4, payload.length, true);"@,
            "            new Uint8Array(frame).set(payload, 4 + 4 + 4);"@,
            "            this._ws.send(frame);"@,
            "        });"@,
            "    }"@,
        ]);
        assert(cb@ =~= g87 + seq![
            ""@,
            "    /**"@,
            "     * @param {number} handlerId"@,
            "     * @param {Uint8Array} payload"@,
            "     * @returns {Promise<Uint8Array>}"@,
            "     */"@,
            "    async _callWs(handlerId, payload) {"@,
            "        await this._ready;"@,
            "        return new Promise((resolve, reject) => {"@,
            "            const id = this._nextId;"@,
            "            this._nextId = this._nextId >= Number.MAX_SAFE_INTEGER ? 1 : this._nextId + 1;"@,
            "            const timer = setTimeout(() => { this._pending.delete(id); reject(new Error(`timeout id=${id}`)); }, 5000);"@,
            "            this._pending.set(id, { resolve, reject, timer });"@,
            "            const frame = new ArrayBuffer(4 + 4 + 4 + payload.length);"@,
            "            const fv = new DataView(frame);"@,
            "            fv.setUint32(0, id, true);"@,
            "            fv.setUint32(4, handlerId, true);"@,
            "            fv.setUint32(4 + 4, payload.length, true);"@,
            "            new Uint8Array(frame).set(payload, 4 + 4 + 4);"@,
            "            this._ws.send(frame);"@,
            "        });"@,
            "    }"@,
        ]);
    } else {
        assert(cb@ =~= g87 + Seq::<Seq<char>>::empty());
    }
    assert(cb@ =~= g87 + (if has_ws {
        seq![
            ""@,
            "    /**"@,
            "     * @param {number} handlerId"@,
            "     * @param {Uint8Array} payload"@,
            "     * @returns {Promise<Uint8Array>}"@,
            "     */"@,
            "    async _callWs(handlerId, payload) {"@,
            "        await this._ready;"@,
            "        return new Promise((resolve, reject) => {"@,
            "            const id = this._nextId;"@,
            "            this._nextId = this._nextId >= Number.MAX_SAFE_INTEGER ? 1 : this._nextId + 1;"@,
            "            const timer = setTimeout(() => { this._pending.delete(id); reject(new Error(`timeout id=${id}`)); }, 5000);"@,
            "            this._pending.set(id, { resolve, reject, timer });"@,
            "            const frame = new ArrayBuffer(4 + 4 + 4 + payload.length);"@,
            "            const fv = new DataView(frame);"@,
            "            fv.setUint32(0, id, true);"@,
            "            fv.setUint32(4, handlerId, true);"@,
            "            fv.setUint32(4 + 4, payload.length, true);"@,
            "            new Uint8Array(frame).set(payload, 4 + 4 + 4);"@,
            "            this._ws.send(frame);"@,
            "        });"@,
            "    }"@,
        ]
    } else {
        Seq::<Seq<char>>::empty()
    }));
    proof {
        reveal(js_call_ws);
    }
    assert(cb@ =~= start + js_call_ws(has_ws));
}

/// The binary call over the UniApp socket.
#[verifier::opaque]
pub open spec fn js_call_uni_ws(has_uni_ws: bool) -> Seq<Seq<char>> {
    (if has_uni_ws {
        seq![
            ""@,
            "    /**"@,
            "     * @param {number} handlerId"@,
            "     * @param {Uint8Array} payload"@,
            "     * @returns {Promise<Uint8Array>}"@,
            "     */"@,
            "    async _callUniWs(handlerId, payload) {"@,
            "        await this._ready;"@,
            "        return new Promise((resolve, reject) => {"@,
            "            const id = this._nextId;"@,
            "            this._nextId = this._nextId >= Number.MAX_SAFE_INTEGER ? 1 : this._nextId + 1;"@,
            "            const timer = setTimeout(() => { this._pending.delete(id); reject(new Error(`timeout id=${id}`)); }, 5000);"@,
            "            this._pending.set(id, { resolve, reject, timer });"@,
            "            const frame = new ArrayBuffer(4 + 4 + 4 + payload.length);"@,
            "            const fv = new DataView(frame);"@,
            "            fv.setUint32(0, id, true);"@,
            "            fv.setUint32(4, handlerId, true);"@,
            "            fv.setUint32(4 + 4, payload.length, true);"@,
            "            new Uint8Array(frame).set(payload, 4 + 4 + 4);"@,
            "            this._wsTask.send({ data: frame });"@,
            "        });"@,
            "    }"@,
        ]
    } else {
        Seq::<Seq<char>>::empty()
    })
}

fn push_js_call_uni_ws(cb: &mut CodeBuf, has_uni_ws: bool)
    ensures
        final(cb)@ == old(cb)@ + js_call_uni_ws(has_uni_ws),
{
    let ghost start = cb@;
    let ghost g89 = cb@;
    if has_uni_ws {
        let ghost g90 = cb@;
        cb.l("");
        cb.l("    /**");
        cb.l("     * @param {number} handlerId");
        cb.l("     * @param {Uint8Array} payload");
        cb.l("     * @returns {Promise<Uint8Array>}");
        cb.l("     */");
        cb.l("    async _callUniWs(handlerId, payload) {");
        cb.l("        await this._ready;");
        cb.l("        return new Promise((resolve, reject) => {");
        cb.l("            const id = this._nextId;");
        cb.l("            this._nextId = this._nextId >= Number.MAX_SAFE_INTEGER ? 1 : this._nextId + 1;");
        cb.l("            const timer = setTimeout(() => { this._pending.delete(id); reject(new Error(`timeout id=${id}`)); }, 5000);");
        cb.l("            this._pending.set(id, { resolve, reject, timer });");
        cb.l("            const frame = new ArrayBuffer(4 + 4 + 4 + payload.length);");
        cb.l("            const fv = new DataView(frame);");
        cb.l("            fv.setUint32(0, id, true);");
        cb.l("            fv.setUint32(4, handlerId, true);");
        cb.l("            fv.setUint32(4 + 4, payload.length, true);");
        cb.l("            new Uint8Array(frame).set(payload, 4 + 4 + 4);");
        cb.l("            this._wsTask.send({ data: frame });");
        cb.l("        });");
        cb.l("    }");
        assert(cb@ =~= g90 + seq![
            ""@,
            "    /**"@,
            "     * @param {number} handlerId"@,
            "     * @param {Uint8Array} payload"@,
            "     * @returns {Promise<Uint8Array>}"@,
            "     */"@,
            "    async _callUniWs(handlerId, payload) {"@,
            "        await this._ready;"@,
            "        return new Promise((resolve, reject) => {"@,
            "            const id = this._nextId;"@,
            "            this._nextId = this._nextId >= Number.MAX_SAFE_INTEGER ? 1 : this._nextId + 1;"@,
            "            const timer = setTimeout(() => { this._pending.delete(id); reject(new Error(`timeout id=${id}`)); }, 5000);"@,
            "            this._pending.set(id, { resolve, reject, timer });"@,
            "            const frame = new ArrayBuffer(4 + 4 + 4 + payload.length);"@,
            "            const fv = new DataView(frame);"@,
            "            fv.setUint32(0, id, true);"@,
            "            fv.setUint32(4, handlerId, true);"@,
            "            fv.setUint32(4 + 4, payload.length, true);"@,
            "            new Uint8Array(frame).set(payload, 4 + 4 + 4);"@,
            "            this._wsTask.send({ data: frame });"@,
            "        });"@,
            "    }"@,
        ]);
        assert(cb@ =~= g89 + seq![
            ""@,
            "    /**"@,
            "     * @param {number} handlerId"@,
            "     * @param {Uint8Array} payload"@,
            "     * @returns {Promise<Uint8Array>}"@,
            "     */"@,
            "    async _callUniWs(handlerId, payload) {"@,
            "        await this._ready;"@,
            "        return new Promise((resolve, reject) => {"@,
            "            const id = this._nextId;"@,
            "            this._nextId = this._nextId >= Number.MAX_SAFE_INTEGER ? 1 : this._nextId + 1;"@,
            "            const timer = setTimeout(() => { this._pending.delete(id); reject(new Error(`timeout id=${id}`)); }, 5000);"@,
            "            this._pending.set(id, { resolve, reject, timer });"@,
            "            const frame = new ArrayBuffer(4 + 4 + 4 + payload.length);"@,
            "            const fv = new DataView(frame);"@,
            "            fv.setUint32(0, id, true);"@,
            "            fv.setUint32(4, handlerId, true);"@,
            "            fv.setUint32(4 + 4, payload.length, true);"@,
            "            new Uint8Array(frame).set(payload, 4 + 4 + 4);"@,
            "            this._wsTask.send({ data: frame });"@,
            "        });"@,
            "    }"@,
        ]);
    } else {
        assert(cb@ =~= g89 + Seq::<Seq<char>>::empty());
    }
    assert(cb@ =~= g89 + (if has_uni_ws {
        seq![
            ""@,
            "    /**"@,
            "     * @param {number} handlerId"@,
            "     * @param {Uint8Array} payload"@,
            "     * @returns {Promise<Uint8Array>}"@,
            "     */"@,
            "    async _callUniWs(handlerId, payload) {"@,
            "        await this._ready;"@,
            "        return new Promise((resolve, reject) => {"@,
            "            const id = this._nextId;"@,
            "            this._nextId = this._nextId >= Number.MAX_SAFE_INTEGER ? 1 : this._nextId + 1;"@,
            "            const timer = setTimeout(() => { this._pending.delete(id); reject(new Error(`timeout id=${id}`)); }, 5000);"@,
            "            this._pending.set(id, { resolve, reject, timer });"@,
            "            const frame = new ArrayBuffer(4 + 4 + 4 + payload.length);"@,
            "            const fv = new DataView(frame);"@,
            "            fv.setUint32(0, id, true);"@,
            "            fv.setUint32(4, handlerId, true);"@,
            "            fv.setUint32(4 + 4, payload.length, true);"@,
            "            new Uint8Array(frame).set(payload, 4 + 4 + 4);"@,
            "            this._wsTask.send({ data: frame });"@,
            "        });"@,
            "    }"@,
        ]
    } else {
        Seq::<Seq<char>>::empty()
    }));
    proof {
        reveal(js_call_uni_ws);
    }
    assert(cb@ =~= start + js_call_uni_ws(has_uni_ws));
}

/// The binary call over the WeChat socket.
#[verifier::opaque]
pub open spec fn js_call_wx_ws(has_wxws: bool) -> Seq<Seq<char>> {
    (if has_wxws {
        seq![
            ""@,
            "    /**"@,
            "     * @param {number} handlerId"@,
            "     * @param {Uint8Array} payload"@,
            "     * @returns {Promise<Uint8Array>}"@,
            "     */"@,
            "    async _callWxWs(handlerId, payload) {"@,
            "        await this._ready;"@,
            "        return new Promise((resolve, reject) => {"@,
            "            const id = this._nextId;"@,
            "            this._nextId = this._nextId >= Number.MAX_SAFE_INTEGER ? 1 : this._nextId + 1;"@,
            "            const timer = setTimeout(() => { this._pending.delete(id); reject(new Error(`timeout id=${id}`)); }, 5000);"@,
            "            this._pending.set(id, { resolve, reject, timer });"@,
            "            const frame = new ArrayBuffer(4 + 4 + 4 + payload.length);"@,
            "            const fv = new DataView(frame);"@,
            "            fv.setUint32(0, id, true);"@,
            "            fv.setUint32(4, handlerId, true);"@,
            "            fv.setUint32(4 + 4, payload.length, true);"@,
            "            new Uint8Array(frame).set(payload, 4 + 4 + 4);"@,
            "            this._wxSocketTask.send({ data: frame });"@,
            "        });"@,
            "    }"@,
        ]
    } else {
        Seq::<Seq<char>>::empty()
    })
}

fn push_js_call_wx_ws(cb: &mut CodeBuf, has_wxws: bool)
    ensures
        final(cb)@ == old(cb)@ + js_call_wx_ws(has_wxws),
{
    let ghost start = cb@;
    let ghost g91 = cb@;
    if has_wxws {
        let ghost g92 = cb@;
        cb.l("");
        cb.l("    /**");
        cb.l("     * @param {number} handlerId");
        cb.l("     * @param {Uint8Array} payload");
        cb.l("     * @returns {Promise<Uint8Array>}");
        cb.l("     */");
        cb.l("    async _callWxWs(handlerId, payload) {");
        cb.l("        await this._ready;");
        cb.l("        return new Promise((resolve, reject) => {");
        cb.l("            const id = this._nextId;");
        cb.l("            this._nextId = this._nextId >= Number.MAX_SAFE_INTEGER ? 1 : this._nextId + 1;");
        cb.l("            const timer = setTimeout(() => { this._pending.delete(id); reject(new Error(`timeout id=${id}`)); }, 5000);");
        cb.l("            this._pending.set(id, { resolve, reject, timer });");
        cb.l("            const frame = new ArrayBuffer(4 + 4 + 4 + payload.length);");
        cb.l("            const fv = new DataView(frame);");
        cb.l("            fv.setUint32(0, id, true);");
        cb.l("            fv.setUint32(4, handlerId, true);");
        cb.l("            fv.setUint32(4 + 4, payload.length, true);");
        cb.l("            new Uint8Array(frame).set(payload, 4 + 4 + 4);");
        cb.l("            this._wxSocketTask.send({ data: frame });");
        cb.l("        });");
        cb.l("    }");
        assert(cb@ =~= g92 + seq![
            ""@,
            "    /**"@,
            "     * @param {number} handlerId"@,
            "     * @param {Uint8Array} payload"@,
            "     * @returns {Promise<Uint8Array>}"@,
            "     */"@,
            "    async _callWxWs(handlerId, payload) {"@,
            "        await this._ready;"@,
            "        return new Promise((resolve, reject) => {"@,
            "            const id = this._nextId;"@,
            "            this._nextId = this._nextId >= Number.MAX_SAFE_INTEGER ? 1 : this._nextId + 1;"@,
            "            const timer = setTimeout(() => { this._pending.delete(id); reject(new Error(`timeout id=${id}`)); }, 5000);"@,
            "            this._pending.set(id, { resolve, reject, timer });"@,
            "            const frame = new ArrayBuffer(4 + 4 + 4 + payload.length);"@,
            "            const fv = new DataView(frame);"@,
            "            fv.setUint32(0, id, true);"@,
            "            fv.setUint32(4, handlerId, true);"@,
            "            fv.setUint32(4 + 4, payload.length, true);"@,
            "            new Uint8Array(frame).set(payload, 4 + 4 + 4);"@,
            "            this._wxSocketTask.send({ data: frame });"@,
            "        });"@,
            "    }"@,
        ]);
        assert(cb@ =~= g91 + seq![
            ""@,
            "    /**"@,
            "     * @param {number} handlerId"@,
            "     * @param {Uint8Array} payload"@,
            "     * @returns {Promise<Uint8Array>}"@,
            "     */"@,
            "    async _callWxWs(handlerId, payload) {"@,
            "        await this._ready;"@,
            "        return new Promise((resolve, reject) => {"@,
            "            const id = this._nextId;"@,
            "            this._nextId = this._nextId >= Number.MAX_SAFE_INTEGER ? 1 : this._nextId + 1;"@,
            "            const timer = setTimeout(() => { this._pending.delete(id); reject(new Error(`timeout id=${id}`)); }, 5000);"@,
            "            this._pending.set(id, { resolve, reject, timer });"@,
            "            const frame = new ArrayBuffer(4 + 4 + 4 + payload.length);"@,
            "            const fv = new DataView(frame);"@,
            "            fv.setUint32(0, id, true);"@,
            "            fv.setUint32(4, handlerId, true);"@,
            "            fv.setUint32(4 + 4, payload.length, true);"@,
            "            new Uint8Array(frame).set(payload, 4 + 4 + 4);"@,
            "            this._wxSocketTask.send({ data: frame });"@,
            "        });"@,
            "    }"@,
        ]);
    } else {
        assert(cb@ =~= g91 + Seq::<Seq<char>>::empty());
    }
    assert(cb@ =~= g91 + (if has_wxws {
        seq![
            ""@,
            "    /**"@,
            "     * @param {number} handlerId"@,
            "     * @param {Uint8Array} payload"@,
            "     * @returns {Promise<Uint8Array>}"@,
            "     */"@,
            "    async _callWxWs(handlerId, payload) {"@,
            "        await this._ready;"@,
            "        return new Promise((resolve, reject) => {"@,
            "            const id = this._nextId;"@,
            "            this._nextId = this._nextId >= Number.MAX_SAFE_INTEGER ? 1 : this._nextId + 1;"@,
            "            const timer = setTimeout(() => { this._pending.delete(id); reject(new Error(`timeout id=${id}`)); }, 5000);"@,
            "            this._pending.set(id, { resolve, reject, timer });"@,
            "            const frame = new ArrayBuffer(4 + 4 + 4 + payload.length);"@,
            "            const fv = new DataView(frame);"@,
            "            fv.setUint32(0, id, true);"@,
            "            fv.setUint32(4, handlerId, true);"@,
            "            fv.setUint32(4 + 4, payload.length, true);"@,
            "            new Uint8Array(frame).set(payload, 4 + 4 + 4);"@,
            "            this._wxSocketTask.send({ data: frame });"@,
            "        });"@,
            "    }"@,
        ]
    } else {
        Seq::<Seq<char>>::empty()
    }));
    proof {
        reveal(js_call_wx_ws);
    }
    assert(cb@ =~= start + js_call_wx_ws(has_wxws));
}

/// The Node.js TCP connection set-up.
#[verifier::opaque]
pub open spec fn js_init_node_tcp(has_nodetcp: bool) -> Seq<Seq<char>> {
    (if has_nodetcp {
        seq![
            ""@,
            "    /** @private */"@,
            "    _initNodeTcp() {"@,
            "        this._tcpSocket = createConnection({ host: this._host, port: this._port });"@,
            "        this._ready = new Promise((resolve) => {"@,
            "            this._tcpSocket.on('connect', () => resolve());"@,
            "        });"@,
            "        this._tcpSocket.on('data', (chunk) => this._handleTcpData(new Uint8Array(chunk)));"@,
            "        this._tcpSocket.on('error', (e) => {"@,
            "            for (const [id, p] of this._pending) { p.reject(e); this._pending.delete(id); }"@,
            "        });"@,
            "        this._ready.then(() => { if (this._heartbeatTimer) clearInterval(this._heartbeatTimer); this._heartbeatTimer = setInterval(() => this._sendHeartbeat(), 180_000); });"@,
            "        this._call = this._callNodeTcp;"@,
            "    }"@,
        ]
    } else {
        Seq::<Seq<char>>::empty()
    })
}

fn push_js_init_node_tcp(cb: &mut CodeBuf, has_nodetcp: bool)
    ensures
        final(cb)@ == old(cb)@ + js_init_node_tcp(has_nodetcp),
{
    let ghost start = cb@;
    let ghost g93 = cb@;
    if has_nodetcp {
        let ghost g94 = cb@;
        cb.l("");
        cb.l("    /** @private */");
        cb.l("    _initNodeTcp() {");
        cb.l("        this._tcpSocket = createConnection({ host: this._host, port: this._port });");
        cb.l("        this._ready = new Promise((resolve) => {");
        cb.l("            this._tcpSocket.on('connect', () => resolve());");
        cb.l("        });");
        cb.l("        this._tcpSocket.on('data', (chunk) => this._handleTcpData(new Uint8Array(chunk)));");
        cb.l("        this._tcpSocket.on('error', (e) => {");
        cb.l("            for (const [id, p] of this._pending) { p.reject(e); this._pending.delete(id); }");
        cb.l("        });");
        cb.l("        this._ready.then(() => { if (this._heartbeatTimer) clearInterval(this._heartbeatTimer); this._heartbeatTimer = setInterval(() => this._sendHeartbeat(), 180_000); });");
        cb.l("        this._call = this._callNodeTcp;");
        cb.l("    }");
        assert(cb@ =~= g94 + seq![
            ""@,
            "    /** @private */"@,
            "    _initNodeTcp() {"@,
            "        this._tcpSocket = createConnection({ host: this._host, port: this._port });"@,
            "        this._ready = new Promise((resolve) => {"@,
            "            this._tcpSocket.on('connect', () => resolve());"@,
            "        });"@,
            "        this._tcpSocket.on('data', (chunk) => this._handleTcpData(new Uint8Array(chunk)));"@,
            "        this._tcpSocket.on('error', (e) => {"@,
            "            for (const [id, p] of this._pending) { p.reject(e); this._pending.delete(id); }"@,
            "        });"@,
            "        this._ready.then(() => { if (this._heartbeatTimer) clearInterval(this._heartbeatTimer); this._heartbeatTimer = setInterval(() => this._sendHeartbeat(), 180_000); });"@,
            "        this._call = this._callNodeTcp;"@,
            "    }"@,
        ]);
        assert(cb@ =~= g93 + seq![
            ""@,
            "    /** @private */"@,
            "    _initNodeTcp() {"@,
            "        this._tcpSocket = createConnection({ host: this._host, port: this._port });"@,
            "        this._ready = new Promise((resolve) => {"@,
            "            this._tcpSocket.on('connect', () => resolve());"@,
            "        });"@,
            "        this._tcpSocket.on('data', (chunk) => this._handleTcpData(new Uint8Array(chunk)));"@,
            "        this._tcpSocket.on('error', (e) => {"@,
            "            for (const [id, p] of this._pending) { p.reject(e); this._pending.delete(id); }"@,
            "        });"@,
            "        this._ready.then(() => { if (this._heartbeatTimer) clearInterval(this._heartbeatTimer); this._heartbeatTimer = setInterval(() => this._sendHeartbeat(), 180_000); });"@,
            "        this._call = this._callNodeTcp;"@,
            "    }"@,
        ]);
    } else {
        assert(cb@ =~= g93 + Seq::<Seq<char>>::empty());
    }
    assert(cb@ =~= g93 + (if has_nodetcp {
        seq![
            ""@,
            "    /** @private */"@,
            "    _initNodeTcp() {"@,
            "        this._tcpSocket = createConnection({ host: this._host, port: this._port });"@,
            "        this._ready = new Promise((resolve) => {"@,
            "            this._tcpSocket.on('connect', () => resolve());"@,
            "        });"@,
            "        this._tcpSocket.on('data', (chunk) => this._handleTcpData(new Uint8Array(chunk)));"@,
            "        this._tcpSocket.on('error', (e) => {"@,
            "            for (const [id, p] of this._pending) { p.reject(e); this._pending.delete(id); }"@,
            "        });"@,
            "        this._ready.then(() => { if (this._heartbeatTimer) clearInterval(this._heartbeatTimer); this._heartbeatTimer = setInterval(() => this._sendHeartbeat(), 180_000); });"@,
            "        this._call = this._callNodeTcp;"@,
            "    }"@,
        ]
    } else {
        Seq::<Seq<char>>::empty()
    }));
    proof {
        reveal(js_init_node_tcp);
    }
    assert(cb@ =~= start + js_init_node_tcp(has_nodetcp));
}

/// The Bun TCP connection set-up.
#[verifier::opaque]
pub open spec fn js_init_bun_tcp(has_buntcp: bool) -> Seq<Seq<char>> {
    (if has_buntcp {
        seq![
            ""@,
            "    /** @private */"@,
            "    _initBunTcp() {"@,
            "        this._ready = new Promise((resolve, reject) => {"@,
            "            Bun.connect({"@,
            "                hostname: this._host,"@,
            "                port: this._port,"@,
            "                socket: {"@,
            "                    open: (sock) => {"@,
            "                        this._tcpSocket = sock;"@,
            "                        resolve();"@,
            "                    },"@,
            "                    data: (_sock, data) => this._handleTcpData(new Uint8Array(data)),"@,
            "                    error: (_sock, e) => {"@,
            "                        for (const [id, p] of this._pending) { p.reject(e); this._pending.delete(id); }"@,
            "                        reject(e);"@,
            "                    },"@,
            "                },"@,
            "            }).catch(reject);"@,
            "        });"@,
            "        this._ready.then(() => { if (this._heartbeatTimer) clearInterval(this._heartbeatTimer); this._heartbeatTimer = setInterval(() => this._sendHeartbeat(), 180_000); });"@,
            "        this._call = this._callBunTcp;"@,
            "    }"@,
        ]
    } else {
        Seq::<Seq<char>>::empty()
    })
}

fn push_js_init_bun_tcp(cb: &mut CodeBuf, has_buntcp: bool)
    ensures
        final(cb)@ == old(cb)@ + js_init_bun_tcp(has_buntcp),
{
    let ghost start = cb@;
    let ghost g95 = cb@;
    if has_buntcp {
        let ghost g96 = cb@;
        cb.l("");
        cb.l("    /** @private */");
        cb.l("    _initBunTcp() {");
        cb.l("        this._ready = new Promise((resolve, reject) => {");
        cb.l("            Bun.connect({");
        cb.l("                hostname: this._host,");
        cb.l("                port: this._port,");
        cb.l("                socket: {");
        cb.l("                    open: (sock) => {");
        cb.l("                        this._tcpSocket = sock;");
        cb.l("                        resolve();");
        cb.l("                    },");
        cb.l("                    data: (_sock, data) => this._handleTcpData(new Uint8Array(data)),");
        cb.l("                    error: (_sock, e) => {");
        cb.l("                        for (const [id, p] of this._pending) { p.reject(e); this._pending.delete(id); }");
        cb.l("                        reject(e);");
        cb.l("                    },");
        cb.l("                },");
        cb.l("            }).catch(reject);");
        cb.l("        });");
        cb.l("        this._ready.then(() => { if (this._heartbeatTimer) clearInterval(this._heartbeatTimer); this._heartbeatTimer = setInterval(() => this._sendHeartbeat(), 180_000); });");
        cb.l("        this._call = this._callBunTcp;");
        cb.l("    }");
        assert(cb@ =~= g96 + seq![
            ""@,
            "    /** @private */"@,
            "    _initBunTcp() {"@,
            "        this._ready = new Promise((resolve, reject) => {"@,
            "            Bun.connect({"@,
            "                hostname: this._host,"@,
            "                port: this._port,"@,
            "                socket: {"@,
            "                    open: (sock) => {"@,
            "                        this._tcpSocket = sock;"@,
            "                        resolve();"@,
            "                    },"@,
            "                    data: (_sock, data) => this._handleTcpData(new Uint8Array(data)),"@,
            "                    error: (_sock, e) => {"@,
            "                        for (const [id, p] of this._pending) { p.reject(e); this._pending.delete(id); }"@,
            "                        reject(e);"@,
            "                    },"@,
            "                },"@,
            "            }).catch(reject);"@,
            "        });"@,
            "        this._ready.then(() => { if (this._heartbeatTimer) clearInterval(this._heartbeatTimer); this._heartbeatTimer = setInterval(() => this._sendHeartbeat(), 180_000); });"@,
            "        this._call = this._callBunTcp;"@,
            "    }"@,
        ]);
        assert(cb@ =~= g95 + seq![
            ""@,
            "    /** @private */"@,
            "    _initBunTcp() {"@,
            "        this._ready = new Promise((resolve, reject) => {"@,
            "            Bun.connect({"@,
            "                hostname: this._host,"@,
            "                port: this._port,"@,
            "                socket: {"@,
            "                    open: (sock) => {"@,
            "                        this._tcpSocket = sock;"@,
            "                        resolve();"@,
            "                    },"@,
            "                    data: (_sock, data) => this._handleTcpData(new Uint8Array(data)),"@,
            "                    error: (_sock, e) => {"@,
            "                        for (const [id, p] of this._pending) { p.reject(e); this._pending.delete(id); }"@,
            "                        reject(e);"@,
            "                    },"@,
            "                },"@,
            "            }).catch(reject);"@,
            "        });"@,
            "        this._ready.then(() => { if (this._heartbeatTimer) clearInterval(this._heartbeatTimer); this._heartbeatTimer = setInterval(() => this._sendHeartbeat(), 180_000); });"@,
            "        this._call = this._callBunTcp;"@,
            "    }"@,
        ]);
    } else {
        assert(cb@ =~= g95 + Seq::<Seq<char>>::empty());
    }
    assert(cb@ =~= g95 + (if has_buntcp {
        seq![
            ""@,
            "    /** @private */"@,
            "    _initBunTcp() {"@,
            "        this._ready = new Promise((resolve, reject) => {"@,
            "            Bun.connect({"@,
            "                hostname: this._host,"@,
            "                port: this._port,"@,
            "                socket: {"@,
            "                    open: (sock) => {"@,
            "                        this._tcpSocket = sock;"@,
            "                        resolve();"@,
            "                    },"@,
            "                    data: (_sock, data) => this._handleTcpData(new Uint8Array(data)),"@,
            "                    error: (_sock, e) => {"@,
            "                        for (const [id, p] of this._pending) { p.reject(e); this._pending.delete(id); }"@,
            "                        reject(e);"@,
            "                    },"@,
            "                },"@,
            "            }).catch(reject);"@,
            "        });"@,
            "        this._ready.then(() => { if (this._heartbeatTimer) clearInterval(this._heartbeatTimer); this._heartbeatTimer = setInterval(() => this._sendHeartbeat(), 180_000); });"@,
            "        this._call = this._callBunTcp;"@,
            "    }"@,
        ]
    } else {
        Seq::<Seq<char>>::empty()
    }));
    proof {
        reveal(js_init_bun_tcp);
    }
    assert(cb@ =~= start + js_init_bun_tcp(has_buntcp));
}

/// The reassembly of TCP frames.
#[verifier::opaque]
pub open spec fn js_handle_tcp_data(has_tcp: bool) -> Seq<Seq<char>> {
    (if has_tcp {
        seq![
            ""@,
            "    /** @private @param {Uint8Array} chunk */"@,
            "    _handleTcpData(chunk) {"@,
            "        const combined = new Uint8Array(this._tcpBuf.length + chunk.length);"@,
            "        combined.set(this._tcpBuf, 0);"@,
            "        combined.set(chunk, this._tcpBuf.length);"@,
            "        this._tcpBuf = combined;"@,
            "        while (this._tcpBuf.length >= 4) {"@,
            "            let frameLen;"@,
            "            frameLen = this._tcpBuf[0] | (this._tcpBuf[1] << 8) | (this._tcpBuf[2] << 16) | (this._tcpBuf[3] << 24);"@,
            "            if (this._tcpBuf.length < 4 + frameLen) return;"@,
            "            const inner = this._tcpBuf.slice(4, 4 + frameLen);"@,
            "            this._tcpBuf = this._tcpBuf.slice(4 + frameLen);"@,
            "            this._handleMessage(inner);"@,
            "        }"@,
            "    }"@,
        ]
    } else {
        Seq::<Seq<char>>::empty()
    })
}

fn push_js_handle_tcp_data(cb: &mut CodeBuf, has_tcp: bool)
    ensures
        final(cb)@ == old(cb)@ + js_handle_tcp_data(has_tcp),
{
    let ghost start = cb@;
    let ghost g97 = cb@;
    if has_tcp {
        let ghost g98 = cb@;
        cb.l("");
        cb.l("    /** @private @param {Uint8Array} chunk */");
        cb.l("    _handleTcpData(chunk) {");
        cb.l("        const combined = new Uint8Array(this._tcpBuf.length + chunk.length);");
        cb.l("        combined.set(this._tcpBuf, 0);");
        cb.l("        combined.set(chunk, this._tcpBuf.length);");
        cb.l("        this._tcpBuf = combined;");
        cb.l("        while (this._tcpBuf.length >= 4) {");
        cb.l("            let frameLen;");
        cb.l("            frameLen = this._tcpBuf[0] | (this._tcpBuf[1] << 8) | (this._tcpBuf[2] << 16) | (this._tcpBuf[3] << 24);");
        cb.l("            if (this._tcpBuf.length < 4 + frameLen) return;");
        cb.l("            const inner = this._tcpBuf.slice(4, 4 + frameLen);");
        cb.l("            this._tcpBuf = this._tcpBuf.slice(4 + frameLen);");
        cb.l("            this._handleMessage(inner);");
        cb.l("        }");
        cb.l("    }");
        assert(cb@ =~= g98 + seq![
            ""@,
            "    /** @private @param {Uint8Array} chunk */"@,
            "    _handleTcpData(chunk) {"@,
            "        const combined = new Uint8Array(this._tcpBuf.length + chunk.length);"@,
            "        combined.set(this._tcpBuf, 0);"@,
            "        combined.set(chunk, this._tcpBuf.length);"@,
            "        this._tcpBuf = combined;"@,
            "        while (this._tcpBuf.length >= 4) {"@,
            "            let frameLen;"@,
            "            frameLen = this._tcpBuf[0] | (this._tcpBuf[1] << 8) | (this._tcpBuf[2] << 16) | (this._tcpBuf[3] << 24);"@,
            "            if (this._tcpBuf.length < 4 + frameLen) return;"@,
            "            const inner = this._tcpBuf.slice(4, 4 + frameLen);"@,
            "            this._tcpBuf = this._tcpBuf.slice(4 + frameLen);"@,
            "            this._handleMessage(inner);"@,
            "        }"@,
            "    }"@,
        ]);
        assert(cb@ =~= g97 + seq![
            ""@,
            "    /** @private @param {Uint8Array} chunk */"@,
            "    _handleTcpData(chunk) {"@,
            "        const combined = new Uint8Array(this._tcpBuf.length + chunk.length);"@,
            "        combined.set(this._tcpBuf, 0);"@,
            "        combined.set(chunk, this._tcpBuf.length);"@,
            "        this._tcpBuf = combined;"@,
            "        while (this._tcpBuf.length >= 4) {"@,
            "            let frameLen;"@,
            "            frameLen = this._tcpBuf[0] | (this._tcpBuf[1] << 8) | (this._tcpBuf[2] << 16) | (this._tcpBuf[3] << 24);"@,
            "            if (this._tcpBuf.length < 4 + frameLen) return;"@,
            "            const inner = this._tcpBuf.slice(4, 4 + frameLen);"@,
            "            this._tcpBuf = this._tcpBuf.slice(4 + frameLen);"@,
            "            this._handleMessage(inner);"@,
            "        }"@,
            "    }"@,
        ]);
    } else {
        assert(cb@ =~= g97 + Seq::<Seq<char>>::empty());
    }
    assert(cb@ =~= g97 + (if has_tcp {
        seq![
            ""@,
            "    /** @private @param {Uint8Array} chunk */"@,
            "    _handleTcpData(chunk) {"@,
            "        const combined = new Uint8Array(this._tcpBuf.length + chunk.length);"@,
            "        combined.set(this._tcpBuf, 0);"@,
            "        combined.set(chunk, this._tcpBuf.length);"@,
            "        this._tcpBuf = combined;"@,
            "        while (this._tcpBuf.length >= 4) {"@,
            "            let frameLen;"@,
            "            frameLen = this._tcpBuf[0] | (this._tcpBuf[1] << 8) | (this._tcpBuf[2] << 16) | (this._tcpBuf[3] << 24);"@,
            "            if (this._tcpBuf.length < 4 + frameLen) return;"@,
            "            const inner = this._tcpBuf.slice(4, 4 + frameLen);"@,
            "            this._tcpBuf = this._tcpBuf.slice(4 + frameLen);"@,
            "            this._handleMessage(inner);"@,
            "        }"@,
            "    }"@,
        ]
    } else {
        Seq::<Seq<char>>::empty()
    }));
    proof {
        reveal(js_handle_tcp_data);
    }
    assert(cb@ =~= start + js_handle_tcp_data(has_tcp));
}

/// The binary call over Node.js TCP.
#[verifier::opaque]
pub open spec fn js_call_node_tcp(has_nodetcp: bool) -> Seq<Seq<char>> {
    (if has_nodetcp {
        seq![
            ""@,
            "    /**"@,
            "     * @param {number} handlerId"@,
            "     * @param {Uint8Array} payload"@,
            "     * @returns {Promise<Uint8Array>}"@,
            "     */"@,
            "    async _callNodeTcp(handlerId, payload) {"@,
            "        await this._ready;"@,
            "        return new Promise((resolve, reject) => {"@,
            "            const id = this._nextId;"@,
            "            this._nextId = this._nextId >= Number.MAX_SAFE_INTEGER ? 1 : this._nextId + 1;"@,
            "            const timer = setTimeout(() => { this._pending.delete(id); reject(new Error(`timeout id=${id}`)); }, 5000);"@,
            "            this._pending.set(id, { resolve, reject, timer });"@,
            "            const frame = new ArrayBuffer(4 + 4 + 4 + payload.length);"@,
            "            const fv = new DataView(frame);"@,
            "            fv.setUint32(0, id, true);"@,
            "            fv.setUint32(4, handlerId, true);"@,
            "            fv.setUint32(4 + 4, payload.length, true);"@,
            "            new Uint8Array(frame).set(payload, 4 + 4 + 4);"@,
            "            const buf = new ArrayBuffer(4 + 4 + 4 + 4 + payload.length);"@,
            "            const bv = new DataView(buf);"@,
            "            bv.setUint32(0, 4 + 4 + 4 + payload.length, true);"@,
            "            new Uint8Array(buf).set(new Uint8Array(frame), 4);"@,
            "            this._tcpSocket.write(new Uint8Array(buf));"@,
            "        });"@,
            "    }"@,
        ]
    } else {
        Seq::<Seq<char>>::empty()
    })
}

fn push_js_call_node_tcp(cb: &mut CodeBuf, has_nodetcp: bool)
    ensures
        final(cb)@ == old(cb)@ + js_call_node_tcp(has_nodetcp),
{
    let ghost start = cb@;
    let ghost g99 = cb@;
    if has_nodetcp {
        let ghost g100 = cb@;
        cb.l("");
        cb.l("    /**");
        cb.l("     * @param {number} handlerId");
        cb.l("     * @param {Uint8Array} payload");
        cb.l("     * @returns {Promise<Uint8Array>}");
        cb.l("     */");
        cb.l("    async _callNodeTcp(handlerId, payload) {");
        cb.l("        await this._ready;");
        cb.l("        return new Promise((resolve, reject) => {");
        cb.l("            const id = this._nextId;");
        cb.l("            this._nextId = this._nextId >= Number.MAX_SAFE_INTEGER ? 1 : this._nextId + 1;");
        cb.l("            const timer = setTimeout(() => { this._pending.delete(id); reject(new Error(`timeout id=${id}`)); }, 5000);");
        cb.l("            this._pending.set(id, { resolve, reject, timer });");
        cb.l("            const frame = new ArrayBuffer(4 + 4 + 4 + payload.length);");
        cb.l("            const fv = new DataView(frame);");
        cb.l("            fv.setUint32(0, id, true);");
        cb.l("            fv.setUint32(4, handlerId, true);");
        cb.l("            fv.setUint32(4 + 4, payload.length, true);");
        cb.l("            new Uint8Array(frame).set(payload, 4 + 4 + 4);");
        cb.l("            const buf = new ArrayBuffer(4 + 4 + 4 + 4 + payload.length);");
        cb.l("            const bv = new DataView(buf);");
        cb.l("            bv.setUint32(0, 4 + 4 + 4 + payload.length, true);");
        cb.l("            new Uint8Array(buf).set(new Uint8Array(frame), 4);");
        cb.l("            this._tcpSocket.write(new Uint8Array(buf));");
        cb.l("        });");
        cb.l("    }");
        assert(cb@ =~= g100 + seq![
            ""@,
            "    /**"@,
            "     * @param {number} handlerId"@,
            "     * @param {Uint8Array} payload"@,
            "     * @returns {Promise<Uint8Array>}"@,
            "     */"@,
            "    async _callNodeTcp(handlerId, payload) {"@,
            "        await this._ready;"@,
            "        return new Promise((resolve, reject) => {"@,
            "            const id = this._nextId;"@,
            "            this._nextId = this._nextId >= Number.MAX_SAFE_INTEGER ? 1 : this._nextId + 1;"@,
            "            const timer = setTimeout(() => { this._pending.delete(id); reject(new Error(`timeout id=${id}`)); }, 5000);"@,
            "            this._pending.set(id, { resolve, reject, timer });"@,
            "            const frame = new ArrayBuffer(4 + 4 + 4 + payload.length);"@,
            "            const fv = new DataView(frame);"@,
            "            fv.setUint32(0, id, true);"@,
            "            fv.setUint32(4, handlerId, true);"@,
            "            fv.setUint32(4 + 4, payload.length, true);"@,
            "            new Uint8Array(frame).set(payload, 4 + 4 + 4);"@,
            "            const buf = new ArrayBuffer(4 + 4 + 4 + 4 + payload.length);"@,
            "            const bv = new DataView(buf);"@,
            "            bv.setUint32(0, 4 + 4 + 4 + payload.length, true);"@,
            "            new Uint8Array(buf).set(new Uint8Array(frame), 4);"@,
            "            this._tcpSocket.write(new Uint8Array(buf));"@,
            "        });"@,
            "    }"@,
        ]);
        assert(cb@ =~= g99 + seq![
            ""@,
            "    /**"@,
            "     * @param {number} handlerId"@,
            "     * @param {Uint8Array} payload"@,
            "     * @returns {Promise<Uint8Array>}"@,
            "     */"@,
            "    async _callNodeTcp(handlerId, payload) {"@,
            "        await this._ready;"@,
            "        return new Promise((resolve, reject) => {"@,
            "            const id = this._nextId;"@,
            "            this._nextId = this._nextId >= Number.MAX_SAFE_INTEGER ? 1 : this._nextId + 1;"@,
            "            const timer = setTimeout(() => { this._pending.delete(id); reject(new Error(`timeout id=${id}`)); }, 5000);"@,
            "            this._pending.set(id, { resolve, reject, timer });"@,
            "            const frame = new ArrayBuffer(4 + 4 + 4 + payload.length);"@,
            "            const fv = new DataView(frame);"@,
            "            fv.setUint32(0, id, true);"@,
            "            fv.setUint32(4, handlerId, true);"@,
            "            fv.setUint32(4 + 4, payload.length, true);"@,
            "            new Uint8Array(frame).set(payload, 4 + 4 + 4);"@,
            "            const buf = new ArrayBuffer(4 + 4 + 4 + 4 + payload.length);"@,
            "            const bv = new DataView(buf);"@,
            "            bv.setUint32(0, 4 + 4 + 4 + payload.length, true);"@,
            "            new Uint8Array(buf).set(new Uint8Array(frame), 4);"@,
            "            this._tcpSocket.write(new Uint8Array(buf));"@,
            "        });"@,
            "    }"@,
        ]);
    } else {
        assert(cb@ =~= g99 + Seq::<Seq<char>>::empty());
    }
    assert(cb@ =~= g99 + (if has_nodetcp {
        seq![
            ""@,
            "    /**"@,
            "     * @param {number} handlerId"@,
            "     * @param {Uint8Array} payload"@,
            "     * @returns {Promise<Uint8Array>}"@,
            "     */"@,
            "    async _callNodeTcp(handlerId, payload) {"@,
            "        await this._ready;"@,
            "        return new Promise((resolve, reject) => {"@,
            "            const id = this._nextId;"@,
            "            this._nextId = this._nextId >= Number.MAX_SAFE_INTEGER ? 1 : this._nextId + 1;"@,
            "            const timer = setTimeout(() => { this._pending.delete(id); reject(new Error(`timeout id=${id}`)); }, 5000);"@,
            "            this._pending.set(id, { resolve, reject, timer });"@,
            "            const frame = new ArrayBuffer(4 + 4 + 4 + payload.length);"@,
            "            const fv = new DataView(frame);"@,
            "            fv.setUint32(0, id, true);"@,
            "            fv.setUint32(4, handlerId, true);"@,
            "            fv.setUint32(4 + 4, payload.length, true);"@,
            "            new Uint8Array(frame).set(payload, 4 + 4 + 4);"@,
            "            const buf = new ArrayBuffer(4 + 4 + 4 + 4 + payload.length);"@,
            "            const bv = new DataView(buf);"@,
            "            bv.setUint32(0, 4 + 4 + 4 + payload.length, true);"@,
            "            new Uint8Array(buf).set(new Uint8Array(frame), 4);"@,
            "            this._tcpSocket.write(new Uint8Array(buf));"@,
            "        });"@,
            "    }"@,
        ]
    } else {
        Seq::<Seq<char>>::empty()
    }));
    proof {
        reveal(js_call_node_tcp);
    }
    assert(cb@ =~= start + js_call_node_tcp(has_nodetcp));
}

/// The binary call over Bun TCP.
#[verifier::opaque]
pub open spec fn js_call_bun_tcp(has_buntcp: bool) -> Seq<Seq<char>> {
    (if has_buntcp {
        seq![
            ""@,
            "    /**"@,
            "     * @param {number} handlerId"@,
            "     * @param {Uint8Array} payload"@,
            "     * @returns {Promise<Uint8Array>}"@,
            "     */"@,
            "    async _callBunTcp(handlerId, payload) {"@,
            "        await this._ready;"@,
            "        return new Promise((resolve, reject) => {"@,
            "            const id = this._nextId;"@,
            "            this._nextId = this._nextId >= Number.MAX_SAFE_INTEGER ? 1 : this._nextId + 1;"@,
            "            const timer = setTimeout(() => { this._pending.delete(id); reject(new Error(`timeout id=${id}`)); }, 5000);"@,
            "            this._pending.set(id, { resolve, reject, timer });"@,
            "            const frame = new ArrayBuffer(4 + 4 + 4 + payload.length);"@,
            "            const fv = new DataView(frame);"@,
            "            fv.setUint32(0, id, true);"@,
            "            fv.setUint32(4, handlerId, true);"@,
            "            fv.setUint32(4 + 4, payload.length, true);"@,
            "            new Uint8Array(frame).set(payload, 4 + 4 + 4);"@,
            "            const buf = new ArrayBuffer(4 + 4 + 4 + 4 + payload.length);"@,
            "            const bv = new DataView(buf);"@,
            "            bv.setUint32(0, 4 + 4 + 4 + payload.length, true);"@,
            "            new Uint8Array(buf).set(new Uint8Array(frame), 4);"@,
            "            this._tcpSocket.write(new Uint8Array(buf));"@,
            "        });"@,
            "    }"@,
        ]
    } else {
        Seq::<Seq<char>>::empty()
    })
}

fn push_js_call_bun_tcp(cb: &mut CodeBuf, has_buntcp: bool)
    ensures
        final(cb)@ == old(cb)@ + js_call_bun_tcp(has_buntcp),
{
    let ghost start = cb@;
    let ghost g101 = cb@;
    if has_buntcp {
        let ghost g102 = cb@;
        cb.l("");
        cb.l("    /**");
        cb.l("     * @param {number} handlerId");
        cb.l("     * @param {Uint8Array} payload");
        cb.l("     * @returns {Promise<Uint8Array>}");
        cb.l("     */");
        cb.l("    async _callBunTcp(handlerId, payload) {");
        cb.l("        await this._ready;");
        cb.l("        return new Promise((resolve, reject) => {");
        cb.l("            const id = this._nextId;");
        cb.l("            this._nextId = this._nextId >= Number.MAX_SAFE_INTEGER ? 1 : this._nextId + 1;");
        cb.l("            const timer = setTimeout(() => { this._pending.delete(id); reject(new Error(`timeout id=${id}`)); }, 5000);");
        cb.l("            this._pending.set(id, { resolve, reject, timer });");
        cb.l("            const frame = new ArrayBuffer(4 + 4 + 4 + payload.length);");
        cb.l("            const fv = new DataView(frame);");
        cb.l("            fv.setUint32(0, id, true);");
        cb.l("            fv.setUint32(4, handlerId, true);");
        cb.l("            fv.setUint32(4 + 4, payload.length, true);");
        cb.l("            new Uint8Array(frame).set(payload, 4 + 4 + 4);");
        cb.l("            const buf = new ArrayBuffer(4 + 4 + 4 + 4 + payload.length);");
        cb.l("            const bv = new DataView(buf);");
        cb.l("            bv.setUint32(0, 4 + 4 + 4 + payload.length, true);");
        cb.l("            new Uint8Array(buf).set(new Uint8Array(frame), 4);");
        cb.l("            this._tcpSocket.write(new Uint8Array(buf));");
        cb.l("        });");
        cb.l("    }");
        assert(cb@ =~= g102 + seq![
            ""@,
            "    /**"@,
            "     * @param {number} handlerId"@,
            "     * @param {Uint8Array} payload"@,
            "     * @returns {Promise<Uint8Array>}"@,
            "     */"@,
            "    async _callBunTcp(handlerId, payload) {"@,
            "        await this._ready;"@,
            "        return new Promise((resolve, reject) => {"@,
            "            const id = this._nextId;"@,
            "            this._nextId = this._nextId >= Number.MAX_SAFE_INTEGER ? 1 : this._nextId + 1;"@,
            "            const timer = setTimeout(() => { this._pending.delete(id); reject(new Error(`timeout id=${id}`)); }, 5000);"@,
            "            this._pending.set(id, { resolve, reject, timer });"@,
            "            const frame = new ArrayBuffer(4 + 4 + 4 + payload.length);"@,
            "            const fv = new DataView(frame);"@,
            "            fv.setUint32(0, id, true);"@,
            "            fv.setUint32(4, handlerId, true);"@,
            "            fv.setUint32(4 + 4, payload.length, true);"@,
            "            new Uint8Array(frame).set(payload, 4 + 4 + 4);"@,
            "            const buf = new ArrayBuffer(4 + 4 + 4 + 4 + payload.length);"@,
            "            const bv = new DataView(buf);"@,
            "            bv.setUint32(0, 4 + 4 + 4 + payload.length, true);"@,
            "            new Uint8Array(buf).set(new Uint8Array(frame), 4);"@,
            "            this._tcpSocket.write(new Uint8Array(buf));"@,
            "        });"@,
            "    }"@,
        ]);
        assert(cb@ =~= g101 + seq![
            ""@,
            "    /**"@,
            "     * @param {number} handlerId"@,
            "     * @param {Uint8Array} payload"@,
            "     * @returns {Promise<Uint8Array>}"@,
            "     */"@,
            "    async _callBunTcp(handlerId, payload) {"@,
            "        await this._ready;"@,
            "        return new Promise((resolve, reject) => {"@,
            "            const id = this._nextId;"@,
            "            this._nextId = this._nextId >= Number.MAX_SAFE_INTEGER ? 1 : this._nextId + 1;"@,
            "            const timer = setTimeout(() => { this._pending.delete(id); reject(new Error(`timeout id=${id}`)); }, 5000);"@,
            "            this._pending.set(id, { resolve, reject, timer });"@,
            "            const frame = new ArrayBuffer(4 + 4 + 4 + payload.length);"@,
            "            const fv = new DataView(frame);"@,
            "            fv.setUint32(0, id, true);"@,
            "            fv.setUint32(4, handlerId, true);"@,
            "            fv.setUint32(4 + 4, payload.length, true);"@,
            "            new Uint8Array(frame).set(payload, 4 + 4 + 4);"@,
            "            const buf = new ArrayBuffer(4 + 4 + 4 + 4 + payload.length);"@,
            "            const bv = new DataView(buf);"@,
            "            bv.setUint32(0, 4 + 4 + 4 + payload.length, true);"@,
            "            new Uint8Array(buf).set(new Uint8Array(frame), 4);"@,
            "            this._tcpSocket.write(new Uint8Array(buf));"@,
            "        });"@,
            "    }"@,
        ]);
    } else {
        assert(cb@ =~= g101 + Seq::<Seq<char>>::empty());
    }
    assert(cb@ =~= g101 + (if has_buntcp {
        seq![
            ""@,
            "    /**"@,
            "     * @param {number} handlerId"@,
            "     * @param {Uint8Array} payload"@,
            "     * @returns {Promise<Uint8Array>}"@,
            "     */"@,
            "    async _callBunTcp(handlerId, payload) {"@,
            "        await this._ready;"@,
            "        return new Promise((resolve, reject) => {"@,
            "            const id = this._nextId;"@,
            "            this._nextId = this._nextId >= Number.MAX_SAFE_INTEGER ? 1 : this._nextId + 1;"@,
            "            const timer = setTimeout(() => { this._pending.delete(id); reject(new Error(`timeout id=${id}`)); }, 5000);"@,
            "            this._pending.set(id, { resolve, reject, timer });"@,
            "            const frame = new ArrayBuffer(4 + 4 + 4 + payload.length);"@,
            "            const fv = new DataView(frame);"@,
            "            fv.setUint32(0, id, true);"@,
            "            fv.setUint32(4, handlerId, true);"@,
            "            fv.setUint32(4 + 4, payload.length, true);"@,
            "            new Uint8Array(frame).set(payload, 4 + 4 + 4);"@,
            "            const buf = new ArrayBuffer(4 + 4 + 4 + 4 + payload.length);"@,
            "            const bv = new DataView(buf);"@,
            "            bv.setUint32(0, 4 + 4 + 4 + payload.length, true);"@,
            "            new Uint8Array(buf).set(new Uint8Array(frame), 4);"@,
            "            this._tcpSocket.write(new Uint8Array(buf));"@,
            "        });"@,
            "    }"@,
        ]
    } else {
        Seq::<Seq<char>>::empty()
    }));
    proof {
        reveal(js_call_bun_tcp);
    }
    assert(cb@ =~= start + js_call_bun_tcp(has_buntcp));
}

/// The binary writer of request payloads.
#[verifier::opaque]
pub open spec fn js_writer() -> Seq<Seq<char>> {
    seq![
        ""@,
        "    /** @private */"@,
        "    _writer() {"@,
        "        const b = []; const v = new DataView(new ArrayBuffer(8));"@,
        "        return {"@,
        "            wU8(n) { b.push(n & 0xFF); },"@,
        "            wI8(n) { b.push(n & 0xFF); },"@,
        "            wU16(n) { v.setUint16(0, n, true); b.push(v.getUint8(0), v.getUint8(1)); },"@,
        "            wI16(n) { v.setInt16(0, n, true); b.push(v.getUint8(0), v.getUint8(1)); },"@,
        "            wU32(n) { v.setUint32(0, n, true); for (let i = 0; i < 4; i++) b.push(v.getUint8(i)); },"@,
        "            wI32(n) { v.setInt32(0, n, true); for (let i = 0; i < 4; i++) b.push(v.getUint8(i)); },"@,
        "            wU64(n) { this.wU32(n & 0xFFFFFFFF); this.wU32(Math.floor(n / 0x100000000) & 0xFFFFFFFF); },"@,
        "            wI64(n) { this.wU64(n); },"@,
        "            wF32(n) { v.setFloat32(0, n, true); for (let i = 0; 4 > i; i++) b.push(v.getUint8(i)); },"@,
        "            wF64(n) { v.setFloat64(0, n, true); for (let i = 0; 8 > i; i++) b.push(v.getUint8(i)); },"@,
        "            wB(b_) { b.push(b_ ? 1 : 0); },"@,
        "            wS(s) { const u = new TextEncoder().encode(s); this.wU32(u.length); b.push(...u); },"@,
        "            wBytes(a) { this.wU32(a.length); b.push(...a); },"@,
        "            wRaw(a) { b.push(...a); },"@,
        "            toBytes() { return new Uint8Array(b); },"@,
        "        };"@,
        "    }"@,
    ]
}

fn push_js_writer(cb: &mut CodeBuf)
    ensures
        final(cb)@ == old(cb)@ + js_writer(),
{
    let ghost start = cb@;
    let ghost g103 = cb@;
    cb.l("");
    cb.l("    /** @private */");
    cb.l("    _writer() {");
    cb.l("        const b = []; const v = new DataView(new ArrayBuffer(8));");
    cb.l("        return {");
    cb.l("            wU8(n) { b.push(n & 0xFF); },");
    cb.l("            wI8(n) { b.push(n & 0xFF); },");
    cb.l("            wU16(n) { v.setUint16(0, n, true); b.push(v.getUint8(0), v.getUint8(1)); },");
    cb.l("            wI16(n) { v.setInt16(0, n, true); b.push(v.getUint8(0), v.getUint8(1)); },");
    cb.l("            wU32(n) { v.setUint32(0, n, true); for (let i = 0; i < 4; i++) b.push(v.getUint8(i)); },");
    cb.l("            wI32(n) { v.setInt32(0, n, true); for (let i = 0; i < 4; i++) b.push(v.getUint8(i)); },");
    cb.l("            wU64(n) { this.wU32(n & 0xFFFFFFFF); this.wU32(Math.floor(n / 0x100000000) & 0xFFFFFFFF); },");
    cb.l("            wI64(n) { this.wU64(n); },");
    cb.l("            wF32(n) { v.setFloat32(0, n, true); for (let i = 0; 4 > i; i++) b.push(v.getUint8(i)); },");
    cb.l("            wF64(n) { v.setFloat64(0, n, true); for (let i = 0; 8 > i; i++) b.push(v.getUint8(i)); },");
    cb.l("            wB(b_) { b.push(b_ ? 1 : 0); },");
    cb.l("            wS(s) { const u = new TextEncoder().encode(s); this.wU32(u.length); b.push(...u); },");
    cb.l("            wBytes(a) { this.wU32(a.length); b.push(...a); },");
    cb.l("            wRaw(a) { b.push(...a); },");
    cb.l("            toBytes() { return new Uint8Array(b); },");
    cb.l("        };");
    cb.l("    }");
    assert(cb@ =~= g103 + seq![
        ""@,
        "    /** @private */"@,
        "    _writer() {"@,
        "        const b = []; const v = new DataView(new ArrayBuffer(8));"@,
        "        return {"@,
        "            wU8(n) { b.push(n & 0xFF); },"@,
        "            wI8(n) { b.push(n & 0xFF); },"@,
        "            wU16(n) { v.setUint16(0, n, true); b.push(v.getUint8(0), v.getUint8(1)); },"@,
        "            wI16(n) { v.setInt16(0, n, true); b.push(v.getUint8(0), v.getUint8(1)); },"@,
        "            wU32(n) { v.setUint32(0, n, true); for (let i = 0; i < 4; i++) b.push(v.getUint8(i)); },"@,
        "            wI32(n) { v.setInt32(0, n, true); for (let i = 0; i < 4; i++) b.push(v.getUint8(i)); },"@,
        "            wU64(n) { this.wU32(n & 0xFFFFFFFF); this.wU32(Math.floor(n / 0x100000000) & 0xFFFFFFFF); },"@,
        "            wI64(n) { this.wU64(n); },"@,
        "            wF32(n) { v.setFloat32(0, n, true); for (let i = 0; 4 > i; i++) b.push(v.getUint8(i)); },"@,
        "            wF64(n) { v.setFloat64(0, n, true); for (let i = 0; 8 > i; i++) b.push(v.getUint8(i)); },"@,
        "            wB(b_) { b.push(b_ ? 1 : 0); },"@,
        "            wS(s) { const u = new TextEncoder().encode(s); this.wU32(u.length); b.push(...u); },"@,
        "            wBytes(a) { this.wU32(a.length); b.push(...a); },"@,
        "            wRaw(a) { b.push(...a); },"@,
        "            toBytes() { return new Uint8Array(b); },"@,
        "        };"@,
        "    }"@,
    ]);
    proof {
        reveal(js_writer);
    }
    assert(cb@ =~= start + js_writer());
}

/// The binary reader of responses.
#[verifier::opaque]
pub open spec fn js_reader() -> Seq<Seq<char>> {
    seq![
        ""@,
        "    /** @private */"@,
        "    _reader(data) {"@,
        "        const d = Array.from(data); let o = 0;"@,
        "        return {"@,
        "            rU8() { return d[o++]; },"@,
        "            rI8() { return d[o++]; },"@,
        "            rU16() { const v = d[o] | (d[o+1] << 8); o += 2; return v; },"@,
        "            rI16() { const v = (d[o] | (d[o+1] << 8)) << 16 >> 16; o += 2; return v; },"@,
        "            rU32() { const v = d[o] | (d[o+1] << 8) | (d[o+2] << 16) | (d[o+3] << 24); o += 4; return v >>> 0; },"@,
        "            rI32() { const v = d[o] | (d[o+1] << 8) | (d[o+2] << 16) | (d[o+3] << 24); o += 4; return v; },"@,
        "            rU64() { const lo = this.rU32(); const hi = this.rU32(); return hi * 0x100000000 + lo; },"@,
        "            rI64() { return this.rU64(); },"@,
        "            rF32() { const buf = new ArrayBuffer(4); const u = new Uint8Array(buf); u[0] = d[o]; u[1] = d[o+1]; u[2] = d[o+2]; u[3] = d[o+3]; o += 4; return new DataView(buf).getFloat32(0, true); },"@,
        "            rF64() { const buf = new ArrayBuffer(8); const u = new Uint8Array(buf); for (let i = 0; i < 8; i++) u[i] = d[o+i]; o += 8; return new DataView(buf).getFloat64(0, true); },"@,
        "            rB() { return d[o++] === 1; },"@,
        "            rS() { const len = this.rU32(); const u = new Uint8Array(d.slice(o, o + len)); o += len; return new TextDecoder().decode(u); },"@,
        "            rBytes(len) { const u = new Uint8Array(d.slice(o, o + len)); o += len; return u; },"@,
        "            eof() { return o >= d.length; },"@,
        "        };"@,
        "    }"@,
    ]
}

fn push_js_reader(cb: &mut CodeBuf)
    ensures
        final(cb)@ == old(cb)@ + js_reader(),
{
    let ghost start = cb@;
    let ghost g104 = cb@;
    cb.l("");
    cb.l("    /** @private */");
    cb.l("    _reader(data) {");
    cb.l("        const d = Array.from(data); let o = 0;");
    cb.l("        return {");
    cb.l("            rU8() { return d[o++]; },");
    cb.l("            rI8() { return d[o++]; },");
    cb.l("            rU16() { const v = d[o] | (d[o+1] << 8); o += 2; return v; },");
    cb.l("            rI16() { const v = (d[o] | (d[o+1] << 8)) << 16 >> 16; o += 2; return v; },");
    cb.l("            rU32() { const v = d[o] | (d[o+1] << 8) | (d[o+2] << 16) | (d[o+3] << 24); o += 4; return v >>> 0; },");
    cb.l("            rI32() { const v = d[o] | (d[o+1] << 8) | (d[o+2] << 16) | (d[o+3] << 24); o += 4; return v; },");
    cb.l("            rU64() { const lo = this.rU32(); const hi = this.rU32(); return hi * 0x100000000 + lo; },");
    cb.l("            rI64() { return this.rU64(); },");
    cb.l("            rF32() { const buf = new ArrayBuffer(4); const u = new Uint8Array(buf); u[0] = d[o]; u[1] = d[o+1]; u[2] = d[o+2]; u[3] = d[o+3]; o += 4; return new DataView(buf).getFloat32(0, true); },");
    cb.l("            rF64() { const buf = new ArrayBuffer(8); const u = new Uint8Array(buf); for (let i = 0; i < 8; i++) u[i] = d[o+i]; o += 8; return new DataView(buf).getFloat64(0, true); },");
    cb.l("            rB() { return d[o++] === 1; },");
    cb.l("            rS() { const len = this.rU32(); const u = new Uint8Array(d.slice(o, o + len)); o += len; return new TextDecoder().decode(u); },");
    cb.l("            rBytes(len) { const u = new Uint8Array(d.slice(o, o + len)); o += len; return u; },");
    cb.l("            eof() { return o >= d.length; },");
    cb.l("        };");
    cb.l("    }");
    assert(cb@ =~= g104 + seq![
        ""@,
        "    /** @private */"@,
        "    _reader(data) {"@,
        "        const d = Array.from(data); let o = 0;"@,
        "        return {"@,
        "            rU8() { return d[o++]; },"@,
        "            rI8() { return d[o++]; },"@,
        "            rU16() { const v = d[o] | (d[o+1] << 8); o += 2; return v; },"@,
        "            rI16() { const v = (d[o] | (d[o+1] << 8)) << 16 >> 16; o += 2; return v; },"@,
        "            rU32() { const v = d[o] | (d[o+1] << 8) | (d[o+2] << 16) | (d[o+3] << 24); o += 4; return v >>> 0; },"@,
        "            rI32() { const v = d[o] | (d[o+1] << 8) | (d[o+2] << 16) | (d[o+3] << 24); o += 4; return v; },"@,
        "            rU64() { const lo = this.rU32(); const hi = this.rU32(); return hi * 0x100000000 + lo; },"@,
        "            rI64() { return this.rU64(); },"@,
        "            rF32() { const buf = new ArrayBuffer(4); const u = new Uint8Array(buf); u[0] = d[o]; u[1] = d[o+1]; u[2] = d[o+2]; u[3] = d[o+3]; o += 4; return new DataView(buf).getFloat32(0, true); },"@,
        "            rF64() { const buf = new ArrayBuffer(8); const u = new Uint8Array(buf); for (let i = 0; i < 8; i++) u[i] = d[o+i]; o += 8; return new DataView(buf).getFloat64(0, true); },"@,
        "            rB() { return d[o++] === 1; },"@,
        "            rS() { const len = this.rU32(); const u = new Uint8Array(d.slice(o, o + len)); o += len; return new TextDecoder().decode(u); },"@,
        "            rBytes(len) { const u = new Uint8Array(d.slice(o, o + len)); o += len; return u; },"@,
        "            eof() { return o >= d.length; },"@,
        "        };"@,
        "    }"@,
    ]);
    proof {
        reveal(js_reader);
    }
    assert(cb@ =~= start + js_reader());
}

/// A part of [`js_send_raw_multi`].
#[verifier::opaque]
pub open spec fn js_send_raw_multi_part1(has_ws: bool, has_uni_ws: bool, has_wxws: bool, has_tcp: bool) -> Seq<Seq<char>> {
    seq![
        "    _sendRaw(data) {"@,
    ] + (if has_ws {
        seq![
            "        if (this._transport === 'ws') {"@,
            "            this._ws.send(data);"@,
        ]
    } else {
        Seq::<Seq<char>>::empty()
    }) + (if has_uni_ws {
        (if has_ws {
            seq![
                "        } else if (this._transport === 'uniws') {"@,
            ]
        } else {
            seq![
                "        if (this._transport === 'uniws') {"@,
            ]
        }) + seq![
            "            this._wsTask.send({ data });"@,
        ]
    } else {
        Seq::<Seq<char>>::empty()
    })
}

fn push_js_send_raw_multi_part1(cb: &mut CodeBuf, has_ws: bool, has_uni_ws: bool, has_wxws: bool, has_tcp: bool)
    ensures
        final(cb)@ == old(cb)@ + js_send_raw_multi_part1(has_ws, has_uni_ws, has_wxws, has_tcp),
{
    let ghost start = cb@;
    let ghost g105 = cb@;
    cb.l("    _sendRaw(data) {");
    assert(cb@ =~= g105 + seq![
        "    _sendRaw(data) {"@,
    ]);
    let ghost g106 = cb@;
    if has_ws {
        let ghost g107 = cb@;
        cb.l("        if (this._transport === 'ws') {");
        cb.l("            this._ws.send(data);");
        assert(cb@ =~= g107 + seq![
            "        if (this._transport === 'ws') {"@,
            "            this._ws.send(data);"@,
        ]);
        assert(cb@ =~= g106 + seq![
            "        if (this._transport === 'ws') {"@,
            "            this._ws.send(data);"@,
        ]);
    } else {
        assert(cb@ =~= g106 + Seq::<Seq<char>>::empty());
    }
    assert(cb@ =~= g106 + (if has_ws {
        seq![
            "        if (this._transport === 'ws') {"@,
            "            this._ws.send(data);"@,
        ]
    } else {
        Seq::<Seq<char>>::empty()
    }));
    let ghost g108 = cb@;
    if has_uni_ws {
        let ghost g109 = cb@;
        if has_ws {
            let ghost g110 = cb@;
            cb.l("        } else if (this._transport === 'uniws') {");
            assert(cb@ =~= g110 + seq![
                "        } else if (this._transport === 'uniws') {"@,
            ]);
            assert(cb@ =~= g109 + seq![
                "        } else if (this._transport === 'uniws') {"@,
            ]);
        } else {
            let ghost g111 = cb@;
            cb.l("        if (this._transport === 'uniws') {");
            assert(cb@ =~= g111 + seq![
                "        if (this._transport === 'uniws') {"@,
            ]);
            assert(cb@ =~= g109 + seq![
                "        if (this._transport === 'uniws') {"@,
            ]);
        }
        assert(cb@ =~= g109 + (if has_ws {
            seq![
                "        } else if (this._transport === 'uniws') {"@,
            ]
        } else {
            seq![
                "        if (this._transport === 'uniws') {"@,
            ]
        }));
        let ghost g112 = cb@;
        cb.l("            this._wsTask.send({ data });");
        assert(cb@ =~= g112 + seq![
            "            this._wsTask.send({ data });"@,
        ]);
        assert(cb@ =~= g108 + (if has_ws {
            seq![
                "        } else if (this._transport === 'uniws') {"@,
            ]
        } else {
            seq![
                "        if (this._transport === 'uniws') {"@,
            ]
        }) + seq![
            "            this._wsTask.send({ data });"@,
        ]);
    } else {
        assert(cb@ =~= g108 + Seq::<Seq<char>>::empty());
    }
    assert(cb@ =~= g108 + (if has_uni_ws {
        (if has_ws {
            seq![
                "        } else if (this._transport === 'uniws') {"@,
            ]
        } else {
            seq![
                "        if (this._transport === 'uniws') {"@,
            ]
        }) + seq![
            "            this._wsTask.send({ data });"@,
        ]
    } else {
        Seq::<Seq<char>>::empty()
    }));
    proof {
        reveal(js_send_raw_multi_part1);
    }
    assert(cb@ =~= start + js_send_raw_multi_part1(has_ws, has_uni_ws, has_wxws, has_tcp));
}

/// A part of [`js_send_raw_multi`].
#[verifier::opaque]
pub open spec fn js_send_raw_multi_part2(has_ws: bool, has_uni_ws: bool, has_wxws: bool, has_tcp: bool) -> Seq<Seq<char>> {
    (if has_wxws {
        (if has_ws || has_uni_ws {
            seq![
                "        } else if (this._transport === 'wxws') {"@,
            ]
        } else {
            seq![
                "        if (this._transport === 'wxws') {"@,
            ]
        }) + seq![
            "            this._wxSocketTask.send({ data });"@,
        ]
    } else {
        Seq::<Seq<char>>::empty()
    }) + (if has_tcp {
        seq![
            "        } else {"@,
            "            const buf = new ArrayBuffer(4 + data.length);"@,
            "            const bv = new DataView(buf);"@,
            "            bv.setUint32(0, data.length, true);"@,
            "            new Uint8Array(buf).set(data, 4);"@,
            "            this._tcpSocket.write(new Uint8Array(buf));"@,
        ]
    } else {
        Seq::<Seq<char>>::empty()
    }) + seq![
        "        }"@,
        "    }"@,
    ]
}

fn push_js_send_raw_multi_part2(cb: &mut CodeBuf, has_ws: bool, has_uni_ws: bool, has_wxws: bool, has_tcp: bool)
    ensures
        final(cb)@ == old(cb)@ + js_send_raw_multi_part2(has_ws, has_uni_ws, has_wxws, has_tcp),
{
    let ghost start = cb@;
    let ghost g113 = cb@;
    if has_wxws {
        let ghost g114 = cb@;
        if has_ws || has_uni_ws {
            let ghost g115 = cb@;
            cb.l("        } else if (this._transport === 'wxws') {");
            assert(cb@ =~= g115 + seq![
                "        } else if (this._transport === 'wxws') {"@,
            ]);
            assert(cb@ =~= g114 + seq![
                "        } else if (this._transport === 'wxws') {"@,
            ]);
        } else {
            let ghost g116 = cb@;
            cb.l("        if (this._transport === 'wxws') {");
            assert(cb@ =~= g116 + seq![
                "        if (this._transport === 'wxws') {"@,
            ]);
            assert(cb@ =~= g114 + seq![
                "        if (this._transport === 'wxws') {"@,
            ]);
        }
        assert(cb@ =~= g114 + (if has_ws || has_uni_ws {
            seq![
                "        } else if (this._transport === 'wxws') {"@,
            ]
        } else {
            seq![
                "        if (this._transport === 'wxws') {"@,
            ]
        }));
        let ghost g117 = cb@;
        cb.l("            this._wxSocketTask.send({ data });");
        assert(cb@ =~= g117 + seq![
            "            this._wxSocketTask.send({ data });"@,
        ]);
        assert(cb@ =~= g113 + (if has_ws || has_uni_ws {
            seq![
                "        } else if (this._transport === 'wxws') {"@,
            ]
        } else {
            seq![
                "        if (this._transport === 'wxws') {"@,
            ]
        }) + seq![
            "            this._wxSocketTask.send({ data });"@,
        ]);
    } else {
        assert(cb@ =~= g113 + Seq::<Seq<char>>::empty());
    }
    assert(cb@ =~= g113 + (if has_wxws {
        (if has_ws || has_uni_ws {
            seq![
                "        } else if (this._transport === 'wxws') {"@,
            ]
        } else {
            seq![
                "        if (this._transport === 'wxws') {"@,
            ]
        }) + seq![
            "            this._wxSocketTask.send({ data });"@,
        ]
    } else {
        Seq::<Seq<char>>::empty()
    }));
    let ghost g118 = cb@;
    if has_tcp {
        let ghost g119 = cb@;
        cb.l("        } else {");
        cb.l("            const buf = new ArrayBuffer(4 + data.length);");
        cb.l("            const bv = new DataView(buf);");
        cb.l("            bv.setUint32(0, data.length, true);");
        cb.l("            new Uint8Array(buf).set(data, 4);");
        cb.l("            this._tcpSocket.write(new Uint8Array(buf));");
        assert(cb@ =~= g119 + seq![
            "        } else {"@,
            "            const buf = new ArrayBuffer(4 + data.length);"@,
            "            const bv = new DataView(buf);"@,
            "            bv.setUint32(0, data.length, true);"@,
            "            new Uint8Array(buf).set(data, 4);"@,
            "            this._tcpSocket.write(new Uint8Array(buf));"@,
        ]);
        assert(cb@ =~= g118 + seq![
            "        } else {"@,
            "            const buf = new ArrayBuffer(4 + data.length);"@,
            "            const bv = new DataView(buf);"@,
            "            bv.setUint32(0, data.length, true);"@,
            "            new Uint8Array(buf).set(data, 4);"@,
            "            this._tcpSocket.write(new Uint8Array(buf));"@,
        ]);
    } else {
        assert(cb@ =~= g118 + Seq::<Seq<char>>::empty());
    }
    assert(cb@ =~= g118 + (if has_tcp {
        seq![
            "        } else {"@,
            "            const buf = new ArrayBuffer(4 + data.length);"@,
            "            const bv = new DataView(buf);"@,
            "            bv.setUint32(0, data.length, true);"@,
            "            new Uint8Array(buf).set(data, 4);"@,
            "            this._tcpSocket.write(new Uint8Array(buf));"@,
        ]
    } else {
        Seq::<Seq<char>>::empty()
    }));
    let ghost g120 = cb@;
    cb.l("        }");
    cb.l("    }");
    assert(cb@ =~= g120 + seq![
        "        }"@,
        "    }"@,
    ]);
    proof {
        reveal(js_send_raw_multi_part2);
    }
    assert(cb@ =~= start + js_send_raw_multi_part2(has_ws, has_uni_ws, has_wxws, has_tcp));
}

/// The raw frame sender when several long-connection transports are requested.
pub open spec fn js_send_raw_multi(has_ws: bool, has_uni_ws: bool, has_wxws: bool, has_tcp: bool) -> Seq<Seq<char>> {
    js_send_raw_multi_part1(has_ws, has_uni_ws, has_wxws, has_tcp) + js_send_raw_multi_part2(has_ws, has_uni_ws, has_wxws, has_tcp)
}

fn push_js_send_raw_multi(cb: &mut CodeBuf, has_ws: bool, has_uni_ws: bool, has_wxws: bool, has_tcp: bool)
    ensures
        final(cb)@ == old(cb)@ + js_send_raw_multi(has_ws, has_uni_ws, has_wxws, has_tcp),
{
    let ghost start = cb@;
    push_js_send_raw_multi_part1(cb, has_ws, has_uni_ws, has_wxws, has_tcp);
    push_js_send_raw_multi_part2(cb, has_ws, has_uni_ws, has_wxws, has_tcp);
    assert(cb@ =~= start + (js_send_raw_multi_part1(has_ws, has_uni_ws, has_wxws, has_tcp) + js_send_raw_multi_part2(has_ws, has_uni_ws, has_wxws, has_tcp)));
}

/// The raw frame sender when one long-connection transport is requested.
#[verifier::opaque]
pub open spec fn js_send_raw_single(has_ws: bool, has_uni_ws: bool, has_wxws: bool) -> Seq<Seq<char>> {
    (if has_ws {
        seq![
            "    _sendRaw(data) { this._ws.send(data); }"@,
        ]
    } else {
        (if has_uni_ws {
            seq![
                "    _sendRaw(data) { this._wsTask.send({ data }); }"@,
            ]
        } else {
            (if has_wxws {
                seq![
                    "    _sendRaw(data) { this._wxSocketTask.send({ data }); }"@,
                ]
            } else {
                seq![
                    "    _sendRaw(data) {"@,
                    "        const buf = new ArrayBuffer(4 + data.length);"@,
                    "        const bv = new DataView(buf);"@,
                    "        bv.setUint32(0, data.length, true);"@,
                    "        new Uint8Array(buf).set(data, 4);"@,
                    "        this._tcpSocket.write(new Uint8Array(buf));"@,
                    "    }"@,
                ]
            })
        })
    })
}

fn push_js_send_raw_single(cb: &mut CodeBuf, has_ws: bool, has_uni_ws: bool, has_wxws: bool)
    ensures
        final(cb)@ == old(cb)@ + js_send_raw_single(has_ws, has_uni_ws, has_wxws),
{
    let ghost start = cb@;
    let ghost g121 = cb@;
    if has_ws {
        let ghost g122 = cb@;
        cb.l("    _sendRaw(data) { this._ws.send(data); }");
        assert(cb@ =~= g122 + seq![
            "    _sendRaw(data) { this._ws.send(data); }"@,
        ]);
        assert(cb@ =~= g121 + seq![
            "    _sendRaw(data) { this._ws.send(data); }"@,
        ]);
    } else {
        let ghost g123 = cb@;
        if has_uni_ws {
            let ghost g124 = cb@;
            cb.l("    _sendRaw(data) { this._wsTask.send({ data }); }");
            assert(cb@ =~= g124 + seq![
                "    _sendRaw(data) { this._wsTask.send({ data }); }"@,
            ]);
            assert(cb@ =~= g123 + seq![
                "    _sendRaw(data) { this._wsTask.send({ data }); }"@,
            ]);
        } else {
            let ghost g125 = cb@;
            if has_wxws {
                let ghost g126 = cb@;
                cb.l("    _sendRaw(data) { this._wxSocketTask.send({ data }); }");
                assert(cb@ =~= g126 + seq![
                    "    _sendRaw(data) { this._wxSocketTask.send({ data }); }"@,
                ]);
                assert(cb@ =~= g125 + seq![
                    "    _sendRaw(data) { this._wxSocketTask.send({ data }); }"@,
                ]);
            } else {
                let ghost g127 = cb@;
                cb.l("    _sendRaw(data) {");
                cb.l("        const buf = new ArrayBuffer(4 + data.length);");
                cb.l("        const bv = new DataView(buf);");
                cb.l("        bv.setUint32(0, data.length, true);");
                cb.l("        new Uint8Array(buf).set(data, 4);");
                cb.l("        this._tcpSocket.write(new Uint8Array(buf));");
                cb.l("    }");
                assert(cb@ =~= g127 + seq![
                    "    _sendRaw(data) {"@,
                    "        const buf = new ArrayBuffer(4 + data.length);"@,
                    "        const bv = new DataView(buf);"@,
                    "        bv.setUint32(0, data.length, true);"@,
                    "        new Uint8Array(buf).set(data, 4);"@,
                    "        this._tcpSocket.write(new Uint8Array(buf));"@,
                    "    }"@,
                ]);
                assert(cb@ =~= g125 + seq![
                    "    _sendRaw(data) {"@,
                    "        const buf = new ArrayBuffer(4 + data.length);"@,
                    "        const bv = new DataView(buf);"@,
                    "        bv.setUint32(0, data.length, true);"@,
                    "        new Uint8Array(buf).set(data, 4);"@,
                    "        this._tcpSocket.write(new Uint8Array(buf));"@,
                    "    }"@,
                ]);
            }
            assert(cb@ =~= g125 + (if has_wxws {
                seq![
                    "    _sendRaw(data) { this._wxSocketTask.send({ data }); }"@,
                ]
            } else {
                seq![
                    "    _sendRaw(data) {"@,
                    "        const buf = new ArrayBuffer(4 + data.length);"@,
                    "        const bv = new DataView(buf);"@,
                    "        bv.setUint32(0, data.length, true);"@,
                    "        new Uint8Array(buf).set(data, 4);"@,
                    "        this._tcpSocket.write(new Uint8Array(buf));"@,
                    "    }"@,
                ]
            }));
            assert(cb@ =~= g123 + (if has_wxws {
                seq![
                    "    _sendRaw(data) { this._wxSocketTask.send({ data }); }"@,
                ]
            } else {
                seq![
                    "    _sendRaw(data) {"@,
                    "        const buf = new ArrayBuffer(4 + data.length);"@,
                    "        const bv = new DataView(buf);"@,
                    "        bv.setUint32(0, data.length, true);"@,
                    "        new Uint8Array(buf).set(data, 4);"@,
                    "        this._tcpSocket.write(new Uint8Array(buf));"@,
                    "    }"@,
                ]
            }));
        }
        assert(cb@ =~= g123 + (if has_uni_ws {
            seq![
                "    _sendRaw(data) { this._wsTask.send({ data }); }"@,
            ]
        } else {
            (if has_wxws {
                seq![
                    "    _sendRaw(data) { this._wxSocketTask.send({ data }); }"@,
                ]
            } else {
                seq![
                    "    _sendRaw(data) {"@,
                    "        const buf = new ArrayBuffer(4 + data.length);"@,
                    "        const bv = new DataView(buf);"@,
                    "        bv.setUint32(0, data.length, true);"@,
                    "        new Uint8Array(buf).set(data, 4);"@,
                    "        this._tcpSocket.write(new Uint8Array(buf));"@,
                    "    }"@,
                ]
            })
        }));
        assert(cb@ =~= g121 + (if has_uni_ws {
            seq![
                "    _sendRaw(data) { this._wsTask.send({ data }); }"@,
            ]
        } else {
            (if has_wxws {
                seq![
                    "    _sendRaw(data) { this._wxSocketTask.send({ data }); }"@,
                ]
            } else {
                seq![
                    "    _sendRaw(data) {"@,
                    "        const buf = new ArrayBuffer(4 + data.length);"@,
                    "        const bv = new DataView(buf);"@,
                    "        bv.setUint32(0, data.length, true);"@,
                    "        new Uint8Array(buf).set(data, 4);"@,
                    "        this._tcpSocket.write(new Uint8Array(buf));"@,
                    "    }"@,
                ]
            })
        }));
    }
    assert(cb@ =~= g121 + (if has_ws {
        seq![
            "    _sendRaw(data) { this._ws.send(data); }"@,
        ]
    } else {
        (if has_uni_ws {
            seq![
                "    _sendRaw(data) { this._wsTask.send({ data }); }"@,
            ]
        } else {
            (if has_wxws {
                seq![
                    "    _sendRaw(data) { this._wxSocketTask.send({ data }); }"@,
                ]
            } else {
                seq![
                    "    _sendRaw(data) {"@,
                    "        const buf = new ArrayBuffer(4 + data.length);"@,
                    "        const bv = new DataView(buf);"@,
                    "        bv.setUint32(0, data.length, true);"@,
                    "        new Uint8Array(buf).set(data, 4);"@,
                    "        this._tcpSocket.write(new Uint8Array(buf));"@,
                    "    }"@,
                ]
            })
        })
    }));
    proof {
        reveal(js_send_raw_single);
    }
    assert(cb@ =~= start + js_send_raw_single(has_ws, has_uni_ws, has_wxws));
}

/// The heartbeat that keeps the pushed connections alive.
#[verifier::opaque]
pub open spec fn js_heartbeat(has_sock: bool, has_ws: bool, has_tcp: bool, has_uni_ws: bool, has_wxws: bool) -> Seq<Seq<char>> {
    (if has_sock {
        seq![
            "    /** @private */"@,
            "    _sendHeartbeat() {"@,
            "        const ids = Array.from(this._pushHandlers.keys());"@,
            "        const buf = new ArrayBuffer(8 + ids.length * 4);"@,
            "        const v = new DataView(buf);"@,
            "        v.setUint32(0, 0xFFFFFFFF, true);"@,
            "        v.setUint32(4, ids.length * 4, true);"@,
            "        ids.forEach((id, i) => v.setUint32(4 + 4 + i * 4, id, true));"@,
        ] + (if has_ws && (has_tcp || has_uni_ws || has_wxws) {
            seq![
                "        if (this._transport === 'ws') { this._ws.send(buf); } else { this._sendRaw(new Uint8Array(buf)); }"@,
            ]
        } else {
            (if has_ws {
                seq![
                    "        this._ws.send(buf);"@,
                ]
            } else {
                seq![
                    "        this._sendRaw(new Uint8Array(buf));"@,
                ]
            })
        }) + seq![
            "    }"@,
        ]
    } else {
        Seq::<Seq<char>>::empty()
    })
}

fn push_js_heartbeat(cb: &mut CodeBuf, has_sock: bool, has_ws: bool, has_tcp: bool, has_uni_ws: bool, has_wxws: bool)
    ensures
        final(cb)@ == old(cb)@ + js_heartbeat(has_sock, has_ws, has_tcp, has_uni_ws, has_wxws),
{
    let ghost start = cb@;
    let ghost g128 = cb@;
    if has_sock {
        let ghost g129 = cb@;
        cb.l("    /** @private */");
        cb.l("    _sendHeartbeat() {");
        cb.l("        const ids = Array.from(this._pushHandlers.keys());");
        cb.l("        const buf = new ArrayBuffer(8 + ids.length * 4);");
        cb.l("        const v = new DataView(buf);");
        cb.l("        v.setUint32(0, 0xFFFFFFFF, true);");
        cb.l("        v.setUint32(4, ids.length * 4, true);");
        cb.l("        ids.forEach((id, i) => v.setUint32(4 + 4 + i * 4, id, true));");
        assert(cb@ =~= g129 + seq![
            "    /** @private */"@,
            "    _sendHeartbeat() {"@,
            "        const ids = Array.from(this._pushHandlers.keys());"@,
            "        const buf = new ArrayBuffer(8 + ids.length * 4);"@,
            "        const v = new DataView(buf);"@,
            "        v.setUint32(0, 0xFFFFFFFF, true);"@,
            "        v.setUint32(4, ids.length * 4, true);"@,
            "        ids.forEach((id, i) => v.setUint32(4 + 4 + i * 4, id, true));"@,
        ]);
        let ghost g130 = cb@;
        if has_ws && (has_tcp || has_uni_ws || has_wxws) {
            let ghost g131 = cb@;
            cb.l("        if (this._transport === 'ws') { this._ws.send(buf); } else { this._sendRaw(new Uint8Array(buf)); }");
            assert(cb@ =~= g131 + seq![
                "        if (this._transport === 'ws') { this._ws.send(buf); } else { this._sendRaw(new Uint8Array(buf)); }"@,
            ]);
            assert(cb@ =~= g130 + seq![
                "        if (this._transport === 'ws') { this._ws.send(buf); } else { this._sendRaw(new Uint8Array(buf)); }"@,
            ]);
        } else {
            let ghost g132 = cb@;
            if has_ws {
                let ghost g133 = cb@;
                cb.l("        this._ws.send(buf);");
                assert(cb@ =~= g133 + seq![
                    "        this._ws.send(buf);"@,
                ]);
                assert(cb@ =~= g132 + seq![
                    "        this._ws.send(buf);"@,
                ]);
            } else {
                let ghost g134 = cb@;
                cb.l("        this._sendRaw(new Uint8Array(buf));");
                assert(cb@ =~= g134 + seq![
                    "        this._sendRaw(new Uint8Array(buf));"@,
                ]);
                assert(cb@ =~= g132 + seq![
                    "        this._sendRaw(new Uint8Array(buf));"@,
                ]);
            }
            assert(cb@ =~= g132 + (if has_ws {
                seq![
                    "        this._ws.send(buf);"@,
                ]
            } else {
                seq![
                    "        this._sendRaw(new Uint8Array(buf));"@,
                ]
            }));
            assert(cb@ =~= g130 + (if has_ws {
                seq![
                    "        this._ws.send(buf);"@,
                ]
            } else {
                seq![
                    "        this._sendRaw(new Uint8Array(buf));"@,
                ]
            }));
        }
        assert(cb@ =~= g130 + (if has_ws && (has_tcp || has_uni_ws || has_wxws) {
            seq![
                "        if (this._transport === 'ws') { this._ws.send(buf); } else { this._sendRaw(new Uint8Array(buf)); }"@,
            ]
        } else {
            (if has_ws {
                seq![
                    "        this._ws.send(buf);"@,
                ]
            } else {
                seq![
                    "        this._sendRaw(new Uint8Array(buf));"@,
                ]
            })
        }));
        let ghost g135 = cb@;
        cb.l("    }");
        assert(cb@ =~= g135 + seq![
            "    }"@,
        ]);
        assert(cb@ =~= g128 + seq![
            "    /** @private */"@,
            "    _sendHeartbeat() {"@,
            "        const ids = Array.from(this._pushHandlers.keys());"@,
            "        const buf = new ArrayBuffer(8 + ids.length * 4);"@,
            "        const v = new DataView(buf);"@,
            "        v.setUint32(0, 0xFFFFFFFF, true);"@,
            "        v.setUint32(4, ids.length * 4, true);"@,
            "        ids.forEach((id, i) => v.setUint32(4 + 4 + i * 4, id, true));"@,
        ] + (if has_ws && (has_tcp || has_uni_ws || has_wxws) {
            seq![
                "        if (this._transport === 'ws') { this._ws.send(buf); } else { this._sendRaw(new Uint8Array(buf)); }"@,
            ]
        } else {
            (if has_ws {
                seq![
                    "        this._ws.send(buf);"@,
                ]
            } else {
                seq![
                    "        this._sendRaw(new Uint8Array(buf));"@,
                ]
            })
        }) + seq![
            "    }"@,
        ]);
    } else {
        assert(cb@ =~= g128 + Seq::<Seq<char>>::empty());
    }
    assert(cb@ =~= g128 + (if has_sock {
        seq![
            "    /** @private */"@,
            "    _sendHeartbeat() {"@,
            "        const ids = Array.from(this._pushHandlers.keys());"@,
            "        const buf = new ArrayBuffer(8 + ids.length * 4);"@,
            "        const v = new DataView(buf);"@,
            "        v.setUint32(0, 0xFFFFFFFF, true);"@,
            "        v.setUint32(4, ids.length * 4, true);"@,
            "        ids.forEach((id, i) => v.setUint32(4 + 4 + i * 4, id, true));"@,
        ] + (if has_ws && (has_tcp || has_uni_ws || has_wxws) {
            seq![
                "        if (this._transport === 'ws') { this._ws.send(buf); } else { this._sendRaw(new Uint8Array(buf)); }"@,
            ]
        } else {
            (if has_ws {
                seq![
                    "        this._ws.send(buf);"@,
                ]
            } else {
                seq![
                    "        this._sendRaw(new Uint8Array(buf));"@,
                ]
            })
        }) + seq![
            "    }"@,
        ]
    } else {
        Seq::<Seq<char>>::empty()
    }));
    proof {
        reveal(js_heartbeat);
    }
    assert(cb@ =~= start + js_heartbeat(has_sock, has_ws, has_tcp, has_uni_ws, has_wxws));
}

/// The start of the `apis` getter.
#[verifier::opaque]
pub open spec fn js_apis_open() -> Seq<Seq<char>> {
    seq![
        ""@,
        "    get apis() {"@,
        "        return {"@,
    ]
}

fn push_js_apis_open(cb: &mut CodeBuf)
    ensures
        final(cb)@ == old(cb)@ + js_apis_open(),
{
    let ghost start = cb@;
    let ghost g136 = cb@;
    cb.l("");
    cb.l("    get apis() {");
    cb.l("        return {");
    assert(cb@ =~= g136 + seq![
        ""@,
        "    get apis() {"@,
        "        return {"@,
    ]);
    proof {
        reveal(js_apis_open);
    }
    assert(cb@ =~= start + js_apis_open());
}

/// The end of the `apis` getter and of the client class.
#[verifier::opaque]
pub open spec fn js_close() -> Seq<Seq<char>> {
    seq![
        "        };"@,
        "    }"@,
        "}"@,
    ]
}

fn push_js_close(cb: &mut CodeBuf)
    ensures
        final(cb)@ == old(cb)@ + js_close(),
{
    let ghost start = cb@;
    let ghost g137 = cb@;
    cb.l("        };");
    cb.l("    }");
    cb.l("}");
    assert(cb@ =~= g137 + seq![
        "        };"@,
        "    }"@,
        "}"@,
    ]);
    proof {
        reveal(js_close);
    }
    assert(cb@ =~= start + js_close());
}

/// Whether a `Header` parameter's type needs a header function: it has no
/// layout, is an enum, or has a field that is not a standard header.
pub open spec fn header_shown(p: ParamMeta) -> bool {
    match p.structure {
        Some(s) => match s.kind {
            TagKind::Struct(fs) => has_nonstandard(fs@),
            TagKind::Enum(_) => true,
        },
        None => true,
    }
}

/// Adds to `acc`, in order, the types of the `Header` parameters of `ps`
/// not yet present; with `filter`, only those that need a header function.
pub open spec fn add_headers(acc: Seq<Seq<char>>, ps: Seq<ParamMeta>, filter: bool) -> Seq<Seq<char>>
    decreases ps.len(),
{
    if ps.len() == 0 {
        acc
    } else {
        let a = add_headers(acc, ps.drop_last(), filter);
        let p = ps.last();
        if p.extractor@ == "Header"@ && !a.contains(p.ty@) && (!filter || header_shown(p)) {
            a.push(p.ty@)
        } else {
            a
        }
    }
}

/// The header types of a handler tree, depth first.
pub open spec fn tree_headers(hs: Seq<Handler>, acc: Seq<Seq<char>>) -> Seq<Seq<char>>
    decreases hs,
{
    if hs.len() == 0 {
        acc
    } else {
        let a = tree_headers(hs.drop_last(), acc);
        let h = hs.last();
        tree_headers(h.children@, add_headers(a, h.meta.params@, true))
    }
}

/// The header types of the top-level ordinary routes, after `acc`.
pub open spec fn route_headers(rs: Seq<OrdinaryRoute>, acc: Seq<Seq<char>>) -> Seq<Seq<char>>
    decreases rs.len(),
{
    if rs.len() == 0 {
        acc
    } else {
        add_headers(route_headers(rs.drop_last(), acc), rs.last().meta.params@, false)
    }
}

/// The header types a JavaScript client takes header functions for.
pub open spec fn js_headers(svc: Service) -> Seq<Seq<char>> {
    route_headers(svc.ordinary_routes@, tree_headers(svc.handlers@, Seq::empty()))
}

/// The flags that select the client's transports.
pub struct JsCalls {
    pub fetch: bool,
    pub ws: bool,
    pub nodetcp: bool,
    pub buntcp: bool,
    pub uni_req: bool,
    pub uni_ws: bool,
    pub wxrequest: bool,
    pub wxws: bool,
}

/// The transports requested by `calls`.
pub open spec fn js_calls(calls: Seq<JsTsCallType>) -> JsCalls {
    JsCalls {
        fetch: calls.contains(JsTsCallType::Fetch),
        ws: calls.contains(JsTsCallType::Ws),
        nodetcp: calls.contains(JsTsCallType::NodeTcp),
        buntcp: calls.contains(JsTsCallType::BunTcp),
        uni_req: calls.contains(JsTsCallType::UniRequest),
        uni_ws: calls.contains(JsTsCallType::UniWs),
        wxrequest: calls.contains(JsTsCallType::WxRequest),
        wxws: calls.contains(JsTsCallType::WxWs),
    }
}

/// Some TCP transport is requested.
pub open spec fn has_tcp(c: JsCalls) -> bool {
    c.nodetcp || c.buntcp
}

/// Some long-connection transport is requested.
pub open spec fn has_sock(c: JsCalls) -> bool {
    c.ws || c.uni_ws || c.wxws || c.nodetcp || c.buntcp
}

/// `[item]` when `cond` holds, else nothing.
pub open spec fn opt_item(cond: bool, item: Seq<char>) -> Seq<Seq<char>> {
    if cond {
        seq![item]
    } else {
        Seq::empty()
    }
}

/// The requested transports, in the order of the union.
pub open spec fn union_items(c: JsCalls) -> Seq<Seq<char>> {
    opt_item(c.fetch, "'fetch'"@) + opt_item(c.ws, "'ws'"@) + opt_item(c.nodetcp, "'nodetcp'"@) + opt_item(
        c.buntcp,
        "'buntcp'"@,
    ) + opt_item(c.uni_req, "'unirequest'"@) + opt_item(c.uni_ws, "'uniws'"@) + opt_item(
        c.wxrequest,
        "'wxrequest'"@,
    ) + opt_item(c.wxws, "'wxws'"@)
}

/// The JSDoc union of the selectable transports, `'fetch'` when none is
/// requested.
#[verifier::opaque]
pub open spec fn transport_union(c: JsCalls) -> Seq<char> {
    let v = union_items(c);
    join_seq(if v.len() == 0 { seq!["'fetch'"@] } else { v }, "|"@)
}

/// The transport used when none is chosen, without its quotes.
pub open spec fn default_transport(c: JsCalls) -> Seq<char> {
    if c.fetch {
        "fetch"@
    } else if c.ws {
        "ws"@
    } else if c.uni_req {
        "unirequest"@
    } else if c.uni_ws {
        "uniws"@
    } else if c.wxrequest {
        "wxrequest"@
    } else if c.wxws {
        "wxws"@
    } else if c.nodetcp {
        "nodetcp"@
    } else {
        "buntcp"@
    }
}

/// The condition, in JavaScript, that the chosen transport speaks HTTP.
#[verifier::opaque]
pub open spec fn http_check(c: JsCalls) -> Seq<char> {
    let v = (if c.fetch { seq!["this._transport === 'fetch'"@] } else { Seq::empty() }) + (if c.uni_req {
        seq!["this._transport === 'unirequest'"@]
    } else {
        Seq::empty()
    }) + (if c.wxrequest { seq!["this._transport === 'wxrequest'"@] } else { Seq::empty() });
    if v.len() == 0 {
        "false"@
    } else {
        join_seq(v, " || "@)
    }
}

/// More than one long-connection transport shares `_sendRaw`.
pub open spec fn multi_send(c: JsCalls) -> bool {
    let n = (if c.ws { 1int } else { 0int }) + (if c.uni_ws { 1int } else { 0int }) + (if c.wxws {
        1int
    } else {
        0int
    }) + (if has_tcp(c) { 1int } else { 0int });
    n > 1
}

/// The typedefs of the functions that supply `Custom` or header values.
pub open spec fn fn_typedefs(ts: Seq<Seq<char>>, kind: Seq<char>) -> Seq<Seq<char>>
    decreases ts.len(),
{
    if ts.len() == 0 {
        Seq::empty()
    } else {
        let t = ts.last();
        fn_typedefs(ts.drop_last(), kind) + seq![
            "/**"@,
            " * @typedef {Function} "@ + kind + "_"@ + t,
            " * @returns {Promise<"@ + t + ">}"@,
            " */"@,
        ]
    }
}

/// The typedef section of the supplier functions, each kind preceded by a
/// blank line when present, and followed by a blank line.
pub open spec fn supplier_typedefs(customs: Seq<Seq<char>>, headers: Seq<Seq<char>>) -> Seq<Seq<char>> {
    (if customs.len() > 0 {
        seq![Seq::empty()] + fn_typedefs(customs, "CustomFn"@)
    } else {
        Seq::empty()
    }) + (if headers.len() > 0 {
        seq![Seq::empty()] + fn_typedefs(headers, "HeaderFn"@)
    } else {
        Seq::empty()
    })
}

/// `pre` followed by each type.
pub open spec fn prefixed_all(ts: Seq<Seq<char>>, pre: Seq<char>) -> Seq<Seq<char>> {
    ts.map_values(|t: Seq<char>| pre + t)
}

/// The typed field holding the supplier functions of one kind.
pub open spec fn supplier_field(ts: Seq<Seq<char>>, kind: Seq<char>, field: Seq<char>) -> Seq<Seq<char>> {
    if ts.len() == 0 {
        seq!["    /** @type {[]} */"@, "    "@ + field + ";"@]
    } else {
        seq![
            "    /** @type {["@ + join_seq(prefixed_all(ts, kind + "_"@), ", "@) + "]} */"@,
            "    "@ + field + ";"@,
        ]
    }
}

/// The constructor's documentation of the supplier functions of one kind.
pub open spec fn supplier_docs(ts: Seq<Seq<char>>, kind: Seq<char>, option: Seq<char>) -> Seq<Seq<char>> {
    if ts.len() == 0 {
        Seq::empty()
    } else {
        seq!["     * @param {Object} [options."@ + option + "]"@] + ts.map_values(
            |t: Seq<char>| "     * @param {"@ + kind + "_"@ + t + "} [options."@ + option + "."@ + t + "]"@,
        )
    }
}

/// The constructor's assignment of the supplier functions of one kind.
pub open spec fn supplier_assign(ts: Seq<Seq<char>>, option: Seq<char>) -> Seq<char> {
    if ts.len() == 0 {
        "        this._"@ + option + " = [];"@
    } else {
        "        this._"@ + option + " = ["@ + join_seq(prefixed_all(ts, "options."@ + option + "."@), ", "@)
            + "];"@
    }
}

/// The constructor's documentation lines.
pub open spec fn ctor_docs(c: JsCalls, customs: Seq<Seq<char>>, headers: Seq<Seq<char>>, debug: bool) -> Seq<Seq<char>> {
    seq![
        "     * @param {Object} options"@,
        "     * @param {string} options.host"@,
        "     * @param {number} options.port"@,
        "     * @param {boolean} options.tls"@,
    ] + supplier_docs(customs, "CustomFn"@, "customs"@) + supplier_docs(headers, "HeaderFn"@, "headers"@) + seq![
        "     * @param {"@ + transport_union(c) + "} [options.transport='"@ + default_transport(c) + "']"@,
        "     * @param {Function} [options.onError] - Called with (code, message) on error"@,
    ] + (if debug { seq!["     * @param {boolean} [options.debug=true]"@] } else { Seq::empty() })
}

/// The constructor's assignments.
pub open spec fn ctor_body(c: JsCalls, customs: Seq<Seq<char>>, headers: Seq<Seq<char>>, debug: bool) -> Seq<Seq<char>> {
    let hc = http_check(c);
    seq![
        "        this._host = options.host;"@,
        "        this._port = options.port;"@,
        "        this._tls = options.tls;"@,
        supplier_assign(customs, "customs"@),
        supplier_assign(headers, "headers"@),
        "        this._transport = options.transport || '"@ + default_transport(c) + "';"@,
        "        const scheme = options.tls ? ("@ + hc + " ? 'https' : 'wss') : ("@ + hc + " ? 'http' : 'ws');"@,
        "        this._url = scheme + '://' + options.host + ':' + options.port;"@,
        "        this._onError = options.onError;"@,
    ] + (if debug {
        seq!["        this._debug = options.debug !== undefined ? options.debug : true;"@]
    } else {
        Seq::empty()
    })
}

/// The constructor: its documentation, then its assignments.
#[verifier::opaque]
pub open spec fn ctor_lines(c: JsCalls, customs: Seq<Seq<char>>, headers: Seq<Seq<char>>, debug: bool) -> Seq<Seq<char>> {
    seq![""@, "    /**"@] + ctor_docs(c, customs, headers, debug) + seq!["     */"@, "    constructor(options) {"@]
        + ctor_body(c, customs, headers, debug)
}

/// The raw frame sender of the long connections, when there is one.
#[verifier::opaque]
pub open spec fn send_raw_block(c: JsCalls) -> Seq<Seq<char>> {
    if has_sock(c) {
        seq![""@, "    /** @param {Uint8Array} data */"@] + if multi_send(c) {
            js_send_raw_multi(c.ws, c.uni_ws, c.wxws, has_tcp(c))
        } else {
            js_send_raw_single(c.ws, c.uni_ws, c.wxws)
        }
    } else {
        Seq::empty()
    }
}

/// Some handler or top-level ordinary route caches its results.
pub open spec fn js_has_cache(svc: Service) -> bool {
    any_cache(svc.handlers@) || exists|i: int|
        0 <= i < svc.ordinary_routes@.len() && (#[trigger] svc.ordinary_routes@[i]).meta.cache_seconds > 0
}

/// Some handler or top-level route is an ordinary JSON-over-HTTP one.
pub open spec fn js_has_ordinary(svc: Service) -> bool {
    any_ordinary(svc.handlers@) || svc.ordinary_routes@.len() > 0
}

/// The module head up to the error class: imports, the socket class, the
/// typedefs of the service's types and of its supplier functions.
#[verifier::opaque]
pub open spec fn js_part_head(svc: Service, c: JsCalls) -> Seq<Seq<char>> {
    js_head(c.nodetcp) + js_socket(has_sock(c)) + tree_exports(svc.handlers@, Seq::empty(), (Seq::empty(), Seq::empty())).0
        + supplier_typedefs(customs_of(svc.handlers@), js_headers(svc)) + js_error()
}

/// The client class's declaration and fields.
#[verifier::opaque]
pub open spec fn js_part_class(svc: Service, c: JsCalls, debug: bool) -> Seq<Seq<char>> {
    let has_req = js_has_ordinary(svc) && (c.fetch || c.uni_req || c.wxrequest);
    seq!["export class "@ + pascal(svc.name@) + "Client {"@] + js_cache_field(js_has_cache(svc)) + seq![
        "    /** @type {"@ + transport_union(c) + "} */"@,
    ] + js_fields(has_tcp(c), c.ws, c.uni_ws, c.wxws, has_sock(c), has_req) + supplier_field(
        customs_of(svc.handlers@),
        "CustomFn"@,
        "_customs"@,
    ) + supplier_field(js_headers(svc), "HeaderFn"@, "_headers"@) + js_fields_tail(debug)
}

/// The client's constructor.
#[verifier::opaque]
pub open spec fn js_part_ctor(svc: Service, c: JsCalls, debug: bool) -> Seq<Seq<char>> {
    ctor_lines(c, customs_of(svc.handlers@), js_headers(svc), debug) + js_init(
        c.ws,
        c.uni_ws,
        c.wxws,
        c.wxrequest,
        c.fetch,
        c.uni_req,
        c.nodetcp,
        c.buntcp,
        js_has_ordinary(svc),
    )
}

/// The client's message dispatcher and its HTTP methods.
#[verifier::opaque]
pub open spec fn js_runtime_http(c: JsCalls, ord: bool) -> Seq<Seq<char>> {
    js_handle_message(has_sock(c)) + js_request_fetch(c.fetch, ord) + js_request_uni(c.uni_req, ord)
        + js_request_wx(c.wxrequest, ord) + js_call_fetch(c.fetch) + js_call_uni_req(c.uni_req) + js_call_wx_req(
        c.wxrequest,
    )
}

/// The client's socket methods.
#[verifier::opaque]
pub open spec fn js_runtime_sock(c: JsCalls) -> Seq<Seq<char>> {
    js_call_ws(c.ws) + js_call_uni_ws(c.uni_ws) + js_call_wx_ws(c.wxws) + send_raw_block(c) + js_heartbeat(
        has_sock(c),
        c.ws,
        has_tcp(c),
        c.uni_ws,
        c.wxws,
    )
}

/// The client's TCP methods and its binary reader and writer.
#[verifier::opaque]
pub open spec fn js_runtime_tcp(c: JsCalls) -> Seq<Seq<char>> {
    js_init_node_tcp(c.nodetcp) + js_init_bun_tcp(c.buntcp) + js_handle_tcp_data(has_tcp(c))
        + js_call_node_tcp(c.nodetcp) + js_call_bun_tcp(c.buntcp) + js_writer() + js_reader()
}

/// The client's transport methods and its binary reader and writer.
#[verifier::opaque]
pub open spec fn js_part_runtime(c: JsCalls, ord: bool) -> Seq<Seq<char>> {
    js_runtime_http(c, ord) + js_runtime_sock(c) + js_runtime_tcp(c)
}

/// The `apis` getter with the object of handler methods, and the end of
/// the class.
#[verifier::opaque]
pub open spec fn js_part_apis(svc: Service, debug: bool) -> Seq<Seq<char>> {
    js_apis_open() + seq![
        build_lines(
            object_lines(
                svc.handlers@,
                svc.handlers@,
                Seq::empty(),
                "        "@,
                js_headers(svc).len(),
                debug,
                pascal(svc.name@),
            ),
        ),
    ] + js_apis_tail(svc)
}

/// The route methods that end the `apis` object, and the end of the class.
#[verifier::opaque]
pub open spec fn js_apis_tail(svc: Service) -> Seq<Seq<char>> {
    js_streams(svc.ws_routes@, false) + js_streams(svc.sse_routes@, true) + js_close()
}

fn push_js_apis_tail(cb: &mut CodeBuf, svc: &Service)
    ensures
        final(cb)@ == old(cb)@ + js_apis_tail(*svc),
{
    let ghost start = cb@;
    push_js_streams(cb, &svc.ws_routes, false);
    push_js_streams(cb, &svc.sse_routes, true);
    push_js_close(cb);
    proof {
        reveal(js_apis_tail);
    }
    assert(cb@ =~= start + js_apis_tail(*svc));
}

/// The lines of a service's JavaScript client module.
pub open spec fn service_js_lines(svc: Service, calls: Seq<JsTsCallType>, debug: bool) -> Seq<Seq<char>> {
    let c = js_calls(calls);
    js_part_head(svc, c) + js_part_class(svc, c, debug) + js_part_ctor(svc, c, debug) + js_part_runtime(
        c,
        js_has_ordinary(svc),
    ) + js_part_apis(svc, debug)
}

/// A service's handlers can all be turned into JavaScript typedefs and
/// methods.
pub open spec fn service_js_ok(svc: Service) -> bool {
    exports_ok(svc.handlers@, Seq::empty()) && js_object_ok(svc.handlers@, Seq::empty())
}

fn has_js_call(calls: &Vec<JsTsCallType>, c: JsTsCallType) -> (r: bool)
    ensures
        r == calls@.contains(c),
{
    let mut i: usize = 0;
    while i < calls.len()
        invariant
            i <= calls@.len(),
            forall|j: int| 0 <= j < i ==> calls@[j] != c,
        decreases calls@.len() - i,
    {
        if calls[i] == c {
            assert(calls@[i as int] == c);
            return true;
        }
        i = i + 1;
    }
    false
}

fn js_calls_of(calls: &Vec<JsTsCallType>) -> (r: JsCalls)
    ensures
        r == js_calls(calls@),
{
    JsCalls {
        fetch: has_js_call(calls, JsTsCallType::Fetch),
        ws: has_js_call(calls, JsTsCallType::Ws),
        nodetcp: has_js_call(calls, JsTsCallType::NodeTcp),
        buntcp: has_js_call(calls, JsTsCallType::BunTcp),
        uni_req: has_js_call(calls, JsTsCallType::UniRequest),
        uni_ws: has_js_call(calls, JsTsCallType::UniWs),
        wxrequest: has_js_call(calls, JsTsCallType::WxRequest),
        wxws: has_js_call(calls, JsTsCallType::WxWs),
    }
}

/// Some field does not name a standard header.
pub open spec fn has_nonstandard(fs: Seq<FieldMeta>) -> bool {
    exists|j: int| 0 <= j < fs.len() && !standard_header(replace_char_seq(#[trigger] fs[j].name@, '_', "-"@))
}

fn has_nonstandard_exec(fs: &Vec<FieldMeta>) -> (r: bool)
    ensures
        r == has_nonstandard(fs@),
{
    let mut j: usize = 0;
    while j < fs.len()
        invariant
            j <= fs@.len(),
            forall|k: int| 0 <= k < j ==> standard_header(replace_char_seq(#[trigger] fs@[k].name@, '_', "-"@)),
        decreases fs@.len() - j,
    {
        let n = replace_char(fs[j].name.as_str(), '_', "-");
        if !is_standard_header(n.as_str()) {
            assert(!standard_header(replace_char_seq(fs@[j as int].name@, '_', "-"@)));
            return true;
        }
        j = j + 1;
    }
    false
}

fn header_shown_exec(p: &ParamMeta) -> (r: bool)
    ensures
        r == header_shown(*p),
{
    match &p.structure {
        Some(s) => match &s.kind {
            TagKind::Struct(fs) => has_nonstandard_exec(fs),
            TagKind::Enum(_) => true,
        },
        None => true,
    }
}

fn add_headers_exec(acc: &mut Vec<String>, ps: &Vec<ParamMeta>, filter: bool)
    ensures
        views(final(acc)@) == add_headers(views(old(acc)@), ps@, filter),
{
    let mut i: usize = 0;
    while i < ps.len()
        invariant
            i <= ps@.len(),
            views(acc@) == add_headers(views(old(acc)@), ps@.subrange(0, i as int), filter),
        decreases ps@.len() - i,
    {
        let p = &ps[i];
        proof {
            assert(ps@.subrange(0, i + 1).drop_last() =~= ps@.subrange(0, i as int));
            assert(ps@.subrange(0, i + 1).last() == *p);
        }
        if str_eq(p.extractor.as_str(), "Header") && !contains_str(acc, p.ty.as_str()) && (!filter
            || header_shown_exec(p)) {
            let ghost before = views(acc@);
            acc.push(owned(p.ty.as_str()));
            assert(views(acc@) =~= before.push(p.ty@));
        }
        i = i + 1;
    }
    assert(ps@.subrange(0, ps@.len() as int) =~= ps@);
}

fn tree_headers_exec(handlers: &Vec<Handler>, acc: &mut Vec<String>)
    ensures
        views(final(acc)@) == tree_headers(handlers@, views(old(acc)@)),
    decreases handlers,
{
    let mut i: usize = 0;
    while i < handlers.len()
        invariant
            i <= handlers@.len(),
            views(acc@) == tree_headers(handlers@.subrange(0, i as int), views(old(acc)@)),
        decreases handlers@.len() - i,
    {
        let h = &handlers[i];
        proof {
            assert(handlers@.subrange(0, i + 1).drop_last() =~= handlers@.subrange(0, i as int));
            assert(handlers@.subrange(0, i + 1).last() == *h);
        }
        add_headers_exec(acc, &h.meta.params, true);
        assert(decreases_to!(handlers => h.children));
        tree_headers_exec(&h.children, acc);
        i = i + 1;
    }
    assert(handlers@.subrange(0, handlers@.len() as int) =~= handlers@);
}

/// Collects the distinct Header extractor types of a handler tree, depth
/// first, leaving out those whose fields are all standard HTTP headers.
pub fn collect_headers(handlers: &Vec<Handler>) -> (r: Vec<String>)
    ensures
        views(r@) == tree_headers(handlers@, Seq::empty()),
{
    let mut acc: Vec<String> = Vec::new();
    assert(views(acc@) =~= Seq::<Seq<char>>::empty());
    tree_headers_exec(handlers, &mut acc);
    acc
}

fn js_headers_exec(svc: &Service) -> (r: Vec<String>)
    ensures
        views(r@) == js_headers(*svc),
{
    let mut acc = collect_headers(&svc.handlers);
    let ghost base = views(acc@);
    let rs = &svc.ordinary_routes;
    let mut i: usize = 0;
    while i < rs.len()
        invariant
            i <= rs@.len(),
            rs == &svc.ordinary_routes,
            views(acc@) == route_headers(rs@.subrange(0, i as int), base),
        decreases rs@.len() - i,
    {
        proof {
            assert(rs@.subrange(0, i + 1).drop_last() =~= rs@.subrange(0, i as int));
        }
        add_headers_exec(&mut acc, &rs[i].meta.params, false);
        i = i + 1;
    }
    assert(rs@.subrange(0, rs@.len() as int) =~= rs@);
    acc
}

fn push_opt_item(v: &mut Vec<String>, cond: bool, item: &str)
    ensures
        views(final(v)@) == views(old(v)@) + opt_item(cond, item@),
{
    let ghost before = views(v@);
    if cond {
        v.push(owned(item));
        assert(views(v@) =~= before + seq![item@]);
    } else {
        assert(views(v@) =~= before + Seq::<Seq<char>>::empty());
    }
}

fn transport_union_text(c: &JsCalls) -> (r: String)
    ensures
        r@ == transport_union(*c),
{
    let mut v: Vec<String> = Vec::new();
    assert(views(v@) =~= Seq::<Seq<char>>::empty());
    push_opt_item(&mut v, c.fetch, "'fetch'");
    push_opt_item(&mut v, c.ws, "'ws'");
    push_opt_item(&mut v, c.nodetcp, "'nodetcp'");
    push_opt_item(&mut v, c.buntcp, "'buntcp'");
    push_opt_item(&mut v, c.uni_req, "'unirequest'");
    push_opt_item(&mut v, c.uni_ws, "'uniws'");
    push_opt_item(&mut v, c.wxrequest, "'wxrequest'");
    push_opt_item(&mut v, c.wxws, "'wxws'");
    assert(views(v@) =~= union_items(*c));
    if v.len() == 0 {
        v.push(owned("'fetch'"));
        assert(views(v@) =~= seq!["'fetch'"@]);
    }
    proof {
        reveal(transport_union);
    }
    join(&v, "|")
}

fn default_transport_text(c: &JsCalls) -> (r: &'static str)
    ensures
        r@ == default_transport(*c),
{
    if c.fetch {
        "fetch"
    } else if c.ws {
        "ws"
    } else if c.uni_req {
        "unirequest"
    } else if c.uni_ws {
        "uniws"
    } else if c.wxrequest {
        "wxrequest"
    } else if c.wxws {
        "wxws"
    } else if c.nodetcp {
        "nodetcp"
    } else {
        "buntcp"
    }
}

fn http_check_text(c: &JsCalls) -> (r: String)
    ensures
        r@ == http_check(*c),
{
    let mut v: Vec<String> = Vec::new();
    let ghost e = Seq::<Seq<char>>::empty();
    if c.fetch {
        v.push(owned("this._transport === 'fetch'"));
    }
    if c.uni_req {
        v.push(owned("this._transport === 'unirequest'"));
    }
    if c.wxrequest {
        v.push(owned("this._transport === 'wxrequest'"));
    }
    assert(views(v@) =~= (if c.fetch { seq!["this._transport === 'fetch'"@] } else { e }) + (if c.uni_req {
        seq!["this._transport === 'unirequest'"@]
    } else {
        e
    }) + (if c.wxrequest { seq!["this._transport === 'wxrequest'"@] } else { e }));
    proof {
        reveal(http_check);
    }
    if v.len() == 0 {
        owned("false")
    } else {
        join(&v, " || ")
    }
}

fn push_fn_typedefs(cb: &mut CodeBuf, ts: &Vec<String>, kind: &str)
    ensures
        final(cb)@ == old(cb)@ + fn_typedefs(views(ts@), kind@),
{
    let mut i: usize = 0;
    while i < ts.len()
        invariant
            i <= ts@.len(),
            cb@ == old(cb)@ + fn_typedefs(views(ts@.subrange(0, i as int)), kind@),
        decreases ts@.len() - i,
    {
        let t = ts[i].as_str();
        let ghost before = cb@;
        cb.l("/**");
        cb.push(cat4(" * @typedef {Function} ", kind, "_", t));
        cb.push(cat3(" * @returns {Promise<", t, ">}"));
        cb.l(" */");
        proof {
            assert(views(ts@.subrange(0, i + 1)).drop_last() =~= views(ts@.subrange(0, i as int)));
            assert(views(ts@.subrange(0, i + 1)).last() == t@);
        }
        i = i + 1;
    }
    assert(ts@.subrange(0, ts@.len() as int) =~= ts@);
}

fn prefixed_all_exec(ts: &Vec<String>, pre: &str) -> (r: Vec<String>)
    ensures
        views(r@) == prefixed_all(views(ts@), pre@),
{
    let mut r: Vec<String> = Vec::new();
    let mut i: usize = 0;
    while i < ts.len()
        invariant
            i <= ts@.len(),
            views(r@) == prefixed_all(views(ts@.subrange(0, i as int)), pre@),
        decreases ts@.len() - i,
    {
        let ghost before = views(r@);
        r.push(cat2(pre, ts[i].as_str()));
        proof {
            assert(views(ts@.subrange(0, i + 1)) =~= views(ts@.subrange(0, i as int)).push(ts@[i as int]@));
            assert(views(r@) =~= before.push(pre@ + ts@[i as int]@));
        }
        i = i + 1;
    }
    assert(ts@.subrange(0, ts@.len() as int) =~= ts@);
    r
}

fn push_supplier_field(cb: &mut CodeBuf, ts: &Vec<String>, kind: &str, field: &str)
    ensures
        final(cb)@ == old(cb)@ + supplier_field(views(ts@), kind@, field@),
{
    let ghost start = cb@;
    if ts.len() == 0 {
        cb.l("    /** @type {[]} */");
    } else {
        let pre = cat2(kind, "_");
        let all = prefixed_all_exec(ts, pre.as_str());
        let j = join(&all, ", ");
        cb.push(cat3("    /** @type {[", j.as_str(), "]} */"));
    }
    cb.push(cat3("    ", field, ";"));
    assert(cb@ =~= start + supplier_field(views(ts@), kind@, field@));
}

fn push_supplier_docs(cb: &mut CodeBuf, ts: &Vec<String>, kind: &str, option: &str)
    ensures
        final(cb)@ == old(cb)@ + supplier_docs(views(ts@), kind@, option@),
{
    if ts.len() > 0 {
        let ghost start = cb@;
        cb.push(cat3("     * @param {Object} [options.", option, "]"));
        let ghost head = cb@;
        let mut i: usize = 0;
        while i < ts.len()
            invariant
                i <= ts@.len(),
                cb@ == head + views(ts@.subrange(0, i as int)).map_values(
                    |t: Seq<char>| "     * @param {"@ + kind@ + "_"@ + t + "} [options."@ + option@ + "."@ + t + "]"@,
                ),
            decreases ts@.len() - i,
        {
            let t = ts[i].as_str();
            let a = cat6("     * @param {", kind, "_", t, "} [options.", option);
            let line = cat4(a.as_str(), ".", t, "]");
            proof {
                assert(views(ts@.subrange(0, i + 1)) =~= views(ts@.subrange(0, i as int)).push(t@));
            }
            cb.push(line);
            i = i + 1;
        }
        assert(ts@.subrange(0, ts@.len() as int) =~= ts@);
        assert(cb@ =~= start + supplier_docs(views(ts@), kind@, option@));
    } else {
        assert(cb@ =~= old(cb)@ + supplier_docs(views(ts@), kind@, option@));
    }
}

fn supplier_assign_text(ts: &Vec<String>, option: &str) -> (r: String)
    ensures
        r@ == supplier_assign(views(ts@), option@),
{
    if ts.len() == 0 {
        cat3("        this._", option, " = [];")
    } else {
        let pre = cat3("options.", option, ".");
        let all = prefixed_all_exec(ts, pre.as_str());
        let j = join(&all, ", ");
        cat5("        this._", option, " = [", j.as_str(), "];")
    }
}

fn push_ctor_docs(cb: &mut CodeBuf, c: &JsCalls, customs: &Vec<String>, headers: &Vec<String>, debug: bool)
    ensures
        final(cb)@ == old(cb)@ + ctor_docs(*c, views(customs@), views(headers@), debug),
{
    let ghost start = cb@;
    let union = transport_union_text(c);
    let dt = default_transport_text(c);
    cb.l("     * @param {Object} options");
    cb.l("     * @param {string} options.host");
    cb.l("     * @param {number} options.port");
    cb.l("     * @param {boolean} options.tls");
    let ghost s1 = cb@;
    push_supplier_docs(cb, customs, "CustomFn", "customs");
    push_supplier_docs(cb, headers, "HeaderFn", "headers");
    let ghost s2 = cb@;
    cb.push(cat5("     * @param {", union.as_str(), "} [options.transport='", dt, "']"));
    cb.l("     * @param {Function} [options.onError] - Called with (code, message) on error");
    if debug {
        cb.l("     * @param {boolean} [options.debug=true]");
    }
    assert(cb@ =~= start + ctor_docs(*c, views(customs@), views(headers@), debug));
}

fn push_ctor_body(cb: &mut CodeBuf, c: &JsCalls, customs: &Vec<String>, headers: &Vec<String>, debug: bool)
    ensures
        final(cb)@ == old(cb)@ + ctor_body(*c, views(customs@), views(headers@), debug),
{
    let ghost start = cb@;
    let dt = default_transport_text(c);
    let hc = http_check_text(c);
    cb.l("        this._host = options.host;");
    cb.l("        this._port = options.port;");
    cb.l("        this._tls = options.tls;");
    cb.push(supplier_assign_text(customs, "customs"));
    cb.push(supplier_assign_text(headers, "headers"));
    cb.push(cat3("        this._transport = options.transport || '", dt, "';"));
    let a = cat5("        const scheme = options.tls ? (", hc.as_str(), " ? 'https' : 'wss') : (", hc.as_str(), " ? 'http' : 'ws');");
    cb.push(a);
    cb.l("        this._url = scheme + '://' + options.host + ':' + options.port;");
    cb.l("        this._onError = options.onError;");
    if debug {
        cb.l("        this._debug = options.debug !== undefined ? options.debug : true;");
    }
    assert(cb@ =~= start + ctor_body(*c, views(customs@), views(headers@), debug));
}

fn push_ctor(cb: &mut CodeBuf, c: &JsCalls, customs: &Vec<String>, headers: &Vec<String>, debug: bool)
    ensures
        final(cb)@ == old(cb)@ + ctor_lines(*c, views(customs@), views(headers@), debug),
{
    let ghost start = cb@;
    cb.l("");
    cb.l("    /**");
    push_ctor_docs(cb, c, customs, headers, debug);
    cb.l("     */");
    cb.l("    constructor(options) {");
    push_ctor_body(cb, c, customs, headers, debug);
    proof {
        reveal(ctor_lines);
    }
    assert(cb@ =~= start + ctor_lines(*c, views(customs@), views(headers@), debug));
}

fn route_cache_js(svc: &Service) -> (r: bool)
    ensures
        r == exists|i: int|
            0 <= i < svc.ordinary_routes@.len() && (#[trigger] svc.ordinary_routes@[i]).meta.cache_seconds > 0,
{
    let rs = &svc.ordinary_routes;
    let mut i: usize = 0;
    while i < rs.len()
        invariant
            i <= rs@.len(),
            rs == &svc.ordinary_routes,
            forall|j: int| 0 <= j < i ==> !((#[trigger] rs@[j]).meta.cache_seconds > 0),
        decreases rs@.len() - i,
    {
        if rs[i].meta.cache_seconds > 0 {
            assert(rs@[i as int].meta.cache_seconds > 0);
            return true;
        }
        i = i + 1;
    }
    false
}

fn push_part_head(cb: &mut CodeBuf, svc: &Service, c: &JsCalls, customs: &Vec<String>, headers: &Vec<String>)
    requires
        exports_ok(svc.handlers@, Seq::empty()),
        views(customs@) == customs_of(svc.handlers@),
        views(headers@) == js_headers(*svc),
    ensures
        final(cb)@ == old(cb)@ + js_part_head(*svc, *c),
{
    let ghost start = cb@;
    let sock = c.ws || c.uni_ws || c.wxws || c.nodetcp || c.buntcp;
    push_js_head(cb, c.nodetcp);
    push_js_socket(cb, sock);
    let mut exports = CodeBuf::new();
    let mut emitted: Vec<String> = Vec::new();
    let empty_path: Vec<String> = Vec::new();
    assert(views(empty_path@) =~= Seq::<Seq<char>>::empty());
    assert(views(emitted@) =~= Seq::<Seq<char>>::empty());
    collect_type_exports_js(&svc.handlers, &empty_path, &mut emitted, &mut exports);
    cb.extend(exports);
    let ghost s1 = cb@;
    if customs.len() > 0 {
        cb.b();
        push_fn_typedefs(cb, customs, "CustomFn");
    }
    if headers.len() > 0 {
        cb.b();
        push_fn_typedefs(cb, headers, "HeaderFn");
    }
    assert(cb@ =~= s1 + supplier_typedefs(views(customs@), views(headers@)));
    push_js_error(cb);
    proof {
        reveal(js_part_head);
    }
    assert(cb@ =~= start + js_part_head(*svc, *c));
}

#[verifier::rlimit(80)]
fn push_part_class(cb: &mut CodeBuf, svc: &Service, c: &JsCalls, customs: &Vec<String>, headers: &Vec<String>, debug: bool, ord: bool)
    requires
        views(customs@) == customs_of(svc.handlers@),
        views(headers@) == js_headers(*svc),
        ord == js_has_ordinary(*svc),
    ensures
        final(cb)@ == old(cb)@ + js_part_class(*svc, *c, debug),
{
    let ghost start = cb@;
    let cn = to_pascal_case(svc.name.as_str());
    cb.push(cat3("export class ", cn.as_str(), "Client {"));
    let has_cache = has_cache_handlers(&svc.handlers) || route_cache_js(svc);
    assert(has_cache == js_has_cache(*svc));
    push_js_cache_field(cb, has_cache);
    let union = transport_union_text(c);
    cb.push(cat3("    /** @type {", union.as_str(), "} */"));
    let ghost s1 = cb@;
    let tcp = c.nodetcp || c.buntcp;
    let sock = c.ws || c.uni_ws || c.wxws || tcp;
    let has_req = ord && (c.fetch || c.uni_req || c.wxrequest);
    push_js_fields(cb, tcp, c.ws, c.uni_ws, c.wxws, sock, has_req);
    push_supplier_field(cb, customs, "CustomFn", "_customs");
    push_supplier_field(cb, headers, "HeaderFn", "_headers");
    push_js_fields_tail(cb, debug);
    proof {
        reveal(js_part_class);
        assert(s1 =~= start + seq!["export class "@ + pascal(svc.name@) + "Client {"@] + js_cache_field(js_has_cache(*svc)) + seq![
            "    /** @type {"@ + transport_union(*c) + "} */"@,
        ]);
    }
    assert(cb@ =~= start + js_part_class(*svc, *c, debug));
}

fn push_runtime_http(cb: &mut CodeBuf, c: &JsCalls, ord: bool)
    ensures
        final(cb)@ == old(cb)@ + js_runtime_http(*c, ord),
{
    let ghost start = cb@;
    let sock = c.ws || c.uni_ws || c.wxws || c.nodetcp || c.buntcp;
    push_js_handle_message(cb, sock);
    push_js_request_fetch(cb, c.fetch, ord);
    push_js_request_uni(cb, c.uni_req, ord);
    push_js_request_wx(cb, c.wxrequest, ord);
    push_js_call_fetch(cb, c.fetch);
    push_js_call_uni_req(cb, c.uni_req);
    push_js_call_wx_req(cb, c.wxrequest);
    proof {
        reveal(js_runtime_http);
    }
    assert(cb@ =~= start + js_runtime_http(*c, ord));
}

fn push_send_raw_block(cb: &mut CodeBuf, c: &JsCalls)
    ensures
        final(cb)@ == old(cb)@ + send_raw_block(*c),
{
    let ghost start = cb@;
    let tcp = c.nodetcp || c.buntcp;
    let sock = c.ws || c.uni_ws || c.wxws || tcp;
    if sock {
        cb.l("");
        cb.l("    /** @param {Uint8Array} data */");
        let n: u8 = (if c.ws { 1u8 } else { 0u8 }) + (if c.uni_ws { 1u8 } else { 0u8 }) + (if c.wxws { 1u8 } else { 0u8 })
            + (if tcp { 1u8 } else { 0u8 });
        if n > 1 {
            push_js_send_raw_multi(cb, c.ws, c.uni_ws, c.wxws, tcp);
        } else {
            push_js_send_raw_single(cb, c.ws, c.uni_ws, c.wxws);
        }
    }
    proof {
        reveal(send_raw_block);
    }
    assert(cb@ =~= start + send_raw_block(*c));
}

fn push_runtime_sock(cb: &mut CodeBuf, c: &JsCalls)
    ensures
        final(cb)@ == old(cb)@ + js_runtime_sock(*c),
{
    let ghost start = cb@;
    let tcp = c.nodetcp || c.buntcp;
    let sock = c.ws || c.uni_ws || c.wxws || tcp;
    push_js_call_ws(cb, c.ws);
    push_js_call_uni_ws(cb, c.uni_ws);
    push_js_call_wx_ws(cb, c.wxws);
    push_send_raw_block(cb, c);
    push_js_heartbeat(cb, sock, c.ws, tcp, c.uni_ws, c.wxws);
    proof {
        reveal(js_runtime_sock);
    }
    assert(cb@ =~= start + js_runtime_sock(*c));
}

fn push_runtime_tcp(cb: &mut CodeBuf, c: &JsCalls)
    ensures
        final(cb)@ == old(cb)@ + js_runtime_tcp(*c),
{
    let ghost start = cb@;
    let tcp = c.nodetcp || c.buntcp;
    push_js_init_node_tcp(cb, c.nodetcp);
    push_js_init_bun_tcp(cb, c.buntcp);
    push_js_handle_tcp_data(cb, tcp);
    push_js_call_node_tcp(cb, c.nodetcp);
    push_js_call_bun_tcp(cb, c.buntcp);
    push_js_writer(cb);
    push_js_reader(cb);
    proof {
        reveal(js_runtime_tcp);
    }
    assert(cb@ =~= start + js_runtime_tcp(*c));
}

fn push_part_runtime(cb: &mut CodeBuf, c: &JsCalls, ord: bool)
    ensures
        final(cb)@ == old(cb)@ + js_part_runtime(*c, ord),
{
    let ghost start = cb@;
    push_runtime_http(cb, c, ord);
    push_runtime_sock(cb, c);
    push_runtime_tcp(cb, c);
    proof {
        reveal(js_part_runtime);
    }
    assert(cb@ =~= start + js_part_runtime(*c, ord));
}

/// Generates the JavaScript client module of a service: the socket class
/// for long connections, JSDoc typedefs of its types, and a client class
/// with the requested transports and an `apis` object with one method per
/// handler, followed by a method per WebSocket and server-sent-events
/// route. The client's default transport is the first requested one in
/// the order fetch, ws, unirequest, uniws, wxrequest, wxws, nodetcp, and
/// `buntcp` otherwise; with no transport requested the default is thus
/// `buntcp`, while the transport type names only `'fetch'`.
#[verifier::rlimit(40)]
pub fn generate_service_js(svc: &Service, calls: &Vec<JsTsCallType>, debug: bool) -> (r: String)
    requires
        service_js_ok(*svc),
    ensures
        r@ == build_lines(service_js_lines(*svc, calls@, debug)),
{
    let c = js_calls_of(calls);
    let customs = collect_customs(&svc.handlers);
    let headers = js_headers_exec(svc);
    let ord = has_ordinary_handlers(&svc.handlers) || svc.ordinary_routes.len() > 0;
    let mut cb = CodeBuf::new();
    push_part_head(&mut cb, svc, &c, &customs, &headers);
    push_part_class(&mut cb, svc, &c, &customs, &headers, debug, ord);
    let ghost s2 = cb@;
    push_ctor(&mut cb, &c, &customs, &headers, debug);
    let tcp = c.nodetcp || c.buntcp;
    push_js_init(&mut cb, c.ws, c.uni_ws, c.wxws, c.wxrequest, c.fetch, c.uni_req, c.nodetcp, c.buntcp, ord);
    proof {
        reveal(js_part_ctor);
    }
    assert(cb@ =~= s2 + js_part_ctor(*svc, c, debug));
    push_part_runtime(&mut cb, &c, ord);
    let ghost s4 = cb@;
    push_js_apis_open(&mut cb);
    let cn = to_pascal_case(svc.name.as_str());
    let mut emitted: Vec<String> = Vec::new();
    let empty_path: Vec<String> = Vec::new();
    assert(views(empty_path@) =~= Seq::<Seq<char>>::empty());
    let obj = generate_handler_object_js(
        &svc.handlers,
        &svc.handlers,
        &empty_path,
        "        ",
        &mut emitted,
        false,
        headers.len(),
        debug,
        cn.as_str(),
    );
    cb.push(obj);
    push_js_apis_tail(&mut cb, svc);
    proof {
        reveal(js_part_apis);
    }
    assert(cb@ =~= s4 + js_part_apis(*svc, debug));
    assert(cb@ =~= service_js_lines(*svc, calls@, debug));
    cb.build()
}

/// The client modules of the named services, for `fetch` and WebSocket and
/// without debug output.
pub open spec fn named_js_texts(svcs: Seq<Service>) -> Seq<Seq<char>>
    decreases svcs.len(),
{
    if svcs.len() == 0 {
        Seq::empty()
    } else {
        let rest = named_js_texts(svcs.drop_last());
        let s = svcs.last();
        if s.name@.len() > 0 {
            rest.push(build_lines(service_js_lines(s, seq![JsTsCallType::Fetch, JsTsCallType::Ws], false)))
        } else {
            rest
        }
    }
}

/// Every named service's handlers can be turned into JavaScript code.
pub open spec fn named_services_js_ok(svcs: Seq<Service>) -> bool {
    forall|i: int| 0 <= i < svcs.len() && #[trigger] svcs[i].name@.len() > 0 ==> service_js_ok(svcs[i])
}

/// The whole JavaScript output: each named service's module, separated by
/// blank lines.
pub open spec fn js_code(svcs: Seq<Service>) -> Seq<char> {
    join_seq(named_js_texts(svcs), "\n\n"@)
}

impl AFast {
    /// Returns the generated JavaScript client code of all named services,
    /// for `fetch` and WebSocket, separated by blank lines.
    pub fn get_js_code(&self) -> (r: String)
        requires
            named_services_js_ok(self.services@),
        ensures
            r@ == js_code(self.services@),
    {
        let mut parts: Vec<String> = Vec::new();
        let mut calls: Vec<JsTsCallType> = Vec::new();
        calls.push(JsTsCallType::Fetch);
        calls.push(JsTsCallType::Ws);
        assert(calls@ =~= seq![JsTsCallType::Fetch, JsTsCallType::Ws]);
        let mut i: usize = 0;
        assert(views(parts@) =~= Seq::<Seq<char>>::empty());
        while i < self.services.len()
            invariant
                i <= self.services@.len(),
                named_services_js_ok(self.services@),
                calls@ == seq![JsTsCallType::Fetch, JsTsCallType::Ws],
                views(parts@) == named_js_texts(self.services@.subrange(0, i as int)),
            decreases self.services@.len() - i,
        {
            let svc = &self.services[i];
            proof {
                assert(self.services@.subrange(0, i + 1).drop_last() =~= self.services@.subrange(0, i as int));
            }
            if svc.name.unicode_len() > 0 {
                assert(service_js_ok(self.services@[i as int]));
                let text = generate_service_js(svc, &calls, false);
                let ghost p0 = views(parts@);
                parts.push(text);
                assert(views(parts@) =~= p0.push(text@));
            }
            i = i + 1;
        }
        assert(self.services@.subrange(0, self.services@.len() as int) =~= self.services@);
        join(&parts, "\n\n")
    }
}

} // verus!
