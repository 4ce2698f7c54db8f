//! The handler and type metadata that client generators read.
//!
//! These are the values the handler and tag derive macros record for every
//! registered service: the handler tree, each handler's parameters and
//! return type, and the shape of every transported struct or enum.

use vstd::prelude::*;

verus! {

/// A validation rule declared in a field's `#[afast(..)]` attribute.
///
/// Numeric bounds are kept as the decimal text the generators print for them.
pub enum ValidateRule {
    /// The value must be greater than `value`.
    Gt { value: String, code: i64, message: String },
    /// The value must be at least `value`.
    Gte { value: String, code: i64, message: String },
    /// The value must be less than `value`.
    Lt { value: String, code: i64, message: String },
    /// The value must be at most `value`.
    Lte { value: String, code: i64, message: String },
    /// The length must lie within `min..=max`; a negative bound is absent.
    Len { min: i64, max: i64, code: i64, message: String },
    /// The value must be one of `values`.
    Of { values: Vec<String>, code: i64, message: String },
}

/// One field of a struct or of an enum variant.
pub struct FieldMeta {
    /// The field's name as written in Rust.
    pub name: String,
    /// The field's Rust type, as the compiler prints it.
    pub ty: String,
    /// The field's documentation.
    pub desc: String,
    /// The layout of the field's type when it is itself a tagged struct or enum.
    pub structure: Option<Box<TagMeta>>,
    /// The field's validation rules.
    pub validations: Vec<ValidateRule>,
    /// Whether the field is left out of generated code (`skip`, or a
    /// `skip_with` marker that is active).
    pub skip: bool,
}

/// One variant of an enum.
pub struct EnumVariantMeta {
    /// The variant's name.
    pub name: String,
    /// The variant's fields; a single field named `__0` is a tuple payload.
    pub fields: Vec<FieldMeta>,
}

/// The shape of a tagged type.
pub enum TagKind {
    /// A struct with named fields.
    Struct(Vec<FieldMeta>),
    /// An enum with its variants in declaration order.
    Enum(Vec<EnumVariantMeta>),
}

/// The layout of a tagged struct or enum.
pub struct TagMeta {
    /// The type's name.
    pub name: String,
    /// The type's documentation.
    pub desc: String,
    /// Its fields or variants.
    pub kind: TagKind,
}

/// One parameter of a handler.
pub struct ParamMeta {
    /// The parameter's name.
    pub name: String,
    /// The extractor that supplies it (`Data`, `Custom`, `Query`, ...).
    pub extractor: String,
    /// The Rust type inside the extractor.
    pub ty: String,
    /// The layout of that type when it is tagged.
    pub structure: Option<Box<TagMeta>>,
}

/// What the handler macro records for one handler function.
pub struct HandlerMeta {
    /// The Rust function name; empty for a group node.
    pub name: String,
    /// The public API name, when it differs from `name`.
    pub api_name: String,
    /// The handler's documentation.
    pub desc: String,
    /// The handler's parameters in declaration order.
    pub params: Vec<ParamMeta>,
    /// The returned Rust type; `()` for none.
    pub return_type: String,
    /// The layout of the returned type when it is tagged.
    pub return_structure: Option<Box<TagMeta>>,
    /// Whether this is an ordinary JSON-over-HTTP handler.
    pub is_ordinary: bool,
    /// Whether the handler opens a long connection.
    pub long_connection: bool,
    /// Client-side cache lifetime in seconds; 0 for none.
    pub cache_seconds: u64,
    /// The HTTP method of an ordinary handler; empty means `GET`.
    pub method: String,
}

/// A node of a service's handler tree: a handler or a group of handlers.
pub struct Handler {
    /// The node's path segment.
    pub name: String,
    /// The HTTP path of an ordinary handler.
    pub path: String,
    /// The handler's metadata.
    pub meta: HandlerMeta,
    /// The nodes below this one.
    pub children: Vec<Handler>,
    /// The stable handler id used on the wire.
    pub stable_id: u32,
    /// The handler's position in the dispatch table.
    pub offset: usize,
}

/// A top-level ordinary HTTP route.
pub struct OrdinaryRoute {
    /// The route's handler metadata.
    pub meta: HandlerMeta,
}

/// A WebSocket or server-sent-events route.
pub struct StreamRoute {
    /// The route path, with `:name` segments for parameters.
    pub path: String,
    /// The handler function's name.
    pub handler_name: String,
}

/// A registered service.
pub struct Service {
    /// The service's name; services with an empty name get no client.
    pub name: String,
    /// The service's documentation.
    pub desc: String,
    /// The service's handler tree.
    pub handlers: Vec<Handler>,
    /// Its top-level ordinary HTTP routes.
    pub ordinary_routes: Vec<OrdinaryRoute>,
    /// Its WebSocket routes.
    pub ws_routes: Vec<StreamRoute>,
    /// Its server-sent-events routes.
    pub sse_routes: Vec<StreamRoute>,
}

/// A transport of the binary protocol.
#[derive(PartialEq, Eq, Structural, Clone, Copy)]
pub enum NetCallType {
    /// HTTP POST.
    Http,
    /// WebSocket.
    Ws,
    /// Plain TCP.
    Tcp,
}

/// A transport of a JavaScript or TypeScript client.
#[derive(PartialEq, Eq, Structural, Clone, Copy)]
pub enum JsTsCallType {
    /// HTTP POST with `fetch`.
    Fetch,
    /// Browser WebSocket.
    Ws,
    /// Node.js TCP socket.
    NodeTcp,
    /// Bun TCP socket.
    BunTcp,
    /// UniApp `uni.request`.
    UniRequest,
    /// UniApp socket.
    UniWs,
    /// WeChat `wx.request`.
    WxRequest,
    /// WeChat socket.
    WxWs,
}

/// A transport of a Rust client.
#[derive(PartialEq, Eq, Structural, Clone, Copy)]
pub enum RsCallType {
    /// Blocking TCP with `std::net`.
    Tcp,
    /// Asynchronous TCP with tokio.
    TcpAsync,
}

/// A client language, with the transports its client should support.
pub enum Lang {
    /// TypeScript.
    TS(Vec<JsTsCallType>),
    /// JavaScript.
    JS(Vec<JsTsCallType>),
    /// Kotlin.
    KT(Vec<NetCallType>),
    /// Rust.
    RS(Vec<RsCallType>),
    /// C#.
    CS(Vec<NetCallType>),
}

/// The application: every registered service.
pub struct AFast {
    /// The registered services in registration order.
    pub services: Vec<Service>,
}

} // verus!
