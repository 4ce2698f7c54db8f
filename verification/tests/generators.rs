use afast::handler_rules::{check_handler_params, ParamRuleError};
use afast::buf::{matches_wildcard, CodeBuf};
use afast::cs::exports::extract_nested_types_cs;
use afast::js::exports::extract_nested_types_js;
use afast::rs::exports::extract_nested_types_rs;
use afast::checks::{
    service_js_is_ok, override_is_ok, prefixed_type_is_ok, raw_is_ok, service_is_ok, service_rs_is_ok, services_are_ok, type_is_ok,
};
use afast::code::{generate_code, CodeError};
use afast::cs::service::has_call;
use afast::rs::service::has_async;
use afast::collect::{collect_customs, custom_index, has_cache_handlers, has_ordinary_handlers};
use afast::model::{
    AFast, FieldMeta, Handler, HandlerMeta, JsTsCallType, Lang, NetCallType, ParamMeta, RsCallType, Service, TagKind,
    TagMeta, ValidateRule,
};
use afast::output::{rs_mod_text, select_services, service_selected};
use afast::rs::methods::handler_method_rs;
use afast::rs::validate::{emit_validation_checks_rs, generate_validation_rs};

fn field(name: &str, ty: &str, validations: Vec<ValidateRule>) -> FieldMeta {
    FieldMeta {
        name: name.to_string(),
        ty: ty.to_string(),
        desc: String::new(),
        structure: None,
        validations,
        skip: false,
    }
}

fn strukt(name: &str, fields: Vec<FieldMeta>) -> TagMeta {
    TagMeta { name: name.to_string(), desc: format!("{} doc", name), kind: TagKind::Struct(fields) }
}

fn meta(name: &str, params: Vec<ParamMeta>, ret: &str, ret_st: Option<TagMeta>) -> HandlerMeta {
    HandlerMeta {
        name: name.to_string(),
        api_name: String::new(),
        desc: format!("{} handler", name),
        params,
        return_type: ret.to_string(),
        return_structure: ret_st.map(Box::new),
        is_ordinary: false,
        long_connection: false,
        cache_seconds: 0,
        method: String::new(),
    }
}

fn leaf(name: &str, m: HandlerMeta, id: u32, offset: usize) -> Handler {
    Handler { name: name.to_string(), path: String::new(), meta: m, children: Vec::new(), stable_id: id, offset }
}

fn group(name: &str, children: Vec<Handler>) -> Handler {
    Handler {
        name: name.to_string(),
        path: String::new(),
        meta: meta("", Vec::new(), "()", None),
        children,
        stable_id: 0,
        offset: 0,
    }
}

fn hello_handler() -> Handler {
    let req = strukt(
        "HelloReq",
        vec![field("name", "String", vec![ValidateRule::Len { min: 1, max: 10, code: 1001, message: "bad".to_string() }])],
    );
    let resp = strukt("HelloResp", vec![field("message", "String", Vec::new())]);
    let p = ParamMeta {
        name: "req".to_string(),
        extractor: "Data".to_string(),
        ty: "HelloReq".to_string(),
        structure: Some(Box::new(req)),
    };
    leaf("hello", meta("hello", vec![p], "HelloResp", Some(resp)), 7, 0)
}

fn custom_param(ty: &str) -> ParamMeta {
    ParamMeta { name: "c".to_string(), extractor: "Custom".to_string(), ty: ty.to_string(), structure: None }
}

fn demo_service() -> Service {
    let ping = leaf("ping", meta("ping", vec![custom_param("Session")], "()", None), 5, 1);
    let info = leaf("get_info", meta("get_info", vec![custom_param("Tenant"), custom_param("Session")], "u32", None), 9, 2);
    Service {
        name: "api".to_string(),
        desc: "Demo service".to_string(),
        handlers: vec![hello_handler(), group("user", vec![ping, info])],
        ordinary_routes: Vec::new(),
        ws_routes: Vec::new(),
        sse_routes: Vec::new(),
    }
}

#[test]
fn rust_length_rule_returns_validation_error() {
    let mut cb = CodeBuf::new();
    let rules = vec![ValidateRule::Len { min: 1, max: 10, code: 1001, message: "bad".to_string() }];
    emit_validation_checks_rs(&mut cb, "request.name", "name", &rules, "    ");
    assert_eq!(
        cb.build(),
        "    if request.name.len() < 1 || request.name.len() > 10 { return Err(AfastError::Validation { code: 1001, field: \"name\".into(), message: \"bad\".into() }); }"
    );
}

#[test]
fn rust_bound_and_choice_rules() {
    let mut cb = CodeBuf::new();
    let rules = vec![
        ValidateRule::Gt { value: "0".to_string(), code: 1, message: "pos".to_string() },
        ValidateRule::Len { min: -1, max: 3, code: 2, message: "long".to_string() },
        ValidateRule::Of { values: vec!["a".to_string(), "b".to_string()], code: 3, message: "choice".to_string() },
    ];
    emit_validation_checks_rs(&mut cb, "_v", "kind", &rules, "");
    assert_eq!(
        cb.build(),
        "if !(*_v > 0f64) { return Err(AfastError::Validation { code: 1, field: \"kind\".into(), message: \"pos\".into() }); }\n\
         if _v.len() > 3 { return Err(AfastError::Validation { code: 2, field: \"kind\".into(), message: \"long\".into() }); }\n\
         if ![\"a\", \"b\"].contains(&_v.as_str()) { return Err(AfastError::Validation { code: 3, field: \"kind\".into(), message: \"choice\".into() }); }"
    );
}

#[test]
fn rust_optional_field_is_checked_inside_if_let() {
    let mut cb = CodeBuf::new();
    let fields = vec![field(
        "nick",
        "Option<String>",
        vec![ValidateRule::Len { min: 2, max: -1, code: 4, message: "short".to_string() }],
    )];
    generate_validation_rs(&mut cb, "request", &fields, "");
    assert_eq!(
        cb.build(),
        "if let Some(ref _v) = request.nick {\n    if _v.len() < 2 { return Err(AfastError::Validation { code: 4, field: \"nick\".into(), message: \"short\".into() }); }\n}"
    );
}

#[test]
fn rust_method_without_parameters() {
    let h = leaf("ping", meta("ping", Vec::new(), "()", None), 5, 0);
    let all = vec![leaf("ping", meta("ping", Vec::new(), "()", None), 5, 0)];
    let text = handler_method_rs(&h, &all, "Ping", "    ", false, false);
    assert_eq!(
        text,
        "        pub fn ping(&self) -> Result<(), AfastError> {\n\
         \x20           let mut w = BinaryWriter::new();\n\
         \x20           let data = w.into_bytes();\n\
         \x20           let resp = _call_tcp(&self.stream, 5, data)?;\n\
         \x20           let mut r = BinaryReader::new(&resp);\n\
         \x20           Ok(())\n\
         \x20       }"
    );
    let async_text = handler_method_rs(&h, &all, "Ping", "    ", true, true);
    assert!(async_text.starts_with("        pub async fn ping(&self)"));
    assert!(async_text.contains("let resp = _call_tcp(&self.stream, 5, data).await?;"));
    assert!(async_text.contains("eprintln!(\"[afast:debug] \u{2192} call handlerId=5 payloadLen={}\", data.len());"));
    assert!(async_text.contains("eprintln!(\"[afast:debug] \u{2190} call handlerId=5 respLen={}\", resp.len());"));
}

#[test]
fn rust_method_with_struct_request_and_response() {
    let h = hello_handler();
    let all = vec![hello_handler()];
    let text = handler_method_rs(&h, &all, "Hello", "    ", false, false);
    assert_eq!(
        text,
        "        pub fn hello(&self, request: &HelloReq) -> Result<HelloResp, AfastError> {\n\
         \x20           if request.name.len() < 1 || request.name.len() > 10 { return Err(AfastError::Validation { code: 1001, field: \"name\".into(), message: \"bad\".into() }); }\n\
         \x20           let mut w = BinaryWriter::new();\n\
         \x20           w.write_str(&request.name);\n\
         \x20           let data = w.into_bytes();\n\
         \x20           let resp = _call_tcp(&self.stream, 7, data)?;\n\
         \x20           let mut r = BinaryReader::new(&resp);\n\
         \x20           Ok(HelloResp {\n\
         \x20                   message: r.read_str(),\n\
         \x20           })\n\
         \x20       }"
    );
}

#[test]
fn rust_method_fetches_custom_values_by_shared_index() {
    let svc = demo_service();
    let info = &svc.handlers[1].children[1];
    let text = handler_method_rs(info, &svc.handlers, "UserGetInfo", "    ", false, false);
    assert!(text.contains(
        "let _c1_any = (self.customs[1])().map_err(|e| AfastError::Network(format!(\"Custom provider error: {}\", e)))?;"
    ));
    assert!(text.contains(
        "let _c0 = _c0_any.downcast::<Session>().map_err(|_| AfastError::Network(\"Custom provider type mismatch\".into()))?;"
    ));
    assert!(text.contains("Ok(r.read_u32())"));
}

#[test]
fn customs_are_listed_once_in_first_use_order() {
    let svc = demo_service();
    assert_eq!(collect_customs(&svc.handlers), vec!["Session".to_string(), "Tenant".to_string()]);
    assert_eq!(custom_index(&svc.handlers, "Session"), 0);
    assert_eq!(custom_index(&svc.handlers, "Tenant"), 1);
    assert_eq!(custom_index(&svc.handlers, "Missing"), 0);
    assert!(!has_cache_handlers(&svc.handlers));
    assert!(!has_ordinary_handlers(&svc.handlers));
}

#[test]
fn generate_code_reports_unknown_services_and_disabled_languages() {
    let svcs = vec![demo_service()];
    match generate_code(&svcs, "", &Lang::JS(vec![JsTsCallType::Fetch])) {
        Err(CodeError::ServiceNotFound(n)) => assert_eq!(n, ""),
        _ => panic!("expected ServiceNotFound"),
    }
    match generate_code(&svcs, "nope", &Lang::RS(vec![RsCallType::Tcp])) {
        Err(e) => assert_eq!(e.message(), "service 'nope' not found"),
        _ => panic!("expected an error"),
    }
    match generate_code(&svcs, "api", &Lang::TS(vec![JsTsCallType::Fetch])) {
        Err(e) => assert_eq!(e.message(), "language 'ts' generation is not enabled"),
        _ => panic!("expected LangNotEnabled"),
    }
    match generate_code(&svcs, "api", &Lang::KT(vec![NetCallType::Http])) {
        Err(CodeError::LangNotEnabled(l)) => assert_eq!(l, "kt"),
        _ => panic!("expected LangNotEnabled"),
    }
}

#[test]
fn generate_code_produces_each_enabled_language() {
    let svcs = vec![demo_service()];
    let rs = match generate_code(&svcs, "api", &Lang::RS(vec![RsCallType::Tcp])) {
        Ok(t) => t,
        Err(_) => panic!("rust generation failed"),
    };
    assert!(rs.starts_with("// Auto-generated by afast. DO NOT EDIT.\n"));
    assert!(rs.contains("use std::net::TcpStream;"));
    assert!(rs.contains("pub struct ApiClient {"));
    assert!(rs.contains("    pub fn user(&self) -> ApiUserApi<'_> {"));
    assert!(rs.contains("pub struct ApiUserApi<'a> {"));
    assert!(rs.contains("        pub fn get_info(&self) -> Result<(), AfastError> {"));
    let rs_async = match generate_code(&svcs, "api", &Lang::RS(vec![RsCallType::TcpAsync])) {
        Ok(t) => t,
        Err(_) => panic!("rust generation failed"),
    };
    assert!(rs_async.contains("use tokio::net::TcpStream;"));
    assert!(rs_async.contains("pub async fn new(addr: &str) -> Result<Self, AfastError> {"));
    let js = match generate_code(&svcs, "api", &Lang::JS(vec![JsTsCallType::Fetch])) {
        Ok(t) => t,
        Err(_) => panic!("js generation failed"),
    };
    assert!(js.contains("ApiClient"));
    let cs = match generate_code(&svcs, "api", &Lang::CS(vec![NetCallType::Http])) {
        Ok(t) => t,
        Err(_) => panic!("cs generation failed"),
    };
    assert!(cs.contains("public class ApiClient : IAsyncDisposable"));
}

#[test]
fn whole_outputs_start_with_the_shared_part() {
    let app = AFast { services: vec![demo_service()] };
    let rs = app.get_rs_code();
    assert!(rs.starts_with("// Auto-generated by afast. DO NOT EDIT.\n#![allow(dead_code, clippy::type_complexity, clippy::needless_borrow)]"));
    assert!(rs.contains("pub struct AfastSocket {"));
    assert!(rs.contains("\n\n// Auto-generated by afast. DO NOT EDIT.\n#![allow(dead_code, unused_mut, clippy::needless_borrow)]"));
    let cs = app.get_cs_code();
    assert!(cs.contains("internal class BinaryWriter"));
    let js = app.get_js_code();
    assert!(js.contains("ApiClient"));
}

#[test]
fn selection_keeps_named_services_matching_the_filter() {
    let patterns = vec!["ap*".to_string()];
    assert!(service_selected("api", Some(&patterns), false));
    assert!(!service_selected("web", Some(&patterns), false));
    assert!(service_selected("web", None, false));
    assert!(!service_selected("", None, false));
    let mut unnamed = demo_service();
    unnamed.name = String::new();
    let mut web = demo_service();
    web.name = "web".to_string();
    let kept = select_services(vec![unnamed, demo_service(), web], Some(&patterns), false);
    assert_eq!(kept.len(), 1);
    assert_eq!(kept[0].name, "api");
}

#[test]
fn selection_by_listed_names_is_exact() {
    let names = vec!["user*".to_string(), "api".to_string()];
    assert!(!service_selected("user_admin", Some(&names), true));
    assert!(service_selected("user*", Some(&names), true));
    assert!(service_selected("api", Some(&names), true));
    assert!(!service_selected("ap", Some(&names), true));
    assert!(service_selected("web", None, true));
    assert!(!service_selected("", None, true));
    let mut admin = demo_service();
    admin.name = "user_admin".to_string();
    let kept = select_services(vec![admin, demo_service()], Some(&names), true);
    assert_eq!(kept.len(), 1);
    assert_eq!(kept[0].name, "api");
}

#[test]
fn rust_module_index_lists_every_service() {
    let names = vec!["api".to_string(), "admin".to_string()];
    assert_eq!(
        rs_mod_text(&names),
        "// Auto-generated by afast. DO NOT EDIT.\n\npub mod common;\npub mod api;\npub mod admin;\n"
    );
}

#[test]
fn metadata_checks_accept_what_the_macros_produce() {
    assert!(type_is_ok("Option<Vec<u8>>"));
    assert!(!type_is_ok("Option<"));
    assert!(!type_is_ok("Vec<"));
    assert!(raw_is_ok("Vec<Option<i32>>"));
    assert!(!raw_is_ok("Option<\u{e9}"));
    assert!(prefixed_type_is_ok("UserGet", "Req"));
    assert!(!prefixed_type_is_ok("Us\u{e9}r", "Req"));
    assert!(prefixed_type_is_ok("Us\u{e9}r", "\u{e9}rReq"));
    assert!(override_is_ok("Option<HelloResp>"));
    assert!(!override_is_ok("Option<"));
    let svc = demo_service();
    assert!(service_is_ok(&svc));
    assert!(service_rs_is_ok(&svc));
    assert!(services_are_ok(&vec![demo_service()]));
}

fn nested_sample() -> TagMeta {
    let mut inner_a = field("a", "Inner", vec![]);
    inner_a.structure = Some(Box::new(strukt("Inner", vec![field("x", "u8", vec![])])));
    let mut inner_b = field("b", "Inner", vec![]);
    inner_b.structure = Some(Box::new(strukt("Inner", vec![field("x", "u8", vec![])])));
    let mut leaf = field("c", "Leaf", vec![]);
    leaf.structure = Some(Box::new(strukt("Leaf", vec![])));
    strukt("Outer", vec![inner_a, inner_b, leaf])
}

#[test]
fn nested_types_are_declared_once_in_each_language() {
    let m = nested_sample();
    let expected = vec!["Outer".to_string(), "Inner".to_string(), "Leaf".to_string()];

    let mut cb = CodeBuf::new();
    let mut emitted: Vec<String> = Vec::new();
    extract_nested_types_js(&m, &mut cb, &mut emitted);
    assert_eq!(emitted, expected);
    assert_eq!(cb.len(), 3);

    let mut cb = CodeBuf::new();
    let mut emitted: Vec<String> = Vec::new();
    extract_nested_types_cs(&m, &mut cb, &mut emitted);
    assert_eq!(emitted, expected);
    assert_eq!(cb.len(), 3);

    let mut cb = CodeBuf::new();
    let mut emitted: Vec<String> = vec!["Inner".to_string()];
    extract_nested_types_rs(&m, &mut cb, &mut emitted);
    assert_eq!(emitted, vec!["Inner".to_string(), "Outer".to_string(), "Leaf".to_string()]);
    assert_eq!(cb.len(), 2);
}

#[test]
fn single_star_pattern_matches_any_middle() {
    assert!(matches_wildcard("user_super_admin", "user*admin"));
    assert!(matches_wildcard("useradmin", "user*admin"));
    assert!(!matches_wildcard("useradmi", "user*admin"));
    assert!(!matches_wildcard("userxadmin_x", "user*admin"));
    assert!(matches_wildcard("anything", "*"));
    assert!(matches_wildcard("", "*"));
}

#[test]
fn every_star_matches_any_sequence() {
    assert!(matches_wildcard("a_x_b_y", "a*b*"));
    assert!(matches_wildcard("ab", "a*b*"));
    assert!(!matches_wildcard("a_x_c_y", "a*b*"));
    assert!(matches_wildcard("user_super_admin_list", "*super*list"));
    assert!(matches_wildcard("xyz", "**"));
    assert!(!matches_wildcard("xay", "*a"));
    assert!(matches_wildcard("a*b", "a*b"));
}

#[test]
fn transports_are_looked_up() {
    let calls = vec![NetCallType::Http, NetCallType::Tcp];
    assert!(has_call(&calls, NetCallType::Tcp));
    assert!(!has_call(&calls, NetCallType::Ws));
    assert!(has_async(&vec![RsCallType::Tcp, RsCallType::TcpAsync]));
    assert!(!has_async(&vec![RsCallType::Tcp]));
}

#[test]
fn long_cache_lifetimes_fit_javascript_but_not_csharp_ticks() {
    let mut h = hello_handler();
    h.meta.cache_seconds = 10_000_000_000_000;
    let mut svc = demo_service();
    svc.handlers = vec![h];
    assert!(!service_is_ok(&svc));
    assert!(service_js_is_ok(&svc));
    let js = afast::js::service::generate_service_js(&svc, &vec![JsTsCallType::Fetch], false);
    assert!(js.contains("expiry: Date.now() + 10000000000000000 });"));
    let mut too_long = hello_handler();
    too_long.meta.cache_seconds = 18_446_744_073_709_552;
    svc.handlers = vec![too_long];
    assert!(!service_js_is_ok(&svc));
}

fn streaming_service() -> Service {
    let mut svc = demo_service();
    svc.ws_routes = vec![afast::model::StreamRoute { path: "/chat/:room/".to_string(), handler_name: "chat_room".to_string() }];
    svc.sse_routes = vec![afast::model::StreamRoute { path: "/events".to_string(), handler_name: "events".to_string() }];
    svc
}

#[test]
fn route_paths_split_into_segments_and_parameters() {
    let segs = afast::routes::route_segments("/chat/:room/msg/");
    assert_eq!(segs, vec!["chat".to_string(), ":room".to_string(), "msg".to_string()]);
    assert_eq!(afast::routes::route_param_names(&segs), vec!["room".to_string()]);
    assert!(afast::routes::route_has_param(&segs));
    assert_eq!(afast::routes::route_path_expr(&segs, true), "chat/${encodeURIComponent(room)}/msg");
    assert_eq!(afast::routes::route_path_expr(&segs, false), "chat/{room}/msg");
}

#[test]
fn javascript_client_opens_websocket_and_event_stream_routes() {
    let js = afast::js::service::generate_service_js(&streaming_service(), &vec![JsTsCallType::Fetch], false);
    assert!(js.contains(
        "        /** WebSocket: /chat/:room/ */\n        chat_room: (room, query) => {\n            const scheme = this._tls ? 'wss' : 'ws';\n            let url = `${scheme}://${this._host}:${this._port}/chat/${encodeURIComponent(room)}`;\n"
    ));
    assert!(js.contains("            return new WebSocket(url);\n        },\n        /** SSE: /events */\n        events: (query) => {\n        const scheme = this._tls ? 'https' : 'http';\n        let url = `${scheme}://${this._host}:${this._port}/events`;\n"));
    assert!(js.contains("        const es = new EventSource(url);\n        return es;\n        },\n        };\n    }\n}"));
}

#[test]
fn csharp_client_opens_websocket_and_event_stream_routes() {
    let cs = afast::cs::service::generate_service_cs(&streaming_service(), &vec![NetCallType::Http], false);
    assert!(cs.contains("    /// <summary>WebSocket: /chat/:room/</summary>\n    public async Task<ClientWebSocket> chatRoom(string room, Dictionary<string, string>? query = null)\n    {\n                var scheme = _tls ? \"wss\" : \"ws\";\n                var url = $\"{scheme}://{_host}:{_port}/chat/{room}\";\n"));
    assert!(cs.contains("    public async Task<HttpResponseMessage> events(Dictionary<string, string>? query = null)\n"));
    assert!(cs.contains("                request.Headers.Add(\"Accept\", \"text/event-stream\");\n"));
}

#[test]
fn rust_client_connects_websocket_routes() {
    let rs = afast::rs::service::generate_service_rs(&streaming_service(), &vec![RsCallType::TcpAsync], false);
    assert!(rs.contains("\n    /// WebSocket connect: /chat/:room/\n    pub async fn chat_room(&self, room: &str, query: Option<&std::collections::HashMap<String, String>>) -> Result<"));
    assert!(rs.contains("        let mut url = format!(\"{}://{}/chat/{room}\", scheme, addr);\n"));
    assert!(!rs.contains("events"));
}

fn exts(v: &[&str]) -> Vec<String> {
    v.iter().map(|s| s.to_string()).collect()
}

#[test]
fn handler_extractor_rules() {
    assert!(matches!(check_handler_params(&exts(&["State", "Data"]), false), Ok(false)));
    assert!(matches!(check_handler_params(&exts(&["Receiver", "Sender", "Custom"]), false), Ok(true)));
    assert!(matches!(check_handler_params(&exts(&["Query", "Body"]), true), Ok(false)));
    assert!(matches!(check_handler_params(&exts(&["Query", "Data"]), true), Err(ParamRuleError::MixedExtractors)));
    assert!(matches!(check_handler_params(&exts(&["Receiver", "Sender"]), true), Err(ParamRuleError::LongConnectionOnRoute)));
    assert!(matches!(check_handler_params(&exts(&["Receiver"]), false), Err(ParamRuleError::UnpairedStream)));
    assert!(matches!(
        check_handler_params(&exts(&["Receiver", "Sender", "Receiver", "Sender"]), false),
        Err(ParamRuleError::UnpairedStream)
    ));
    assert!(matches!(check_handler_params(&exts(&["Param"]), false), Err(ParamRuleError::OrdinaryOnHandler)));
    assert!(matches!(check_handler_params(&exts(&["Custom"]), true), Err(ParamRuleError::BinaryOnRoute)));
    assert_eq!(
        ParamRuleError::UnpairedStream.message(),
        "Receiver and Sender must appear together and at most once each"
    );
}
