use afast::doc::html::{
    count_handlers, embed_js_client, favicon_data_uri, generate_index_html, generate_service_html, parse_u16,
    port_of_addr, DocError,
};
use afast::doc::schema::{build_handler_tree, build_schema, collect_all_customs, collect_all_headers, emit_type_to_map, TypeTable};
use afast::model::{
    FieldMeta, Handler, HandlerMeta, JsTsCallType, OrdinaryRoute, ParamMeta, Service, TagKind, TagMeta, ValidateRule,
};

fn field(name: &str, ty: &str, structure: Option<TagMeta>) -> FieldMeta {
    FieldMeta {
        name: name.to_string(),
        ty: ty.to_string(),
        desc: format!("{} field", name),
        structure: structure.map(Box::new),
        validations: Vec::new(),
        skip: false,
    }
}

fn strukt(name: &str, fields: Vec<FieldMeta>) -> TagMeta {
    TagMeta { name: name.to_string(), desc: format!("{} doc", name), kind: TagKind::Struct(fields) }
}

fn meta(name: &str, params: Vec<ParamMeta>, ret: &str, ret_st: Option<TagMeta>) -> HandlerMeta {
    HandlerMeta {
        name: name.to_string(),
        api_name: String::new(),
        desc: format!("{} handler", name),
        params,
        return_type: ret.to_string(),
        return_structure: ret_st.map(Box::new),
        is_ordinary: false,
        long_connection: false,
        cache_seconds: 0,
        method: String::new(),
    }
}

fn param(extractor: &str, ty: &str, structure: Option<TagMeta>) -> ParamMeta {
    ParamMeta {
        name: "p".to_string(),
        extractor: extractor.to_string(),
        ty: ty.to_string(),
        structure: structure.map(Box::new),
    }
}

fn leaf(name: &str, m: HandlerMeta, offset: usize) -> Handler {
    Handler { name: name.to_string(), path: String::new(), meta: m, children: Vec::new(), stable_id: 1, offset }
}

fn service(name: &str, handlers: Vec<Handler>) -> Service {
    Service {
        name: name.to_string(),
        desc: String::new(),
        handlers,
        ordinary_routes: Vec::new(),
        ws_routes: Vec::new(),
        sse_routes: Vec::new(),
    }
}

#[test]
fn ports_are_read_like_str_parse() {
    assert_eq!(parse_u16("3000"), Some(3000));
    assert_eq!(parse_u16("+80"), Some(80));
    assert_eq!(parse_u16("65535"), Some(65535));
    assert_eq!(parse_u16("65536"), None);
    assert_eq!(parse_u16(""), None);
    assert_eq!(parse_u16("+"), None);
    assert_eq!(parse_u16("-1"), None);
    assert_eq!(parse_u16(" 1"), None);
    assert_eq!(parse_u16("0012"), Some(12));
}

#[test]
fn address_ports_come_from_the_text_after_the_last_colon() {
    assert_eq!(port_of_addr("3000"), Some(3000));
    assert_eq!(port_of_addr("localhost:3000"), Some(3000));
    assert_eq!(port_of_addr("127.0.0.1:8080"), Some(8080));
    assert_eq!(port_of_addr("[::1]:5000"), Some(5000));
    assert_eq!(port_of_addr("8080:extra"), None);
    assert_eq!(port_of_addr("localhost:"), None);
}

#[test]
fn printed_ports_read_back() {
    for p in [0u16, 7, 80, 443, 3000, 65535] {
        assert_eq!(parse_u16(&p.to_string()), Some(p));
    }
}

#[test]
fn favicon_is_squeezed_and_percent_encoded() {
    assert_eq!(
        favicon_data_uri("<svg  a=\"b\">\n  </svg>\n"),
        "data:image/svg+xml,%3Csvg%20a=%22b%22%3E%20%3C/svg%3E"
    );
    assert_eq!(favicon_data_uri("#x"), "data:image/svg+xml,%23x");
    assert_eq!(favicon_data_uri("\u{e9}"), "data:image/svg+xml,\u{c3}\u{a9}");
    let uri = favicon_data_uri("<a b=\"c\"> # </a>");
    for c in ['<', '>', '"', '#', ' '] {
        assert!(!uri.contains(c));
    }
}

#[test]
fn counting_handlers_skips_group_nodes() {
    let group = Handler {
        name: "g".to_string(),
        path: String::new(),
        meta: meta("", Vec::new(), "()", None),
        children: vec![leaf("a", meta("a", Vec::new(), "()", None), 1), leaf("b", meta("b", Vec::new(), "()", None), 2)],
        stable_id: 0,
        offset: 0,
    };
    let hs = vec![leaf("top", meta("top", Vec::new(), "()", None), 0), group];
    assert_eq!(count_handlers(&hs), 3);
}

#[test]
fn empty_service_schema() {
    let mut svc = service("s", Vec::new());
    svc.desc = "d".to_string();
    assert_eq!(
        build_schema(&svc),
        "{\"serviceName\":\"s\",\"serviceDesc\":\"d\",\"customs\":[],\"headers\":[],\"types\":{},\"handlers\":[]}"
    );
}

#[test]
fn handler_tree_node_json() {
    let hs = vec![leaf("hello", meta("hello", vec![param("Data", "u32", None)], "()", None), 4)];
    let prefix = vec!["api".to_string()];
    let nodes = build_handler_tree(&hs, &prefix);
    assert_eq!(nodes.len(), 1);
    assert_eq!(
        nodes[0],
        "{\"path\":\"api.hello\",\"apiPath\":\"api.hello\",\"name\":\"hello\",\"description\":\"hello handler\",\"apiName\":\"\",\
         \"offset\":4,\"longConnection\":false,\"isOrdinary\":false,\"method\":\"\",\"httpPath\":\"\",\"isGroup\":false,\
         \"params\":[{\"name\":\"p\",\"extractor\":\"Data\",\"ty\":\"u32\",\"tag\":\"\",\"structure\":null,\"primitive\":true}],\
         \"returnType\":\"()\",\"returnStructure\":null,\"children\":[]}"
    );
}

#[test]
fn type_table_describes_nested_types_once() {
    let inner = strukt("Inner", vec![field("v", "i32", None)]);
    let outer = strukt("Outer", vec![field("a", "Inner", Some(inner)), field("b", "Inner", Some(strukt("Inner", Vec::new())))]);
    let mut table = TypeTable::new();
    emit_type_to_map(&outer, &mut table);
    assert_eq!(table.len(), 2);
    assert_eq!(table.entry(0).0, "Inner");
    assert_eq!(table.entry(1).0, "Outer");
    assert!(table.contains_key("Inner"));
    let before: Vec<(String, String)> = (0..table.len()).map(|i| (table.entry(i).0.to_string(), table.entry(i).1.to_string())).collect();
    emit_type_to_map(&outer, &mut table);
    let after: Vec<(String, String)> = (0..table.len()).map(|i| (table.entry(i).0.to_string(), table.entry(i).1.to_string())).collect();
    assert_eq!(before, after);
    assert_eq!(
        table.entry(0).1,
        "{\"name\":\"Inner\",\"desc\":\"Inner doc\",\"kind\":\"struct\",\"fields\":[{\"name\":\"v\",\"ty\":\"i32\",\"desc\":\"v field\",\"structure\":null,\"primitive\":true,\"validations\":[]}]}"
    );
}

#[test]
fn validation_rules_appear_in_field_descriptions() {
    let mut f = field("age", "u8", None);
    f.validations = vec![
        ValidateRule::Gte { value: "18".to_string(), code: 7, message: "adult".to_string() },
        ValidateRule::Of { values: vec!["x".to_string()], code: 8, message: "one".to_string() },
    ];
    let t = strukt("P", vec![f]);
    let mut table = TypeTable::new();
    emit_type_to_map(&t, &mut table);
    assert!(table.entry(0).1.contains(
        "\"validations\":[{\"rule\":\"gte\",\"value\":18,\"code\":7,\"message\":\"adult\"},{\"rule\":\"of\",\"values\":[\"x\"],\"code\":8,\"message\":\"one\"}]"
    ));
}

#[test]
fn customs_and_non_standard_headers_are_listed_once() {
    let std_header = strukt("Std", vec![field("content_type", "String", None)]);
    let own_header = strukt("Own", vec![field("x_token", "String", None)]);
    let m = meta(
        "h",
        vec![
            param("Custom", "Session", Some(strukt("Session", Vec::new()))),
            param("Custom", "Session", None),
            param("Header", "Std", Some(std_header)),
            param("Header", "Own", Some(own_header)),
        ],
        "()",
        None,
    );
    let hs = vec![leaf("h", m, 0)];
    let customs = collect_all_customs(&hs);
    assert_eq!(customs.len(), 1);
    assert_eq!(customs[0].ty, "Session");
    assert_eq!(customs[0].desc, "Session doc");
    let headers = collect_all_headers(&hs);
    assert_eq!(headers.len(), 1);
    assert_eq!(headers[0].ty, "Own");
    assert_eq!(afast::js::service::collect_headers(&hs), vec!["Own".to_string()]);
    assert_eq!(afast::collect::collect_headers(&hs), vec!["Std".to_string(), "Own".to_string()]);
}

#[test]
fn schema_includes_headers_of_ordinary_routes() {
    let mut svc = service("s", Vec::new());
    svc.ordinary_routes = vec![OrdinaryRoute {
        meta: meta("r", vec![param("Header", "Auth", Some(strukt("Auth", vec![field("x_key", "String", None)])))], "()", None),
    }];
    assert!(build_schema(&svc).contains("\"headers\":[{\"typeName\":\"Auth\",\"description\":\"Auth doc\"}]"));
}

#[test]
fn service_page_errors_and_contents() {
    let svcs = vec![service("api", vec![leaf("hello", meta("hello", Vec::new(), "()", None), 0)])];
    match generate_service_html(&svcs, "missing", None, "", None, "<svg/>") {
        Err(DocError::ServiceNotFound(n)) => assert_eq!(n, "missing"),
        Ok(_) => panic!("expected an error"),
    }
    let e = DocError::ServiceNotFound("x".to_string());
    assert_eq!(e.message(), "service 'x' not found");
    let page = match generate_service_html(&svcs, "api", Some("Docs"), "127.0.0.1:8080", Some("0.0.0.0:9000"), "<svg/>") {
        Ok(p) => p,
        Err(_) => panic!("expected a page"),
    };
    assert!(page.starts_with("<!-- Auto-generated by afast. DO NOT EDIT. -->\n<!DOCTYPE html>"));
    assert!(page.contains("<title>api \u{2014} Docs</title>"));
    assert!(page.contains("href=\"data:image/svg+xml,%3Csvg/%3E\""));
    assert!(page.contains("'9000' : '8080'"));
    assert!(page.contains("? 9000 : 8080)"));
    assert!(!page.contains("'3000' : '5000'"));
    assert!(page.contains("window['ApiClient'] = ApiClient;"));
    assert!(page.contains("{\"serviceName\":\"api\""));
    let default_page = match generate_service_html(&svcs, "api", None, "", None, "") {
        Ok(p) => p,
        Err(_) => panic!("expected a page"),
    };
    assert!(default_page.contains("<title>api \u{2014} API Documentation</title>"));
    assert!(default_page.contains("'3000' : '5000'"));
}

#[test]
fn embedded_client_drops_exports() {
    let svc = service("my_api", Vec::new());
    let js = embed_js_client(&svc, &vec![JsTsCallType::Fetch]);
    assert!(!js.contains("export class "));
    assert!(js.ends_with("\nwindow['Socket'] = Socket;\nwindow['MyApiClient'] = MyApiClient;"));
}

#[test]
fn index_page_lists_named_services() {
    let mut a = service("api", vec![leaf("x", meta("x", Vec::new(), "()", None), 0)]);
    a.desc = "Main".to_string();
    let svcs = vec![a, service("", Vec::new()), service("b", Vec::new())];
    let page = generate_index_html(&svcs, None, "");
    assert!(page.contains(
        "<div class=\"service-list\"><a href=\"/doc/api\" class=\"service-card\"><h2>api</h2><p class=\"service-desc\">Main</p><p>1 handler(s)</p></a><a href=\"/doc/b\" class=\"service-card\"><h2>b</h2><p>0 handler(s)</p></a></div>"
    ));
    assert!(page.contains("<title>afast \u{2014} API Documentation</title>"));
    assert!(page.contains("<h1>afast API Documentation</h1>"));
    let titled = generate_index_html(&svcs, Some("Mine"), "");
    assert!(titled.contains("<title>Mine</title>"));
    assert!(titled.contains("<h1>Mine</h1>"));
}
