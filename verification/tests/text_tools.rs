use afast::buf::{matches_wildcard, CodeBuf};
use afast::extractors::query_pairs;
use afast::json::JsonBuilder;
use afast::naming::{handler_prefix, ordinary_suffix, prefixed_type, to_camel_case, to_header_name, to_pascal_case, to_snake_case};
use afast::stable_id::{fnv1a_32, stable_handler_id};
use afast::typemap::{is_primitive, normalize_rust_type, rust_type_to_cs, rust_type_to_js, rust_type_to_rs};

#[test]
fn code_buf_builds_lines_joined_by_newline() {
    let mut cb = CodeBuf::new();
    cb.l("fn main() {");
    cb.l("    println!(\"hello\");");
    cb.l("}");
    assert_eq!(cb.build(), "fn main() {\n    println!(\"hello\");\n}");
}

#[test]
fn code_buf_blank_lines_extend_and_len() {
    let mut cb = CodeBuf::with_capacity(4);
    assert!(cb.is_empty());
    cb.push("a".to_string());
    cb.b();
    let mut other = CodeBuf::new();
    other.f("c".to_string());
    cb.extend(other);
    cb.extend_vec(vec!["d".to_string()]);
    assert_eq!(cb.len(), 4);
    assert!(!cb.is_empty());
    if let Some(last) = cb.last_mut() {
        last.push('!');
    }
    cb.lines_mut().push("e".to_string());
    assert_eq!(cb.build(), "a\n\nc\nd!\ne");
}

#[test]
fn building_after_one_more_line_appends_it() {
    let mut one = CodeBuf::new();
    one.l("x");
    assert_eq!(one.build(), "x");
    let mut two = CodeBuf::new();
    two.l("x");
    two.l("y");
    assert_eq!(two.build(), "x\ny");
}

#[test]
fn wildcard_examples_from_the_documentation() {
    assert!(matches_wildcard("user", "user*"));
    assert!(matches_wildcard("user_admin", "user*"));
    assert!(matches_wildcard("user_list", "user*"));
    assert!(matches_wildcard("admin", "*admin"));
    assert!(matches_wildcard("user_admin", "*admin"));
    assert!(matches_wildcard("user_admin", "user*admin"));
    assert!(matches_wildcard("user_super_admin", "user*admin"));
    assert!(matches_wildcard("user", "user"));
    assert!(!matches_wildcard("user_admin", "user"));
    assert!(!matches_wildcard("admin_user", "user*"));
    assert!(!matches_wildcard("useradmin_x", "*admin"));
}

#[test]
fn wildcard_inner_star_needs_room_for_both_ends() {
    assert!(!matches_wildcard("user", "us*ser"));
    assert!(matches_wildcard("usser", "us*ser"));
}

#[test]
fn case_conversions() {
    assert_eq!(to_pascal_case("hello_world"), "HelloWorld");
    assert_eq!(to_pascal_case("get__user_"), "GetUser");
    assert_eq!(to_camel_case("hello_world"), "helloWorld");
    assert_eq!(to_camel_case("__private"), "__private");
    assert_eq!(to_snake_case("HelloWorld"), "hello_world");
    assert_eq!(to_snake_case("getHTTPStatus"), "get_h_t_t_p_status");
    assert_eq!(to_snake_case("already_snake"), "already_snake");
}

#[test]
fn header_names_use_dashes() {
    assert_eq!(to_header_name("x_request_id"), "x-request-id");
    assert_eq!(to_header_name("plain"), "plain");
}

#[test]
fn prefixed_type_keeps_prefix_and_name_without_repeating_overlap() {
    assert_eq!(prefixed_type("UserGet", "Req"), "UserGetReq");
    assert_eq!(prefixed_type("UserGet", "UserGetReq"), "UserGetReq");
    assert_eq!(prefixed_type("UserGet", "GetReq"), "UserGetReq");
    let once = prefixed_type("UserGet", "GetReq");
    assert_eq!(prefixed_type("UserGet", &once), once);
}

#[test]
fn handler_prefix_joins_pascal_segments() {
    let path = vec!["user".to_string(), "get_info".to_string()];
    assert_eq!(handler_prefix(&path), "UserGetInfo");
}

#[test]
fn ordinary_suffix_names_extractor_kinds() {
    assert_eq!(ordinary_suffix("Query", 0), "Query");
    assert_eq!(ordinary_suffix("Data", 0), "Request");
    assert_eq!(ordinary_suffix("Data", 1), "Request2");
    assert_eq!(ordinary_suffix("Param", 0), "PathParams");
    assert_eq!(ordinary_suffix("Body", 0), "Body");
    assert_eq!(ordinary_suffix("Header", 0), "Response");
}

#[test]
fn fnv_hash_known_values() {
    assert_eq!(fnv1a_32(b""), 0x811c_9dc5);
    assert_eq!(fnv1a_32(b"a"), 0xe40c_292c);
    assert_eq!(fnv1a_32(b"foobar"), 0xbf9c_f968);
    assert_eq!(stable_handler_id("api", "hello"), fnv1a_32(b"api/hello"));
}

#[test]
fn json_builder_escapes_html_significant_characters() {
    let mut jb = JsonBuilder::new();
    jb.object_start();
    jb.key("k");
    jb.string("<a href=\"x\">&\n\t\r\\</a>");
    jb.comma();
    jb.key("n");
    jb.number(-12);
    jb.comma();
    jb.key("i");
    jb.i64(7);
    jb.comma();
    jb.key("f");
    jb.float_text("1.5");
    jb.comma();
    jb.key("b");
    jb.bool(true);
    jb.comma();
    jb.key("z");
    jb.null();
    jb.comma();
    jb.key("a");
    jb.array_start();
    jb.raw("1");
    jb.array_end();
    jb.object_end();
    let out = jb.build();
    assert_eq!(
        out,
        "{\"k\":\"\\u003ca href=\\\"x\\\"\\u003e\\u0026\\n\\t\\r\\\\\\u003c/a\\u003e\",\"n\":-12,\"i\":7,\"f\":1.5,\"b\":true,\"z\":null,\"a\":[1]}"
    );
    assert!(!out.contains('<'));
    assert!(!out.contains('>'));
    assert!(!out.contains('&'));
}

#[test]
fn type_mappings() {
    assert_eq!(normalize_rust_type(" Option < Vec < u8 > > "), "Option<Vec<u8>>");
    assert_eq!(rust_type_to_js("Option<i32>"), "number|null");
    assert_eq!(rust_type_to_js("Vec<String>"), "string[]");
    assert_eq!(rust_type_to_js("Vec<Option<i32>>"), "(number|null)[]");
    assert_eq!(rust_type_to_js("Option<Vec<Option<bool>>>"), "(boolean|null)[]|null");
    assert_eq!(rust_type_to_js("Vec<Vec<u8>>"), "Uint8Array[]");
    assert_eq!(rust_type_to_rs("usize"), "u64");
    assert_eq!(rust_type_to_rs("Option<&str>"), "Option<String>");
    assert_eq!(rust_type_to_cs("Vec<u8>"), "byte[]");
    assert!(is_primitive("u16"));
    assert!(!is_primitive("Vec<u16>"));
}

fn pairs(v: &[(&str, &str)]) -> Vec<(String, String)> {
    v.iter().map(|(k, x)| (k.to_string(), x.to_string())).collect()
}

#[test]
fn query_string_is_split_into_parameters() {
    assert_eq!(query_pairs("id=7&name=bob"), pairs(&[("id", "7"), ("name", "bob")]));
    assert_eq!(query_pairs("a=1&&flag&c=x=y&"), pairs(&[("a", "1"), ("flag", ""), ("c", "x=y")]));
    assert_eq!(query_pairs(""), pairs(&[]));
    assert_eq!(query_pairs("&&"), pairs(&[]));
    assert_eq!(query_pairs("=v"), pairs(&[("", "v")]));
}

#[test]
fn snake_names_survive_pascal_and_back() {
    for s in ["get_user_v2", "api", "list_all_items", "a1_b2"] {
        assert_eq!(to_snake_case(&to_pascal_case(s)), s);
    }
    assert_eq!(to_pascal_case("api"), "Api");
    assert_eq!(to_camel_case("get_user"), "getUser");
}

#[test]
fn json_strings_decode_back() {
    let v = "a<b>&c \"q\" back\\slash\nline\ttab\r/ é";
    let mut jb = JsonBuilder::new();
    jb.string(v);
    let out = jb.build();
    let back: String = serde_json::from_str(&out).unwrap();
    assert_eq!(back, v);
}

#[test]
fn buffer_length_counts_every_appended_line() {
    let mut cb = CodeBuf::with_capacity(64);
    cb.l("a");
    cb.b();
    cb.f("c".to_string());
    cb.push("d".to_string());
    let mut other = CodeBuf::new();
    other.l("x");
    other.l("y");
    cb.extend(other);
    cb.extend_vec(vec!["p".to_string(), "q".to_string(), "r".to_string()]);
    assert_eq!(cb.len(), 4 + 2 + 3);
    assert_eq!(cb.build(), "a\n\nc\nd\nx\ny\np\nq\nr");
}
