//! Normalisation of Rust type strings and their mapping to client types.

use vstd::prelude::*;
use crate::naming::is_ascii_char;
use crate::text::{
    cat2, cat3, chars_of, ends_with_char, owned, replace, replace_seq, starts_with, str_eq,
    strip_prefix_or_keep, strip_prefix_or_self, string_of_range, trim, trim_back, trim_front,
    trim_seq,
};

verus! {

/// A Rust type string with the `afast::` path prefix removed and the
/// spaces around `<`, `>` and `,` dropped, so that spellings produced by
/// the compiler and by hand compare equal.
pub open spec fn normalize(ty: Seq<char>) -> Seq<char> {
    let t = trim_seq(ty);
    let t = strip_prefix_or_keep(t, "afast :: "@);
    let t = strip_prefix_or_keep(t, "afast::"@);
    let t = replace_seq(t, " <"@, "<"@);
    let t = replace_seq(t, "< "@, "<"@);
    let t = replace_seq(t, " >"@, ">"@);
    let t = replace_seq(t, "> "@, ">"@);
    let t = replace_seq(t, " ,"@, ","@);
    replace_seq(t, ", "@, ","@)
}

proof fn lemma_replace_len(s: Seq<char>, from: Seq<char>, to: Seq<char>)
    requires
        to.len() <= from.len(),
    ensures
        replace_seq(s, from, to).len() <= s.len(),
    decreases s.len(),
{
    if s.len() == 0 || from.len() == 0 {
    } else if from.is_prefix_of(s) {
        lemma_replace_len(s.skip(from.len() as int), from, to);
    } else {
        lemma_replace_len(s.drop_first(), from, to);
    }
}

proof fn lemma_trim_len(s: Seq<char>)
    ensures
        trim_front(s).len() <= s.len(),
        trim_back(s).len() <= s.len(),
    decreases s.len(),
{
    if s.len() > 0 {
        lemma_trim_len(s.drop_first());
        lemma_trim_len(s.drop_last());
    }
}

/// Normalisation never makes a type string longer.
pub proof fn lemma_normalize_len(ty: Seq<char>)
    ensures
        normalize(ty).len() <= ty.len(),
{
    reveal_strlit(" <");
    reveal_strlit("< ");
    reveal_strlit(" >");
    reveal_strlit("> ");
    reveal_strlit(" ,");
    reveal_strlit(", ");
    reveal_strlit("<");
    reveal_strlit(">");
    reveal_strlit(",");
    lemma_trim_len(ty);
    lemma_trim_len(trim_front(ty));
    let t = trim_seq(ty);
    let t1 = strip_prefix_or_keep(t, "afast :: "@);
    let t2 = strip_prefix_or_keep(t1, "afast::"@);
    let t3 = replace_seq(t2, " <"@, "<"@);
    lemma_replace_len(t2, " <"@, "<"@);
    let t4 = replace_seq(t3, "< "@, "<"@);
    lemma_replace_len(t3, "< "@, "<"@);
    let t5 = replace_seq(t4, " >"@, ">"@);
    lemma_replace_len(t4, " >"@, ">"@);
    let t6 = replace_seq(t5, "> "@, ">"@);
    lemma_replace_len(t5, "> "@, ">"@);
    let t7 = replace_seq(t6, " ,"@, ","@);
    lemma_replace_len(t6, " ,"@, ","@);
    lemma_replace_len(t7, ", "@, ","@);
}

/// Strips `afast::` path prefixes and normalises whitespace in generic
/// type parameters.
pub fn normalize_rust_type(ty: &str) -> (r: String)
    ensures
        r@ == normalize(ty@),
{
    proof {
        reveal_strlit(" <");
        reveal_strlit("< ");
        reveal_strlit(" >");
        reveal_strlit("> ");
        reveal_strlit(" ,");
        reveal_strlit(", ");
    }
    let t = trim(ty);
    let t = strip_prefix_or_self(t.as_str(), "afast :: ");
    let t = strip_prefix_or_self(t.as_str(), "afast::");
    let t = replace(t.as_str(), " <", "<");
    let t = replace(t.as_str(), "< ", "<");
    let t = replace(t.as_str(), " >", ">");
    let t = replace(t.as_str(), "> ", ">");
    let t = replace(t.as_str(), " ,", ",");
    replace(t.as_str(), ", ", ",")
}

/// Whether a normalised type names `Option<..>`.
pub open spec fn is_option(n: Seq<char>) -> bool {
    "Option<"@.is_prefix_of(n)
}

/// Whether a normalised type names `Vec<..>`.
pub open spec fn is_vec(n: Seq<char>) -> bool {
    "Vec<"@.is_prefix_of(n)
}

/// Whether the argument of a generic type that begins with `open_len`
/// characters can be cut out: something follows the opening, and the last
/// character is a single byte (the generators slice by byte position).
pub open spec fn inner_ok(n: Seq<char>, open_len: int) -> bool {
    n.len() >= open_len + 1 && is_ascii_char(n.last())
}

/// The type argument of a generic type whose opening has `open_len`
/// characters: everything after the opening up to the last character.
pub open spec fn inner_of(n: Seq<char>, open_len: int) -> Seq<char> {
    n.subrange(open_len, n.len() - 1)
}

/// The inputs on which a walk over the type as written (not normalised)
/// terminates normally: every `Option<..>` and `Vec<..>` at its front can
/// be cut out.
pub open spec fn raw_ok(ty: Seq<char>) -> bool
    decreases ty.len(),
{
    if is_option(ty) {
        inner_ok(ty, 7) && raw_ok(inner_of(ty, 7))
    } else if is_vec(ty) {
        inner_ok(ty, 4) && raw_ok(inner_of(ty, 4))
    } else {
        true
    }
}

/// The inputs on which the type mappings terminate normally: every
/// `Option<..>` and `Vec<..>` met while descending into type arguments
/// can be cut out.
pub open spec fn type_ok(ty: Seq<char>) -> bool
    decreases ty.len(),
{
    let n = normalize(ty);
    if is_option(n) {
        inner_ok(n, 7) && {
            proof {
                lemma_normalize_len(ty);
            }
            type_ok(inner_of(n, 7))
        }
    } else if is_vec(n) {
        inner_ok(n, 4) && {
            proof {
                lemma_normalize_len(ty);
            }
            type_ok(inner_of(n, 4))
        }
    } else {
        true
    }
}

/// The C# type for a Rust type.
pub open spec fn cs_type(ty: Seq<char>) -> Seq<char>
    decreases ty.len(),
{
    let n = normalize(ty);
    if n == "i8"@ {
        "sbyte"@
    } else if n == "u8"@ {
        "byte"@
    } else if n == "i16"@ {
        "short"@
    } else if n == "u16"@ {
        "ushort"@
    } else if n == "i32"@ {
        "int"@
    } else if n == "u32"@ {
        "uint"@
    } else if n == "i64"@ {
        "long"@
    } else if n == "u64"@ || n == "usize"@ {
        "ulong"@
    } else if n == "f32"@ {
        "float"@
    } else if n == "f64"@ {
        "double"@
    } else if n == "bool"@ {
        "bool"@
    } else if n == "String"@ || n == "&str"@ {
        "string"@
    } else if n == "Vec<u8>"@ {
        "byte[]"@
    } else if is_option(n) && inner_ok(n, 7) {
        proof {
            lemma_normalize_len(ty);
        }
        cs_type(inner_of(n, 7)) + "?"@
    } else if is_vec(n) && inner_ok(n, 4) {
        proof {
            lemma_normalize_len(ty);
        }
        "List<"@ + cs_type(inner_of(n, 4)) + ">"@
    } else {
        n
    }
}

/// Whether a normalised type is one of the numeric primitives.
pub open spec fn is_number_type(n: Seq<char>) -> bool {
    ||| n == "i8"@
    ||| n == "i16"@
    ||| n == "i32"@
    ||| n == "i64"@
    ||| n == "u8"@
    ||| n == "u16"@
    ||| n == "u32"@
    ||| n == "u64"@
    ||| n == "usize"@
    ||| n == "f32"@
    ||| n == "f64"@
}

/// The JavaScript (JSDoc) type for a Rust type.
pub open spec fn js_type(ty: Seq<char>) -> Seq<char>
    decreases ty.len(),
{
    let n = normalize(ty);
    if is_number_type(n) {
        "number"@
    } else if n == "bool"@ {
        "boolean"@
    } else if n == "String"@ || n == "&str"@ {
        "string"@
    } else if n == "Vec<u8>"@ {
        "Uint8Array"@
    } else if is_option(n) && inner_ok(n, 7) {
        proof {
            lemma_normalize_len(ty);
        }
        js_type(inner_of(n, 7)) + "|null"@
    } else if is_vec(n) && inner_ok(n, 4) {
        proof {
            lemma_normalize_len(ty);
        }
        js_array_of(js_type(inner_of(n, 4)))
    } else {
        n
    }
}

/// The JSDoc array type of elements of type `e`; a union element type is
/// parenthesised, so that `[]` applies to the whole union.
pub open spec fn js_array_of(e: Seq<char>) -> Seq<char> {
    if e.contains('|') {
        "("@ + e + ")[]"@
    } else {
        e + "[]"@
    }
}

/// The Rust client type for a Rust server type.
pub open spec fn rs_type(ty: Seq<char>) -> Seq<char>
    decreases ty.len(),
{
    let n = normalize(ty);
    if n == "i8"@ || n == "u8"@ || n == "i16"@ || n == "u16"@ || n == "i32"@ || n == "u32"@
        || n == "i64"@ || n == "u64"@ || n == "f32"@ || n == "f64"@ || n == "bool"@ || n
        == "String"@ || n == "Vec<u8>"@ {
        n
    } else if n == "usize"@ {
        "u64"@
    } else if n == "&str"@ {
        "String"@
    } else if is_option(n) && inner_ok(n, 7) {
        proof {
            lemma_normalize_len(ty);
        }
        "Option<"@ + rs_type(inner_of(n, 7)) + ">"@
    } else if is_vec(n) && inner_ok(n, 4) {
        proof {
            lemma_normalize_len(ty);
        }
        "Vec<"@ + rs_type(inner_of(n, 4)) + ">"@
    } else {
        n
    }
}

/// Facts about a normalised type string that the exec mappings need.
pub struct Shape {
    /// The normalised type.
    pub norm: String,
    /// Whether it names `Option<..>`.
    pub option: bool,
    /// Whether it names `Vec<..>`.
    pub vec: bool,
}

/// Normalises `ty` and classifies it as `Option<..>`, `Vec<..>` or neither.
pub fn shape_of(ty: &str) -> (r: Shape)
    ensures
        r.norm@ == normalize(ty@),
        r.option == is_option(normalize(ty@)),
        r.vec == is_vec(normalize(ty@)),
{
    let norm = normalize_rust_type(ty);
    let option = starts_with(norm.as_str(), "Option<");
    let vec = starts_with(norm.as_str(), "Vec<");
    Shape { norm, option, vec }
}

/// Cuts the type argument out of a generic type whose opening has
/// `open_len` characters.
pub fn inner_type(n: &str, open_len: usize) -> (r: String)
    requires
        inner_ok(n@, open_len as int),
    ensures
        r@ == inner_of(n@, open_len as int),
{
    let v = chars_of(n);
    string_of_range(&v, open_len, v.len() - 1)
}

/// Whether the argument of `Option<..>` or `Vec<..>` in `n` can be cut out.
pub fn check_inner(n: &str, open_len: usize) -> (r: bool)
    ensures
        r == inner_ok(n@, open_len as int),
{
    let v = chars_of(n);
    v.len() > open_len && (v[v.len() - 1] as u32) < 128
}

/// Maps a Rust type to the corresponding C# type.
pub fn rust_type_to_cs(ty: &str) -> (r: String)
    requires
        type_ok(ty@),
    ensures
        r@ == cs_type(ty@),
    decreases ty@.len(),
{
    proof {
        reveal_strlit("Option<");
        reveal_strlit("Vec<");
        lemma_normalize_len(ty@);
    }
    let sh = shape_of(ty);
    let n = sh.norm.as_str();
    if str_eq(n, "i8") {
        owned("sbyte")
    } else if str_eq(n, "u8") {
        owned("byte")
    } else if str_eq(n, "i16") {
        owned("short")
    } else if str_eq(n, "u16") {
        owned("ushort")
    } else if str_eq(n, "i32") {
        owned("int")
    } else if str_eq(n, "u32") {
        owned("uint")
    } else if str_eq(n, "i64") {
        owned("long")
    } else if str_eq(n, "u64") || str_eq(n, "usize") {
        owned("ulong")
    } else if str_eq(n, "f32") {
        owned("float")
    } else if str_eq(n, "f64") {
        owned("double")
    } else if str_eq(n, "bool") {
        owned("bool")
    } else if str_eq(n, "String") || str_eq(n, "&str") {
        owned("string")
    } else if str_eq(n, "Vec<u8>") {
        owned("byte[]")
    } else if sh.option && check_inner(n, 7) {
        let inner = inner_type(n, 7);
        let m = rust_type_to_cs(inner.as_str());
        cat2(m.as_str(), "?")
    } else if sh.vec && check_inner(n, 4) {
        let inner = inner_type(n, 4);
        let m = rust_type_to_cs(inner.as_str());
        cat3("List<", m.as_str(), ">")
    } else {
        owned(n)
    }
}

fn has_char(s: &str, c: char) -> (r: bool)
    ensures
        r == s@.contains(c),
{
    let v = chars_of(s);
    let mut i: usize = 0;
    while i < v.len()
        invariant
            v@ == s@,
            i <= v@.len(),
            forall|j: int| 0 <= j < i ==> v@[j] != c,
        decreases v@.len() - i,
    {
        if v[i] == c {
            assert(s@[i as int] == c);
            return true;
        }
        i = i + 1;
    }
    false
}

/// Maps a Rust type to the JavaScript type used in JSDoc annotations.
pub fn rust_type_to_js(ty: &str) -> (r: String)
    requires
        type_ok(ty@),
    ensures
        r@ == js_type(ty@),
    decreases ty@.len(),
{
    proof {
        reveal_strlit("Option<");
        reveal_strlit("Vec<");
        lemma_normalize_len(ty@);
    }
    let sh = shape_of(ty);
    let n = sh.norm.as_str();
    if str_eq(n, "i8") || str_eq(n, "i16") || str_eq(n, "i32") || str_eq(n, "i64") || str_eq(
        n,
        "u8",
    ) || str_eq(n, "u16") || str_eq(n, "u32") || str_eq(n, "u64") || str_eq(n, "usize")
        || str_eq(n, "f32") || str_eq(n, "f64") {
        owned("number")
    } else if str_eq(n, "bool") {
        owned("boolean")
    } else if str_eq(n, "String") || str_eq(n, "&str") {
        owned("string")
    } else if str_eq(n, "Vec<u8>") {
        owned("Uint8Array")
    } else if sh.option && check_inner(n, 7) {
        let inner = inner_type(n, 7);
        let m = rust_type_to_js(inner.as_str());
        cat2(m.as_str(), "|null")
    } else if sh.vec && check_inner(n, 4) {
        let inner = inner_type(n, 4);
        let m = rust_type_to_js(inner.as_str());
        if has_char(m.as_str(), '|') {
            cat3("(", m.as_str(), ")[]")
        } else {
            cat2(m.as_str(), "[]")
        }
    } else {
        owned(n)
    }
}

/// Maps a Rust server type to the Rust client type.
pub fn rust_type_to_rs(ty: &str) -> (r: String)
    requires
        type_ok(ty@),
    ensures
        r@ == rs_type(ty@),
    decreases ty@.len(),
{
    proof {
        reveal_strlit("Option<");
        reveal_strlit("Vec<");
        lemma_normalize_len(ty@);
    }
    let sh = shape_of(ty);
    let n = sh.norm.as_str();
    if str_eq(n, "i8") || str_eq(n, "u8") || str_eq(n, "i16") || str_eq(n, "u16") || str_eq(
        n,
        "i32",
    ) || str_eq(n, "u32") || str_eq(n, "i64") || str_eq(n, "u64") || str_eq(n, "f32")
        || str_eq(n, "f64") || str_eq(n, "bool") || str_eq(n, "String") || str_eq(n, "Vec<u8>") {
        owned(n)
    } else if str_eq(n, "usize") {
        owned("u64")
    } else if str_eq(n, "&str") {
        owned("String")
    } else if sh.option && check_inner(n, 7) {
        let inner = inner_type(n, 7);
        let m = rust_type_to_rs(inner.as_str());
        cat3("Option<", m.as_str(), ">")
    } else if sh.vec && check_inner(n, 4) {
        let inner = inner_type(n, 4);
        let m = rust_type_to_rs(inner.as_str());
        cat3("Vec<", m.as_str(), ">")
    } else {
        owned(n)
    }
}

/// The inner type of `Json<T>`, normalised, when `ty` names `Json<T>`.
pub open spec fn json_inner(ty: Seq<char>) -> Option<Seq<char>> {
    let n = normalize(ty);
    if "Json<"@.is_prefix_of(n) && n.len() > 0 && n.last() == '>' {
        Some(normalize(trim_seq(n.subrange(5, n.len() - 1))))
    } else {
        None
    }
}

/// If the given Rust type is `Json<T>`, returns the inner type `T`.
pub fn unwrap_json_type(ty: &str) -> (r: Option<String>)
    ensures
        r matches Some(s) ==> json_inner(ty@) == Some(s@),
        r is None ==> json_inner(ty@) is None,
{
    proof {
        reveal_strlit("Json<");
    }
    let n = normalize_rust_type(ty);
    if starts_with(n.as_str(), "Json<") && ends_with_char(n.as_str(), '>') {
        let v = chars_of(n.as_str());
        proof {
            if v@.len() == 5 {
                assert(v@[4] == "Json<"@[4]);
            }
        }
        let inner = string_of_range(&v, 5, v.len() - 1);
        let t = trim(inner.as_str());
        Some(normalize_rust_type(t.as_str()))
    } else {
        None
    }
}

/// The property initialiser C# needs for a type (`string`, `byte[]`, lists).
pub open spec fn cs_default_of(ty: Seq<char>) -> Seq<char> {
    if ty == "string"@ {
        " = \"\";"@
    } else if ty == "byte[]"@ {
        " = Array.Empty<byte>();"@
    } else if "List<"@.is_prefix_of(ty) {
        " = new();"@
    } else {
        ""@
    }
}

/// Returns the default-value suffix of a C# class property of type `ty`.
pub fn cs_default_value(ty: &str) -> (r: &'static str)
    ensures
        r@ == cs_default_of(ty@),
{
    if str_eq(ty, "string") {
        " = \"\";"
    } else if str_eq(ty, "byte[]") {
        " = Array.Empty<byte>();"
    } else if starts_with(ty, "List<") {
        " = new();"
    } else {
        ""
    }
}

/// Whether a type string names a primitive the documentation UI can edit directly.
pub open spec fn is_primitive_type(ty: Seq<char>) -> bool {
    is_number_type(ty) || ty == "bool"@ || ty == "String"@ || ty == "&str"@
}

/// Returns `true` for the primitive Rust types.
pub fn is_primitive(ty: &str) -> (r: bool)
    ensures
        r == is_primitive_type(ty@),
{
    str_eq(ty, "i8") || str_eq(ty, "i16") || str_eq(ty, "i32") || str_eq(ty, "i64") || str_eq(
        ty,
        "u8",
    ) || str_eq(ty, "u16") || str_eq(ty, "u32") || str_eq(ty, "u64") || str_eq(ty, "usize")
        || str_eq(ty, "f32") || str_eq(ty, "f64") || str_eq(ty, "bool") || str_eq(ty, "String")
        || str_eq(ty, "&str")
}

} // verus!
