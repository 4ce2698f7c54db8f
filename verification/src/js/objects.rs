//! The nested object of handler methods that a JavaScript client exposes.

use vstd::prelude::*;
use crate::buf::{build_lines, CodeBuf};
use crate::cs::exports::prefix_ok;
use crate::cs::objects::{lemma_objects_within_at, objects_within};
use crate::cs::ordinary::ordinary_return_ok;
use crate::js::methods::{handler_method_js, js_method_text};
use crate::js::ordinary::{ordinary_handler_method_js, ordinary_js_text};
use crate::meta_spec::handler_meta_ok;
use crate::model::{Handler, HandlerMeta, ParamMeta};
use crate::naming::{handler_prefix, handler_prefix_of, ordinary_suffix, ordinary_suffix_of, prefixed, prefixed_type};
use crate::params::{data_var, data_var_name, lemma_with_extractor_step, with_extractor};
use crate::text::{cat2, cat3, cat4, cat5, cat6, join, join_seq, owned, starts_with, str_eq, trim_start_char, trim_start_matches, views};
use crate::typemap::{js_type, json_inner, normalize, normalize_rust_type, rust_type_to_js, type_ok, unwrap_json_type};

verus! {

/// The request label of an ordinary parameter's extractor.
pub open spec fn request_label(e: Seq<char>) -> Seq<char> {
    if e == "Query"@ {
        "queries"@
    } else if e == "Param"@ {
        "params"@
    } else {
        "body"@
    }
}

/// A ` - description` suffix when the description is not empty.
pub open spec fn desc_suffix(desc: Seq<char>) -> Seq<char> {
    if desc.len() > 0 {
        " - "@ + desc
    } else {
        Seq::empty()
    }
}

/// The `@param` lines of an ordinary handler's request parts.
pub open spec fn ordinary_param_docs(ii: Seq<char>, prefix: Seq<char>, ps: Seq<ParamMeta>) -> Seq<Seq<char>>
    decreases ps.len(),
{
    if ps.len() == 0 {
        Seq::empty()
    } else {
        let rest = ordinary_param_docs(ii, prefix, ps.drop_last());
        let p = ps.last();
        let e = p.extractor@;
        if e == "Query"@ || e == "Param"@ || e == "Body"@ {
            match p.structure {
                Some(s) => {
                    let label = request_label(e);
                    let tn = prefix + ordinary_suffix_of(e, 0);
                    rest.push(
                        ii + " * @param {{"@ + label + ": "@ + tn + "}} request."@ + label + desc_suffix(s.desc@),
                    )
                },
                None => rest,
            }
        } else {
            rest
        }
    }
}

/// A returned type name, marked nullable for an `Option` and as an array
/// for a `Vec`.
pub open spec fn returned_name(tn: Seq<char>, rt: Seq<char>) -> Seq<char> {
    let n = normalize(rt);
    if "Option<"@.is_prefix_of(n) {
        tn + " | null"@
    } else if "Vec<"@.is_prefix_of(n) {
        tn + "[]"@
    } else {
        tn
    }
}

/// The documentation comment of an ordinary handler's method.
pub open spec fn ordinary_doc(ii: Seq<char>, prefix: Seq<char>, meta: HandlerMeta) -> Seq<Seq<char>> {
    let head = seq![ii + "/**"@] + if meta.desc@.len() > 0 {
        seq![ii + " * "@ + meta.desc@, ii + " *"@]
    } else {
        Seq::empty()
    };
    let rets = if meta.return_type@ != "()"@ {
        match meta.return_structure {
            Some(s) => seq![
                ii + " * @returns {Promise<"@ + returned_name(prefix + "Response"@, meta.return_type@) + ">}"@
                    + if s.desc@.len() > 0 { " "@ + s.desc@ } else { Seq::empty() },
            ],
            None => match json_inner(meta.return_type@) {
                Some(inner) => seq![ii + " * @returns {Promise<"@ + js_type(inner) + ">}"@],
                None => Seq::empty(),
            },
        }
    } else {
        Seq::empty()
    };
    head + ordinary_param_docs(ii, prefix, meta.params@) + rets + seq![ii + " */"@]
}

/// The `@param` lines of a binary handler's `Data` values.
pub open spec fn data_param_docs(ii: Seq<char>, prefix: Seq<char>, ds: Seq<ParamMeta>) -> Seq<Seq<char>>
    decreases ds.len(),
{
    if ds.len() == 0 {
        Seq::empty()
    } else {
        let rest = data_param_docs(ii, prefix, ds.drop_last());
        match ds.last().structure {
            Some(s) => rest.push(
                ii + " * @param {"@ + prefixed(prefix, s.name@) + "} "@ + data_var((ds.len() - 1) as nat)
                    + desc_suffix(s.desc@),
            ),
            None => rest,
        }
    }
}

/// The documentation comment of a binary handler's method.
pub open spec fn binary_doc(ii: Seq<char>, prefix: Seq<char>, meta: HandlerMeta) -> Seq<Seq<char>> {
    let head = seq![ii + "/**"@] + (if meta.desc@.len() > 0 {
        seq![ii + " * "@ + meta.desc@]
    } else {
        Seq::empty()
    }) + seq![ii + " *"@];
    let rets = if meta.return_type@ != "()"@ {
        match meta.return_structure {
            Some(s) => seq![
                ii + " * @returns {Promise<"@ + returned_name(prefixed(prefix, s.name@), meta.return_type@)
                    + ">}"@ + if s.desc@.len() > 0 { " "@ + s.desc@ } else { Seq::empty() },
            ],
            None => seq![ii + " * @returns {Promise<Object>}"@],
        }
    } else if meta.long_connection {
        seq![ii + " * @returns {Promise<Socket>}"@]
    } else {
        Seq::empty()
    };
    head + data_param_docs(ii, prefix, with_extractor(meta.params@, "Data"@)) + rets + seq![ii + " */"@]
}

/// The lines of a leaf handler: its documentation and its method.
pub open spec fn leaf_lines(
    h: Handler,
    all: Seq<Handler>,
    path: Seq<Seq<char>>,
    indent: Seq<char>,
    header_count: nat,
    debug: bool,
    class_name: Seq<char>,
) -> Seq<Seq<char>> {
    let ii = indent + "    "@;
    let cp = path.push(h.name@);
    let prefix = handler_prefix_of(cp);
    let key = join_seq(cp, "."@);
    if h.meta.is_ordinary {
        ordinary_doc(ii, prefix, h.meta) + seq![
            ordinary_js_text(h, path, indent, header_count, debug, class_name, key),
        ]
    } else {
        binary_doc(ii, prefix, h.meta) + seq![js_method_text(h, all, indent, debug, class_name, key)]
    }
}

/// The lines of the object literal of the handler tree `hs` below `path`:
/// a nested object per group node, a documented method per named handler.
pub open spec fn object_lines(
    hs: Seq<Handler>,
    all: Seq<Handler>,
    path: Seq<Seq<char>>,
    indent: Seq<char>,
    header_count: nat,
    debug: bool,
    class_name: Seq<char>,
) -> Seq<Seq<char>>
    decreases hs,
{
    if hs.len() == 0 {
        Seq::empty()
    } else {
        let h = hs.last();
        let ii = indent + "    "@;
        let cp = path.push(h.name@);
        object_lines(hs.drop_last(), all, path, indent, header_count, debug, class_name) + if h.meta.name@.len()
            == 0 {
            seq![
                ii + trim_start_char(h.name@, ':') + ": {"@,
                build_lines(object_lines(h.children@, all, cp, ii, header_count, debug, class_name)),
                ii + "},"@,
            ]
        } else {
            leaf_lines(h, all, path, indent, header_count, debug, class_name)
        }
    }
}

fn returned_name_text(tn: &str, rt: &str) -> (r: String)
    ensures
        r@ == returned_name(tn@, rt@),
{
    let n = normalize_rust_type(rt);
    if starts_with(n.as_str(), "Option<") {
        cat2(tn, " | null")
    } else if starts_with(n.as_str(), "Vec<") {
        cat2(tn, "[]")
    } else {
        owned(tn)
    }
}

fn returns_desc(desc: &str) -> (r: String)
    ensures
        r@ == if desc@.len() > 0 { " "@ + desc@ } else { Seq::<char>::empty() },
{
    if desc.unicode_len() > 0 {
        cat2(" ", desc)
    } else {
        String::new()
    }
}

fn desc_suffix_text(desc: &str) -> (r: String)
    ensures
        r@ == desc_suffix(desc@),
{
    if desc.unicode_len() > 0 {
        cat2(" - ", desc)
    } else {
        String::new()
    }
}

fn push_ordinary_doc(cb: &mut CodeBuf, ii: &str, prefix: &str, meta: &HandlerMeta)
    requires
        ordinary_return_ok(*meta),
    ensures
        final(cb)@ == old(cb)@ + ordinary_doc(ii@, prefix@, *meta),
{
    let ghost start = cb@;
    cb.push(cat2(ii, "/**"));
    if meta.desc.unicode_len() > 0 {
        cb.push(cat3(ii, " * ", meta.desc.as_str()));
        cb.push(cat2(ii, " *"));
    }
    let ghost s1 = cb@;
    let ps = &meta.params;
    let mut i: usize = 0;
    while i < ps.len()
        invariant
            i <= ps@.len(),
            cb@ == s1 + ordinary_param_docs(ii@, prefix@, ps@.subrange(0, i as int)),
        decreases ps@.len() - i,
    {
        let p = &ps[i];
        proof {
            assert(ps@.subrange(0, i + 1).drop_last() =~= ps@.subrange(0, i as int));
            assert(ps@.subrange(0, i + 1).last() == *p);
        }
        let e = p.extractor.as_str();
        if str_eq(e, "Query") || str_eq(e, "Param") || str_eq(e, "Body") {
            match &p.structure {
                Some(s) => {
                    let label = if str_eq(e, "Query") {
                        "queries"
                    } else if str_eq(e, "Param") {
                        "params"
                    } else {
                        "body"
                    };
                    let suffix = ordinary_suffix(e, 0);
                    let tn = cat2(prefix, suffix.as_str());
                    let ds = desc_suffix_text(s.desc.as_str());
                    let a = cat6(ii, " * @param {{", label, ": ", tn.as_str(), "}} request.");
                    let line = cat3(a.as_str(), label, ds.as_str());
                    assert(line@ =~= ii@ + " * @param {{"@ + request_label(e@) + ": "@ + (prefix@ + ordinary_suffix_of(e@, 0))
                        + "}} request."@ + request_label(e@) + desc_suffix(s.desc@));
                    cb.push(line);
                },
                None => {},
            }
        }
        i = i + 1;
    }
    assert(ps@.subrange(0, ps@.len() as int) =~= ps@);
    let ghost s2 = cb@;
    if !str_eq(meta.return_type.as_str(), "()") {
        match &meta.return_structure {
            Some(s) => {
                let tn = cat2(prefix, "Response");
                let rn = returned_name_text(tn.as_str(), meta.return_type.as_str());
                let d = returns_desc(s.desc.as_str());
                cb.push(cat5(ii, " * @returns {Promise<", rn.as_str(), ">}", d.as_str()));
            },
            None => {
                match unwrap_json_type(meta.return_type.as_str()) {
                    Some(inner) => {
                        let t = rust_type_to_js(inner.as_str());
                        cb.push(cat4(ii, " * @returns {Promise<", t.as_str(), ">}"));
                    },
                    None => {},
                }
            },
        }
    }
    cb.push(cat2(ii, " */"));
    assert(cb@ =~= start + ordinary_doc(ii@, prefix@, *meta));
}

fn push_binary_doc(cb: &mut CodeBuf, ii: &str, prefix: &str, meta: &HandlerMeta)
    requires
        prefix_ok(prefix@, *meta),
    ensures
        final(cb)@ == old(cb)@ + binary_doc(ii@, prefix@, *meta),
{
    let ghost start = cb@;
    cb.push(cat2(ii, "/**"));
    if meta.desc.unicode_len() > 0 {
        cb.push(cat3(ii, " * ", meta.desc.as_str()));
    }
    cb.push(cat2(ii, " *"));
    let ghost s1 = cb@;
    let ps = &meta.params;
    let mut i: usize = 0;
    let mut k: usize = 0;
    while i < ps.len()
        invariant
            prefix_ok(prefix@, *meta),
            ps == &meta.params,
            i <= ps@.len(),
            k == with_extractor(ps@.subrange(0, i as int), "Data"@).len(),
            cb@ == s1 + data_param_docs(ii@, prefix@, with_extractor(ps@.subrange(0, i as int), "Data"@)),
        decreases ps@.len() - i,
    {
        let p = &ps[i];
        proof {
            lemma_with_extractor_step(ps@, i as int, "Data"@);
        }
        if str_eq(p.extractor.as_str(), "Data") {
            let ghost pre = with_extractor(ps@.subrange(0, i as int), "Data"@);
            proof {
                assert(pre.push(*p).drop_last() =~= pre);
            }
            match &p.structure {
                Some(s) => {
                    assert(ps@[i as int].structure is Some);
                    let tn = prefixed_type(prefix, s.name.as_str());
                    let v = data_var_name(k);
                    let ds = desc_suffix_text(s.desc.as_str());
                    let line = cat6(ii, " * @param {", tn.as_str(), "} ", v.as_str(), ds.as_str());
                    cb.push(line);
                },
                None => {},
            }
            k = k + 1;
        }
        i = i + 1;
    }
    assert(ps@.subrange(0, ps@.len() as int) =~= ps@);
    if !str_eq(meta.return_type.as_str(), "()") {
        match &meta.return_structure {
            Some(s) => {
                let tn = prefixed_type(prefix, s.name.as_str());
                let rn = returned_name_text(tn.as_str(), meta.return_type.as_str());
                let d = returns_desc(s.desc.as_str());
                cb.push(cat5(ii, " * @returns {Promise<", rn.as_str(), ">}", d.as_str()));
            },
            None => {
                cb.push(cat2(ii, " * @returns {Promise<Object>}"));
            },
        }
    } else if meta.long_connection {
        cb.push(cat2(ii, " * @returns {Promise<Socket>}"));
    }
    cb.push(cat2(ii, " */"));
    assert(cb@ =~= start + binary_doc(ii@, prefix@, *meta));
}

fn leaf_lines_js(
    cb: &mut CodeBuf,
    h: &Handler,
    all: &Vec<Handler>,
    path: &Vec<String>,
    child_path: &Vec<String>,
    indent: &str,
    ii: &str,
    header_count: usize,
    debug: bool,
    class_name: &str,
)
    requires
        ii@ == indent@ + "    "@,
        views(child_path@) == views(path@).push(h.name@),
        handler_meta_ok(h.meta),
        h.meta.cache_seconds <= 18446744073709551,
        h.meta.is_ordinary ==> ordinary_return_ok(h.meta),
        !h.meta.is_ordinary ==> prefix_ok(handler_prefix_of(views(child_path@)), h.meta),
    ensures
        final(cb)@ == old(cb)@ + leaf_lines(*h, all@, views(path@), indent@, header_count as nat, debug, class_name@),
{
    let prefix = handler_prefix(child_path);
    let cache_key = join(child_path, ".");
    let ghost start = cb@;
    if h.meta.is_ordinary {
        push_ordinary_doc(cb, ii, prefix.as_str(), &h.meta);
        let text = ordinary_handler_method_js(h, prefix.as_str(), path, indent, header_count, debug, class_name, cache_key.as_str());
        cb.push(text);
    } else {
        push_binary_doc(cb, ii, prefix.as_str(), &h.meta);
        let text = handler_method_js(h, all, prefix.as_str(), indent, debug, class_name, cache_key.as_str());
        cb.push(text);
    }
    assert(cb@ =~= start + leaf_lines(*h, all@, views(path@), indent@, header_count as nat, debug, class_name@));
}

/// The longest cache lifetime, in seconds, whose JavaScript millisecond
/// count fits in 64 bits.
pub open spec fn js_cache_limit() -> int {
    18446744073709551
}

/// The handlers of a tree can all be turned into JavaScript methods.
pub open spec fn js_object_ok(hs: Seq<Handler>, path: Seq<Seq<char>>) -> bool {
    objects_within(hs, path, js_cache_limit())
}

/// Generates the object literal of handler methods for the tree `handlers`
/// below `path`: nested objects for groups, a documented method per named
/// handler.
pub fn generate_handler_object_js(
    handlers: &Vec<Handler>,
    all_handlers: &Vec<Handler>,
    path: &Vec<String>,
    indent: &str,
    emitted: &mut Vec<String>,
    seq64: bool,
    header_count: usize,
    debug: bool,
    class_name: &str,
) -> (r: String)
    requires
        js_object_ok(handlers@, views(path@)),
    ensures
        r@ == build_lines(object_lines(handlers@, all_handlers@, views(path@), indent@, header_count as nat, debug, class_name@)),
        final(emitted)@ == old(emitted)@,
    decreases handlers,
{
    let mut cb = CodeBuf::new();
    let ii = cat2(indent, "    ");
    let mut i: usize = 0;
    while i < handlers.len()
        invariant
            js_object_ok(handlers@, views(path@)),
            i <= handlers@.len(),
            ii@ == indent@ + "    "@,
            emitted@ == old(emitted)@,
            cb@ == object_lines(
                handlers@.subrange(0, i as int),
                all_handlers@,
                views(path@),
                indent@,
                header_count as nat,
                debug,
                class_name@,
            ),
        decreases handlers@.len() - i,
    {
        let h = &handlers[i];
        proof {
            lemma_objects_within_at(handlers@, views(path@), js_cache_limit(), i as int);
            assert(handlers@.subrange(0, i + 1).drop_last() =~= handlers@.subrange(0, i as int));
            assert(handlers@.subrange(0, i + 1).last() == *h);
        }
        let mut child_path: Vec<String> = path.clone();
        let ghost p0 = child_path@;
        child_path.push(owned(h.name.as_str()));
        assert(views(child_path@) =~= views(path@).push(h.name@)) by {
            assert(views(p0) =~= views(path@));
        }
        let ghost c0 = cb@;
        if h.meta.name.unicode_len() == 0 {
            assert(decreases_to!(handlers => h.children));
            let child = generate_handler_object_js(
                &h.children,
                all_handlers,
                &child_path,
                ii.as_str(),
                emitted,
                seq64,
                header_count,
                debug,
                class_name,
            );
            let clean = trim_start_matches(h.name.as_str(), ':');
            cb.push(cat3(ii.as_str(), clean.as_str(), ": {"));
            cb.push(child);
            cb.push(cat2(ii.as_str(), "},"));
        } else {
            leaf_lines_js(&mut cb, h, all_handlers, path, &child_path, indent, ii.as_str(), header_count, debug, class_name);
        }
        i = i + 1;
    }
    assert(handlers@.subrange(0, handlers@.len() as int) =~= handlers@);
    cb.build()
}

} // verus!
