//! The nested C# classes that group a service's handlers, and the methods
//! placed in them.

use vstd::prelude::*;
use crate::buf::CodeBuf;
use crate::cs::exports::prefix_ok;
use crate::cs::methods::{handler_method_cs, method_text};
use crate::cs::ordinary::{ordinary_handler_method_cs, ordinary_return_ok, ordinary_text};
use crate::meta_spec::handler_meta_ok;
use crate::model::Handler;
use crate::naming::{camel, handler_prefix, handler_prefix_of, pascal, to_camel_case, to_pascal_case};
use crate::text::{cat2, cat3, cat4, cat5, join, join_seq, owned, trim_start_char, trim_start_matches, views};

verus! {

/// The class name of a group node: its name without leading `:`, in
/// PascalCase, followed by `Api`.
pub open spec fn group_class(name: Seq<char>) -> Seq<char> {
    pascal(trim_start_char(name, ':')) + "Api"@
}

/// The lines that open a group's nested class.
pub open spec fn group_open(inner: Seq<char>, gcn: Seq<char>, svc: Seq<char>) -> Seq<Seq<char>> {
    seq![
        inner + "public class "@ + gcn,
        inner + "{"@,
        inner + "    private readonly "@ + svc + "Client _client;"@,
        inner + "    public "@ + gcn + "("@ + svc + "Client client) { _client = client; }"@,
        Seq::empty(),
    ]
}

/// The lines that close a group's nested class and expose it as a property.
pub open spec fn group_close(inner: Seq<char>, gcn: Seq<char>, prop: Seq<char>) -> Seq<Seq<char>> {
    seq![
        inner + "}"@,
        Seq::empty(),
        inner + "public "@ + gcn + " "@ + prop + " { get; }"@,
        Seq::empty(),
    ]
}

/// The handlers of a tree can all be turned into methods: each named
/// handler is well formed, its cache lifetime is at most `limit` seconds,
/// and its type names (or, for an ordinary handler, its return type) can be
/// formed.
pub open spec fn objects_within(hs: Seq<Handler>, path: Seq<Seq<char>>, limit: int) -> bool
    decreases hs,
{
    if hs.len() == 0 {
        true
    } else {
        let h = hs.last();
        let cp = path.push(h.name@);
        &&& objects_within(hs.drop_last(), path, limit)
        &&& (h.meta.name@.len() > 0 ==> {
            &&& handler_meta_ok(h.meta)
            &&& h.meta.cache_seconds <= limit
            &&& (h.meta.is_ordinary ==> ordinary_return_ok(h.meta))
            &&& (!h.meta.is_ordinary ==> prefix_ok(handler_prefix_of(cp), h.meta))
        })
        &&& objects_within(h.children@, cp, limit)
    }
}

/// The longest cache lifetime, in seconds, whose C# tick count (ten
/// million per second) fits in 64 bits.
pub open spec fn cs_cache_limit() -> int {
    1844674407370
}

/// The handlers of a tree can all be turned into C# methods.
pub open spec fn object_ok(hs: Seq<Handler>, path: Seq<Seq<char>>) -> bool {
    objects_within(hs, path, cs_cache_limit())
}

/// The lines of the client classes for the handler tree `hs` below `path`:
/// a nested class per group node, a method per named handler.
pub open spec fn handler_object(
    hs: Seq<Handler>,
    path: Seq<Seq<char>>,
    indent: Seq<char>,
    svc: Seq<char>,
    debug: bool,
) -> Seq<Seq<char>>
    decreases hs, 1nat,
{
    if hs.len() == 0 {
        Seq::empty()
    } else {
        handler_object(hs.drop_last(), path, indent, svc, debug) + object_node(hs.last(), path, indent, svc, debug)
    }
}

/// The lines for one node below `path`: a group's nested class with its
/// children, or a handler's method.
pub open spec fn object_node(h: Handler, path: Seq<Seq<char>>, indent: Seq<char>, svc: Seq<char>, debug: bool) -> Seq<
    Seq<char>,
>
    decreases h, 0nat,
{
    let inner = indent + "    "@;
    if h.meta.name@.len() == 0 {
        let gcn = group_class(h.name@);
        group_open(inner, gcn, svc) + handler_object(h.children@, path.push(h.name@), inner, svc, debug)
            + group_close(inner, gcn, camel(trim_start_char(h.name@, ':')))
    } else {
        seq![leaf_text(h, path, inner, svc, debug)]
    }
}

/// The method of a named handler `h` below `path`.
pub open spec fn leaf_text(
    h: Handler,
    path: Seq<Seq<char>>,
    inner: Seq<char>,
    svc: Seq<char>,
    debug: bool,
) -> Seq<char> {
    let cp = path.push(h.name@);
    let prefix = handler_prefix_of(cp);
    let key = join_seq(cp, "."@);
    if h.meta.is_ordinary {
        ordinary_text(h, prefix, path, inner, debug, svc, key)
    } else {
        method_text(h, prefix, inner, svc, key)
    }
}

/// The class names of the group nodes of a tree, depth first.
pub open spec fn group_names(hs: Seq<Handler>) -> Seq<Seq<char>>
    decreases hs,
{
    if hs.len() == 0 {
        Seq::empty()
    } else {
        let h = hs.last();
        group_names(hs.drop_last()) + if h.meta.name@.len() == 0 {
            seq![group_class(h.name@)] + group_names(h.children@)
        } else {
            Seq::empty()
        }
    }
}

pub proof fn lemma_objects_within_at(hs: Seq<Handler>, path: Seq<Seq<char>>, limit: int, i: int)
    requires
        objects_within(hs, path, limit),
        0 <= i < hs.len(),
    ensures
        ({
            let h = hs[i];
            let cp = path.push(h.name@);
            &&& (h.meta.name@.len() > 0 ==> {
                &&& handler_meta_ok(h.meta)
                &&& h.meta.cache_seconds <= limit
                &&& (h.meta.is_ordinary ==> ordinary_return_ok(h.meta))
                &&& (!h.meta.is_ordinary ==> prefix_ok(handler_prefix_of(cp), h.meta))
            })
            &&& objects_within(h.children@, cp, limit)
        }),
    decreases hs.len(),
{
    if i < hs.len() - 1 {
        lemma_objects_within_at(hs.drop_last(), path, limit, i);
    }
}

pub proof fn lemma_object_ok_at(hs: Seq<Handler>, path: Seq<Seq<char>>, i: int)
    requires
        object_ok(hs, path),
        0 <= i < hs.len(),
    ensures
        ({
            let h = hs[i];
            let cp = path.push(h.name@);
            &&& (h.meta.name@.len() > 0 ==> {
                &&& handler_meta_ok(h.meta)
                &&& h.meta.cache_seconds <= 1844674407370
                &&& (h.meta.is_ordinary ==> ordinary_return_ok(h.meta))
                &&& (!h.meta.is_ordinary ==> prefix_ok(handler_prefix_of(cp), h.meta))
            })
            &&& object_ok(h.children@, cp)
        }),
{
    lemma_objects_within_at(hs, path, cs_cache_limit(), i);
}

fn group_class_text(name: &str) -> (r: String)
    ensures
        r@ == group_class(name@),
{
    let clean = trim_start_matches(name, ':');
    let p = to_pascal_case(clean.as_str());
    cat2(p.as_str(), "Api")
}

/// Appends the class names of the group nodes of `handlers`, depth first.
pub fn collect_group_names_cs(handlers: &Vec<Handler>, names: &mut Vec<String>)
    ensures
        views(final(names)@) == views(old(names)@) + group_names(handlers@),
    decreases handlers,
{
    let mut i: usize = 0;
    while i < handlers.len()
        invariant
            i <= handlers@.len(),
            views(names@) == views(old(names)@) + group_names(handlers@.subrange(0, i as int)),
        decreases handlers@.len() - i,
    {
        let h = &handlers[i];
        proof {
            assert(handlers@.subrange(0, i + 1).drop_last() =~= handlers@.subrange(0, i as int));
            assert(handlers@.subrange(0, i + 1).last() == *h);
        }
        let ghost n0 = views(names@);
        if h.meta.name.unicode_len() == 0 {
            let gcn = group_class_text(h.name.as_str());
            names.push(gcn);
            assert(views(names@) =~= n0.push(group_class(h.name@)));
            assert(decreases_to!(handlers => h.children));
            collect_group_names_cs(&h.children, names);
            assert(views(names@) =~= n0 + (seq![group_class(h.name@)] + group_names(h.children@)));
        } else {
            assert(views(names@) =~= n0 + Seq::<Seq<char>>::empty());
        }
        assert(views(names@) =~= views(old(names)@) + group_names(handlers@.subrange(0, i + 1)));
        i = i + 1;
    }
    assert(handlers@.subrange(0, handlers@.len() as int) =~= handlers@);
}

fn push_group_open(cb: &mut CodeBuf, inner: &str, gcn: &str, svc_name: &str)
    ensures
        final(cb)@ == old(cb)@ + group_open(inner@, gcn@, svc_name@),
{
    let ghost start = cb@;
    cb.push(cat3(inner, "public class ", gcn));
    cb.push(cat2(inner, "{"));
    cb.push(cat4(inner, "    private readonly ", svc_name, "Client _client;"));
    let a = cat5(inner, "    public ", gcn, "(", svc_name);
    cb.push(cat2(a.as_str(), "Client client) { _client = client; }"));
    cb.b();
    assert(cb@ =~= start + group_open(inner@, gcn@, svc_name@));
}

fn push_group_close(cb: &mut CodeBuf, inner: &str, gcn: &str, prop: &str)
    ensures
        final(cb)@ == old(cb)@ + group_close(inner@, gcn@, prop@),
{
    let ghost start = cb@;
    cb.push(cat2(inner, "}"));
    cb.b();
    let a = cat5(inner, "public ", gcn, " ", prop);
    cb.push(cat2(a.as_str(), " { get; }"));
    cb.b();
    assert(cb@ =~= start + group_close(inner@, gcn@, prop@));
}

fn leaf_text_cs(
    h: &Handler,
    all: &Vec<Handler>,
    path: &Vec<String>,
    child_path: &Vec<String>,
    inner: &str,
    svc_name: &str,
    debug: bool,
) -> (r: String)
    requires
        views(child_path@) == views(path@).push(h.name@),
        handler_meta_ok(h.meta),
        h.meta.cache_seconds <= 1844674407370,
        h.meta.is_ordinary ==> ordinary_return_ok(h.meta),
        !h.meta.is_ordinary ==> prefix_ok(handler_prefix_of(views(child_path@)), h.meta),
    ensures
        r@ == leaf_text(*h, views(path@), inner@, svc_name@, debug),
{
    let prefix = handler_prefix(child_path);
    let cache_key = join(child_path, ".");
    if h.meta.is_ordinary {
        ordinary_handler_method_cs(
            h,
            prefix.as_str(),
            path,
            inner,
            svc_name,
            debug,
            svc_name,
            cache_key.as_str(),
        )
    } else {
        handler_method_cs(h, all, prefix.as_str(), inner, svc_name, svc_name, cache_key.as_str())
    }
}

fn push_object_node(
    h: &Handler,
    all: &Vec<Handler>,
    path: &Vec<String>,
    indent: &str,
    svc_name: &str,
    debug: bool,
    cb: &mut CodeBuf,
)
    requires
        h.meta.name@.len() > 0 ==> {
            &&& handler_meta_ok(h.meta)
            &&& h.meta.cache_seconds <= 1844674407370
            &&& (h.meta.is_ordinary ==> ordinary_return_ok(h.meta))
            &&& (!h.meta.is_ordinary ==> prefix_ok(handler_prefix_of(views(path@).push(h.name@)), h.meta))
        },
        object_ok(h.children@, views(path@).push(h.name@)),
    ensures
        final(cb)@ == old(cb)@ + object_node(*h, views(path@), indent@, svc_name@, debug),
    decreases h, 0nat,
{
    let inner = cat2(indent, "    ");
    let mut child_path: Vec<String> = path.clone();
    let ghost p0 = child_path@;
    child_path.push(owned(h.name.as_str()));
    assert(views(child_path@) =~= views(path@).push(h.name@)) by {
        assert(views(p0) =~= views(path@));
    }
    let ghost cp = views(path@).push(h.name@);
    let ghost c0 = cb@;
    if h.meta.name.unicode_len() == 0 {
        let clean = trim_start_matches(h.name.as_str(), ':');
        let gcn = group_class_text(h.name.as_str());
        push_group_open(cb, inner.as_str(), gcn.as_str(), svc_name);
        let ghost c1 = cb@;
        gen_handler_object_cs(&h.children, all, &child_path, inner.as_str(), svc_name, debug, cb);
        let ghost c2 = cb@;
        let prop = to_camel_case(clean.as_str());
        push_group_close(cb, inner.as_str(), gcn.as_str(), prop.as_str());
        assert(cb@ =~= c0 + (group_open(inner@, group_class(h.name@), svc_name@) + handler_object(
            h.children@,
            cp,
            inner@,
            svc_name@,
            debug,
        ) + group_close(inner@, group_class(h.name@), camel(trim_start_char(h.name@, ':')))));
    } else {
        let text = leaf_text_cs(h, all, path, &child_path, inner.as_str(), svc_name, debug);
        cb.push(text);
    }
}

/// Emits the client classes for the handler tree `handlers` below `path`:
/// a nested class per group node, holding the methods of its children, and
/// a method per named handler.
pub fn gen_handler_object_cs(
    handlers: &Vec<Handler>,
    all: &Vec<Handler>,
    path: &Vec<String>,
    indent: &str,
    svc_name: &str,
    debug: bool,
    cb: &mut CodeBuf,
)
    requires
        object_ok(handlers@, views(path@)),
    ensures
        final(cb)@ == old(cb)@ + handler_object(handlers@, views(path@), indent@, svc_name@, debug),
    decreases handlers, 1nat,
{
    let mut i: usize = 0;
    while i < handlers.len()
        invariant
            object_ok(handlers@, views(path@)),
            i <= handlers@.len(),
            cb@ == old(cb)@ + handler_object(
                handlers@.subrange(0, i as int),
                views(path@),
                indent@,
                svc_name@,
                debug,
            ),
        decreases handlers@.len() - i,
    {
        let h = &handlers[i];
        proof {
            lemma_object_ok_at(handlers@, views(path@), i as int);
            assert(handlers@.subrange(0, i + 1).drop_last() =~= handlers@.subrange(0, i as int));
            assert(handlers@.subrange(0, i + 1).last() == *h);
        }
        assert(decreases_to!(handlers => *h));
        push_object_node(h, all, path, indent, svc_name, debug, cb);
        i = i + 1;
    }
    assert(handlers@.subrange(0, handlers@.len() as int) =~= handlers@);
}

} // verus!
