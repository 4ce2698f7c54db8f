//! What the file-writing entry points decide: which services get files,
//! and the index module of the Rust clients.

use vstd::prelude::*;
use crate::buf::{build_lines, matches_wildcard, wildcard_matches};
use crate::model::Service;
use crate::text::{cat3, join, str_eq, views};

verus! {

/// `name` matches one of the wildcard `patterns`.
pub open spec fn matches_any(name: Seq<char>, patterns: Seq<Seq<char>>) -> bool {
    exists|i: int| 0 <= i < patterns.len() && wildcard_matches(name, #[trigger] patterns[i])
}

/// A service gets client files: it is named and, when a filter is given,
/// its name is one of the filter's names (`exact`) or matches one of the
/// filter's wildcard patterns (otherwise).
pub open spec fn gets_files(name: Seq<char>, filter: Option<Seq<Seq<char>>>, exact: bool) -> bool {
    &&& name.len() > 0
    &&& match filter {
        Some(f) => if exact {
            f.contains(name)
        } else {
            matches_any(name, f)
        },
        None => true,
    }
}

/// The views of an optional pattern list.
pub open spec fn filter_view(filter: Option<&Vec<String>>) -> Option<Seq<Seq<char>>> {
    match filter {
        Some(f) => Some(views(f@)),
        None => None,
    }
}

/// Returns whether the service named `name` gets client files under the
/// optional `filter`: a list of names when `exact`, of wildcard patterns
/// otherwise.
pub fn service_selected(name: &str, filter: Option<&Vec<String>>, exact: bool) -> (r: bool)
    ensures
        r == gets_files(name@, filter_view(filter), exact),
{
    if name.unicode_len() == 0 {
        return false;
    }
    match filter {
        None => true,
        Some(f) => {
            let mut i: usize = 0;
            while i < f.len()
                invariant
                    i <= f@.len(),
                    name@.len() > 0,
                    filter_view(filter) == Some(views(f@)),
                    exact ==> forall|j: int| 0 <= j < i ==> #[trigger] views(f@)[j] != name@,
                    !exact ==> forall|j: int| 0 <= j < i ==> !wildcard_matches(name@, #[trigger] views(f@)[j]),
                decreases f@.len() - i,
            {
                assert(views(f@)[i as int] == f@[i as int]@);
                if exact {
                    if str_eq(name, f[i].as_str()) {
                        assert(views(f@).contains(name@));
                        return true;
                    }
                } else if matches_wildcard(name, f[i].as_str()) {
                    assert(wildcard_matches(name@, views(f@)[i as int]));
                    assert(matches_any(name@, views(f@)));
                    return true;
                }
                i = i + 1;
            }
            false
        },
    }
}

/// The services that get client files, in order.
pub open spec fn selected_services(svcs: Seq<Service>, filter: Option<Seq<Seq<char>>>, exact: bool) -> Seq<
    Service,
>
    decreases svcs.len(),
{
    if svcs.len() == 0 {
        Seq::empty()
    } else {
        let rest = selected_services(svcs.drop_last(), filter, exact);
        if gets_files(svcs.last().name@, filter, exact) {
            rest.push(svcs.last())
        } else {
            rest
        }
    }
}

/// Keeps, in order, the services that get client files under the
/// optional `filter`: a list of names when `exact`, of wildcard patterns
/// otherwise.
pub fn select_services(services: Vec<Service>, filter: Option<&Vec<String>>, exact: bool) -> (r: Vec<Service>)
    ensures
        r@ == selected_services(services@, filter_view(filter), exact),
{
    let mut rest = services;
    let ghost all = rest@;
    let mut kept: Vec<Service> = Vec::new();
    let ghost mut k: int = 0;
    while rest.len() > 0
        invariant
            0 <= k <= all.len(),
            rest@ == all.subrange(k, all.len() as int),
            kept@ == selected_services(all.subrange(0, k), filter_view(filter), exact),
        decreases rest@.len(),
    {
        let svc = rest.remove(0);
        proof {
            assert(svc == all[k]);
            assert(all.subrange(0, k + 1).drop_last() =~= all.subrange(0, k));
            assert(all.subrange(0, k + 1).last() == all[k]);
        }
        if service_selected(svc.name.as_str(), filter, exact) {
            kept.push(svc);
        }
        proof {
            k = k + 1;
            assert(rest@ =~= all.subrange(k, all.len() as int));
        }
    }
    assert(all.subrange(0, all.len() as int) =~= all);
    kept
}

/// The lines of the index module of the Rust clients: the shared module,
/// then a module per service.
pub open spec fn rs_mod_lines(names: Seq<Seq<char>>) -> Seq<Seq<char>> {
    seq!["// Auto-generated by afast. DO NOT EDIT."@, Seq::empty(), "pub mod common;"@] + names.map_values(
        |n: Seq<char>| "pub mod "@ + n + ";"@,
    ) + seq![Seq::empty()]
}

/// Returns the index module (`mod.rs`) of the Rust clients of the named
/// services.
pub fn rs_mod_text(names: &Vec<String>) -> (r: String)
    ensures
        r@ == build_lines(rs_mod_lines(views(names@))),
{
    let mut cb = crate::buf::CodeBuf::new();
    cb.l("// Auto-generated by afast. DO NOT EDIT.");
    cb.b();
    cb.l("pub mod common;");
    let ghost head = cb@;
    let mut i: usize = 0;
    while i < names.len()
        invariant
            i <= names@.len(),
            cb@ == head + views(names@.subrange(0, i as int)).map_values(|n: Seq<char>| "pub mod "@ + n + ";"@),
        decreases names@.len() - i,
    {
        let ghost before = cb@;
        cb.push(cat3("pub mod ", names[i].as_str(), ";"));
        proof {
            assert(views(names@.subrange(0, i + 1)) =~= views(names@.subrange(0, i as int)).push(names@[i as int]@));
            assert(cb@ =~= before.push("pub mod "@ + names@[i as int]@ + ";"@));
        }
        i = i + 1;
    }
    cb.b();
    assert(names@.subrange(0, names@.len() as int) =~= names@);
    assert(cb@ =~= rs_mod_lines(views(names@)));
    cb.build()
}

} // verus!
