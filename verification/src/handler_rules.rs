//! Which extractors a handler may combine: binary handlers (`#[handler]`)
//! and ordinary routes (`#[get]`, `#[post]`, ...) each take their own kind,
//! and a long connection takes one `Receiver` and one `Sender`.

use vstd::prelude::*;
use crate::text::{owned, str_eq, views};

verus! {

/// Why a handler's parameters are refused.
pub enum ParamRuleError {
    /// Ordinary and binary extractors are mixed.
    MixedExtractors,
    /// A long connection is declared on an ordinary route.
    LongConnectionOnRoute,
    /// `Receiver` and `Sender` do not come as one pair.
    UnpairedStream,
    /// Ordinary extractors on a binary handler.
    OrdinaryOnHandler,
    /// Binary extractors on an ordinary route.
    BinaryOnRoute,
}

/// The text describing a refusal.
pub open spec fn rule_error_text(e: ParamRuleError) -> Seq<char> {
    match e {
        ParamRuleError::MixedExtractors => "cannot mix ordinary extractors (Query/Param/Body/Header) with binary extractors (Custom/Data/Receiver/Sender)"@,
        ParamRuleError::LongConnectionOnRoute => "long-connection handlers (Receiver/Sender) are not supported for ordinary HTTP routes"@,
        ParamRuleError::UnpairedStream => "Receiver and Sender must appear together and at most once each"@,
        ParamRuleError::OrdinaryOnHandler => "ordinary extractors (Query/Param/Body/Header) are only allowed with #[get], #[post], etc., not #[handler]"@,
        ParamRuleError::BinaryOnRoute => "binary extractors (Custom/Data/Receiver/Sender) are not allowed with #[get], #[post], etc."@,
    }
}

impl ParamRuleError {
    /// Returns the text describing the refusal.
    pub fn message(&self) -> (r: String)
        ensures
            r@ == rule_error_text(*self),
    {
        match self {
            ParamRuleError::MixedExtractors => owned(
                "cannot mix ordinary extractors (Query/Param/Body/Header) with binary extractors (Custom/Data/Receiver/Sender)",
            ),
            ParamRuleError::LongConnectionOnRoute => owned(
                "long-connection handlers (Receiver/Sender) are not supported for ordinary HTTP routes",
            ),
            ParamRuleError::UnpairedStream => owned("Receiver and Sender must appear together and at most once each"),
            ParamRuleError::OrdinaryOnHandler => owned(
                "ordinary extractors (Query/Param/Body/Header) are only allowed with #[get], #[post], etc., not #[handler]",
            ),
            ParamRuleError::BinaryOnRoute => owned(
                "binary extractors (Custom/Data/Receiver/Sender) are not allowed with #[get], #[post], etc.",
            ),
        }
    }
}

/// An extractor of ordinary routes.
pub open spec fn is_ordinary_extractor(e: Seq<char>) -> bool {
    e == "Query"@ || e == "Param"@ || e == "Body"@ || e == "Header"@
}

/// An extractor of binary handlers.
pub open spec fn is_binary_extractor(e: Seq<char>) -> bool {
    e == "Custom"@ || e == "Data"@ || e == "Receiver"@ || e == "Sender"@
}

/// How many of the extractors are `e`.
pub open spec fn count_of(es: Seq<Seq<char>>, e: Seq<char>) -> nat
    decreases es.len(),
{
    if es.len() == 0 {
        0
    } else {
        count_of(es.drop_last(), e) + if es.last() == e {
            1nat
        } else {
            0nat
        }
    }
}

/// The verdict on a handler whose parameters have the extractors `es`, on
/// an ordinary route (`on_route`) or as a binary handler: whether it is a
/// long connection, or why it is refused (the first rule broken, in the
/// order mixing, long connection on a route, pairing, ordinary extractors
/// on a handler, binary extractors on a route).
pub open spec fn param_rules(es: Seq<Seq<char>>, on_route: bool) -> Result<bool, ParamRuleError> {
    let has_ordinary = exists|i: int| 0 <= i < es.len() && is_ordinary_extractor(#[trigger] es[i]);
    let has_binary = exists|i: int| 0 <= i < es.len() && is_binary_extractor(#[trigger] es[i]);
    let receivers = count_of(es, "Receiver"@);
    let senders = count_of(es, "Sender"@);
    let long_connection = receivers > 0 || senders > 0;
    if has_ordinary && has_binary {
        Err(ParamRuleError::MixedExtractors)
    } else if long_connection && on_route {
        Err(ParamRuleError::LongConnectionOnRoute)
    } else if receivers != senders || receivers > 1 {
        Err(ParamRuleError::UnpairedStream)
    } else if !on_route && has_ordinary {
        Err(ParamRuleError::OrdinaryOnHandler)
    } else if on_route && has_binary {
        Err(ParamRuleError::BinaryOnRoute)
    } else {
        Ok(long_connection)
    }
}

/// Checks the extractors of a handler's parameters: `Ok` with whether it
/// is a long connection, or the first rule it breaks.
pub fn check_handler_params(extractors: &Vec<String>, on_route: bool) -> (r: Result<bool, ParamRuleError>)
    ensures
        r == param_rules(views(extractors@), on_route),
{
    proof {
        reveal_strlit("Query");
        reveal_strlit("Param");
        reveal_strlit("Body");
        reveal_strlit("Header");
        reveal_strlit("Custom");
        reveal_strlit("Data");
        reveal_strlit("Receiver");
        reveal_strlit("Sender");
    }
    let ghost es = views(extractors@);
    let mut has_ordinary = false;
    let mut has_binary = false;
    let mut receivers: usize = 0;
    let mut senders: usize = 0;
    let mut i: usize = 0;
    assert(es.subrange(0, 0) =~= Seq::<Seq<char>>::empty());
    while i < extractors.len()
        invariant
            es == views(extractors@),
            i <= extractors@.len(),
            has_ordinary == exists|j: int| 0 <= j < i && is_ordinary_extractor(#[trigger] es[j]),
            has_binary == exists|j: int| 0 <= j < i && is_binary_extractor(#[trigger] es[j]),
            receivers == count_of(es.subrange(0, i as int), "Receiver"@),
            senders == count_of(es.subrange(0, i as int), "Sender"@),
            receivers <= i,
            senders <= i,
        decreases extractors@.len() - i,
    {
        let e = extractors[i].as_str();
        assert(es[i as int] == e@);
        let ghost pre = es.subrange(0, i as int);
        let ghost post = es.subrange(0, i + 1);
        assert(post.drop_last() =~= pre);
        assert(post.last() == e@);
        if str_eq(e, "Query") || str_eq(e, "Param") || str_eq(e, "Body") || str_eq(e, "Header") {
            has_ordinary = true;
        }
        if str_eq(e, "Custom") || str_eq(e, "Data") || str_eq(e, "Receiver") || str_eq(e, "Sender") {
            has_binary = true;
        }
        if str_eq(e, "Receiver") {
            receivers = receivers + 1;
        }
        if str_eq(e, "Sender") {
            senders = senders + 1;
        }
        i = i + 1;
    }
    assert(es.subrange(0, extractors@.len() as int) =~= es);
    let long_connection = receivers > 0 || senders > 0;
    if has_ordinary && has_binary {
        Err(ParamRuleError::MixedExtractors)
    } else if long_connection && on_route {
        Err(ParamRuleError::LongConnectionOnRoute)
    } else if receivers != senders || receivers > 1 {
        Err(ParamRuleError::UnpairedStream)
    } else if !on_route && has_ordinary {
        Err(ParamRuleError::OrdinaryOnHandler)
    } else if on_route && has_binary {
        Err(ParamRuleError::BinaryOnRoute)
    } else {
        Ok(long_connection)
    }
}

/// A binary handler refuses every ordinary extractor: a handler whose
/// parameters take `Query`, `Param`, `Body` or `Header` is refused as mixing
/// the two kinds when one of `Custom`, `Data`, `Receiver` or `Sender` is
/// there too, and as using an ordinary extractor outside a route
/// otherwise.
pub proof fn law_ordinary_extractors_refused_on_handlers(es: Seq<Seq<char>>, i: int)
    requires
        0 <= i < es.len(),
        es[i] == "Query"@ || es[i] == "Param"@ || es[i] == "Body"@ || es[i] == "Header"@,
    ensures
        param_rules(es, false) == if exists|j: int|
            0 <= j < es.len() && (#[trigger] es[j] == "Custom"@ || es[j] == "Data"@ || es[j] == "Receiver"@
                || es[j] == "Sender"@) {
            Err::<bool, ParamRuleError>(ParamRuleError::MixedExtractors)
        } else {
            Err(ParamRuleError::OrdinaryOnHandler)
        },
{
    reveal_strlit("Receiver");
    reveal_strlit("Sender");
    reveal_strlit("Custom");
    reveal_strlit("Data");
    reveal_strlit("Query");
    reveal_strlit("Param");
    reveal_strlit("Body");
    reveal_strlit("Header");
    assert(is_ordinary_extractor(es[i]));
    if !(exists|j: int|
        0 <= j < es.len() && (#[trigger] es[j] == "Custom"@ || es[j] == "Data"@ || es[j] == "Receiver"@
            || es[j] == "Sender"@)) {
        lemma_count_absent(es, "Receiver"@);
        lemma_count_absent(es, "Sender"@);
    }
}

/// An ordinary route refuses every binary extractor: a route whose
/// parameters take `Custom`, `Data`, `Receiver` or `Sender` is refused.
pub proof fn law_binary_extractors_refused_on_routes(es: Seq<Seq<char>>, i: int)
    requires
        0 <= i < es.len(),
        es[i] == "Custom"@ || es[i] == "Data"@ || es[i] == "Receiver"@ || es[i] == "Sender"@,
    ensures
        param_rules(es, true) is Err,
{
    reveal_strlit("Receiver");
    reveal_strlit("Sender");
    reveal_strlit("Custom");
    reveal_strlit("Data");
    assert(is_binary_extractor(es[i]));
    if es[i] == "Receiver"@ {
        lemma_count_present(es, "Receiver"@, i);
    }
    if es[i] == "Sender"@ {
        lemma_count_present(es, "Sender"@, i);
    }
}

/// A handler that is accepted takes its `Receiver` and `Sender` as one
/// pair or not at all, and is a long connection exactly when it takes
/// them.
pub proof fn law_accepted_streams_come_in_one_pair(es: Seq<Seq<char>>, on_route: bool)
    requires
        param_rules(es, on_route) is Ok,
    ensures
        count_of(es, "Receiver"@) == count_of(es, "Sender"@),
        count_of(es, "Receiver"@) <= 1,
        param_rules(es, on_route) == Ok::<bool, ParamRuleError>(count_of(es, "Receiver"@) == 1),
{
}

proof fn lemma_count_absent(es: Seq<Seq<char>>, e: Seq<char>)
    requires
        forall|j: int| 0 <= j < es.len() ==> es[j] != e,
    ensures
        count_of(es, e) == 0,
    decreases es.len(),
{
    if es.len() > 0 {
        assert(es.last() == es[es.len() - 1]);
        lemma_count_absent(es.drop_last(), e);
    }
}

proof fn lemma_count_present(es: Seq<Seq<char>>, e: Seq<char>, i: int)
    requires
        0 <= i < es.len(),
        es[i] == e,
    ensures
        count_of(es, e) > 0,
    decreases es.len(),
{
    if i < es.len() - 1 {
        assert(es.drop_last()[i] == e);
        lemma_count_present(es.drop_last(), e, i);
    }
}

} // verus!
