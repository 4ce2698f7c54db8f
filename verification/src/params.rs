//! Selecting a handler's parameters by extractor.

use vstd::prelude::*;
use crate::model::ParamMeta;
use crate::text::{cat2, dec_nat, dec_usize, owned};

verus! {

/// The parameters with extractor `e`, in order.
pub open spec fn with_extractor(ps: Seq<ParamMeta>, e: Seq<char>) -> Seq<ParamMeta>
    decreases ps.len(),
{
    if ps.len() == 0 {
        Seq::empty()
    } else {
        let rest = with_extractor(ps.drop_last(), e);
        if ps.last().extractor@ == e {
            rest.push(ps.last())
        } else {
            rest
        }
    }
}

/// One step of [`with_extractor`] over a growing prefix.
pub proof fn lemma_with_extractor_step(ps: Seq<ParamMeta>, i: int, e: Seq<char>)
    requires
        0 <= i < ps.len(),
    ensures
        with_extractor(ps.subrange(0, i + 1), e) == if ps[i].extractor@ == e {
            with_extractor(ps.subrange(0, i), e).push(ps[i])
        } else {
            with_extractor(ps.subrange(0, i), e)
        },
        with_extractor(ps.subrange(0, i), e).len() <= i,
{
    assert(ps.subrange(0, i + 1).drop_last() =~= ps.subrange(0, i));
    assert(ps.subrange(0, i + 1).last() == ps[i]);
    lemma_with_extractor_len(ps.subrange(0, i), e);
}

/// At most as many parameters are selected as there are.
pub proof fn lemma_with_extractor_len(ps: Seq<ParamMeta>, e: Seq<char>)
    ensures
        with_extractor(ps, e).len() <= ps.len(),
    decreases ps.len(),
{
    if ps.len() > 0 {
        lemma_with_extractor_len(ps.drop_last(), e);
    }
}

/// The variable of the `k`-th `Data` parameter: `request`, `request2`, ...
pub open spec fn data_var(k: nat) -> Seq<char> {
    if k == 0 {
        "request"@
    } else {
        "request"@ + dec_nat(k + 1)
    }
}

/// Returns the variable name of the `k`-th `Data` parameter.
pub fn data_var_name(k: usize) -> (r: String)
    requires
        k < usize::MAX,
    ensures
        r@ == data_var(k as nat),
{
    if k == 0 {
        owned("request")
    } else {
        let n = dec_usize(k + 1);
        cat2("request", n.as_str())
    }
}

} // verus!
