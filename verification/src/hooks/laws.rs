//! What holds of every hook chain.
use vstd::prelude::*;
use crate::hooks::chain::{
    chain, chain_upto, lemma_chain_failure_sticks, lemma_chain_upto_prefix, passed, stopped,
    Verdict,
};
use crate::hooks::types::RequestModel;
use crate::hooks::HookFilter;

verus! {

/// A chain without hooks hands the payload on unchanged, whatever the request.
pub proof fn law_empty_chain(request: RequestModel, verdicts: Seq<Verdict>)
    ensures
        chain(Seq::<HookFilter>::empty(), request, verdicts) == passed(request.data),
{
}

/// A chain in which no hook accepts the request hands the payload on
/// unchanged: triggers that do not run cannot touch it.
pub proof fn law_no_hook_accepts(
    filters: Seq<HookFilter>,
    request: RequestModel,
    verdicts: Seq<Verdict>,
)
    requires
        forall|i: int| 0 <= i < filters.len() ==> !filters[i].accepts(request),
    ensures
        chain(filters, request, verdicts) == passed(request.data),
{
    lemma_unaccepted_prefix(filters, request, verdicts, filters.len());
}

proof fn lemma_unaccepted_prefix(
    filters: Seq<HookFilter>,
    request: RequestModel,
    verdicts: Seq<Verdict>,
    n: nat,
)
    requires
        n <= filters.len(),
        forall|i: int| 0 <= i < n ==> !filters[i].accepts(request),
    ensures
        chain_upto(filters, request, verdicts, n) == passed(request.data),
    decreases n,
{
    if n > 0 {
        lemma_unaccepted_prefix(filters, request, verdicts, (n - 1) as nat);
    }
}

/// A hook whose trigger keeps the payload can be taken out of the chain,
/// together with its verdict, and the chain's result stays the same.
pub proof fn law_keep_is_absent(
    filters: Seq<HookFilter>,
    request: RequestModel,
    verdicts: Seq<Verdict>,
    k: int,
)
    requires
        verdicts.len() == filters.len(),
        0 <= k < filters.len(),
        verdicts[k] == Verdict::Keep,
    ensures
        chain(filters, request, verdicts) == chain(filters.remove(k), request, verdicts.remove(k)),
{
    lemma_keep_removed(filters, request, verdicts, k, filters.len());
}

proof fn lemma_keep_removed(
    filters: Seq<HookFilter>,
    request: RequestModel,
    verdicts: Seq<Verdict>,
    k: int,
    n: nat,
)
    requires
        verdicts.len() == filters.len(),
        0 <= k < n <= filters.len(),
        verdicts[k] == Verdict::Keep,
    ensures
        chain_upto(filters, request, verdicts, n) == chain_upto(
            filters.remove(k),
            request,
            verdicts.remove(k),
            (n - 1) as nat,
        ),
    decreases n,
{
    let short_filters = filters.remove(k);
    let short_verdicts = verdicts.remove(k);
    if n == k + 1 {
        lemma_chain_upto_prefix(
            filters,
            short_filters,
            request,
            verdicts,
            short_verdicts,
            k as nat,
        );
    } else {
        lemma_keep_removed(filters, request, verdicts, k, (n - 1) as nat);
    }
}

/// When a hook that runs replaces the payload by `bytes` and every hook
/// after it keeps the payload, the chain ends with `bytes`.
pub proof fn law_replace_then_keep(
    filters: Seq<HookFilter>,
    request: RequestModel,
    verdicts: Seq<Verdict>,
    k: int,
    bytes: Seq<u8>,
)
    requires
        verdicts.len() == filters.len(),
        0 <= k < filters.len(),
        filters[k].accepts(request),
        chain_upto(filters, request, verdicts, k as nat) is Ok,
        verdicts[k] == Verdict::Replace(bytes),
        forall|i: int| k < i < filters.len() ==> verdicts[i] == Verdict::Keep,
    ensures
        chain(filters, request, verdicts) == passed(bytes),
{
    lemma_kept_after(filters, request, verdicts, k, bytes, filters.len());
}

proof fn lemma_kept_after(
    filters: Seq<HookFilter>,
    request: RequestModel,
    verdicts: Seq<Verdict>,
    k: int,
    bytes: Seq<u8>,
    n: nat,
)
    requires
        verdicts.len() == filters.len(),
        0 <= k < n <= filters.len(),
        filters[k].accepts(request),
        chain_upto(filters, request, verdicts, k as nat) is Ok,
        verdicts[k] == Verdict::Replace(bytes),
        forall|i: int| k < i < filters.len() ==> verdicts[i] == Verdict::Keep,
    ensures
        chain_upto(filters, request, verdicts, n) == passed(bytes),
    decreases n,
{
    if n > k + 1 {
        lemma_kept_after(filters, request, verdicts, k, bytes, (n - 1) as nat);
    }
}

/// A hook that replaces the payload by `bytes`, followed by a hook that
/// keeps it, yields `bytes`.
pub proof fn law_replace_keep_pair(
    first: HookFilter,
    second: HookFilter,
    request: RequestModel,
    bytes: Seq<u8>,
)
    requires
        first.accepts(request),
    ensures
        chain(seq![first, second], request, seq![Verdict::Replace(bytes), Verdict::Keep]) == passed(bytes),
{
    let filters = seq![first, second];
    let verdicts = seq![Verdict::Replace(bytes), Verdict::Keep];
    law_replace_then_keep(filters, request, verdicts, 0, bytes);
}

/// A chain of identity hooks is transparent: when every trigger keeps the
/// payload or replaces it by the request's own data, the bytes that leave the
/// chain are the bytes that entered it.
pub proof fn law_identity_chain(
    filters: Seq<HookFilter>,
    request: RequestModel,
    verdicts: Seq<Verdict>,
)
    requires
        verdicts.len() == filters.len(),
        forall|i: int|
            0 <= i < filters.len() ==> verdicts[i] == Verdict::Keep || verdicts[i]
                == Verdict::Replace(request.data),
    ensures
        chain(filters, request, verdicts) == passed(request.data),
{
    lemma_identity_prefix(filters, request, verdicts, filters.len());
}

proof fn lemma_identity_prefix(
    filters: Seq<HookFilter>,
    request: RequestModel,
    verdicts: Seq<Verdict>,
    n: nat,
)
    requires
        verdicts.len() == filters.len(),
        n <= filters.len(),
        forall|i: int|
            0 <= i < filters.len() ==> verdicts[i] == Verdict::Keep || verdicts[i]
                == Verdict::Replace(request.data),
    ensures
        chain_upto(filters, request, verdicts, n) == passed(request.data),
    decreases n,
{
    if n > 0 {
        lemma_identity_prefix(filters, request, verdicts, (n - 1) as nat);
    }
}

/// A hook that rejects the payload ends the chain with its error, whatever
/// the hooks after it would decide.
pub proof fn law_failure_ends_chain(
    filters: Seq<HookFilter>,
    request: RequestModel,
    verdicts: Seq<Verdict>,
    k: int,
)
    requires
        verdicts.len() == filters.len(),
        0 <= k < filters.len(),
        filters[k].accepts(request),
        chain_upto(filters, request, verdicts, k as nat) is Ok,
        verdicts[k] is Fail,
    ensures
        chain(filters, request, verdicts) == stopped(verdicts[k]->Fail_0),
{
    lemma_chain_failure_sticks(filters, request, verdicts, (k + 1) as nat, filters.len());
}

} // verus!
