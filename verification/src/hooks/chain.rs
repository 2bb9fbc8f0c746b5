//! Running a payload through the hook chain.
use vstd::prelude::*;
use crate::error::{ErrorModel, Result};
use crate::hooks::types::{HookRequest, HookResponse, RequestModel};
use crate::hooks::{Hook, HookFilter, TriggerOutput};

verus! {

/// What a trigger decided about a payload.
pub enum Verdict {
    /// The payload is replaced by these bytes.
    Replace(Seq<u8>),
    /// The payload stays as it is.
    Keep,
    /// The payload is rejected.
    Fail(ErrorModel),
}

/// The payload after a chain, or the error that stopped it.
pub type Outcome = std::result::Result<Seq<u8>, ErrorModel>;

/// The outcome of a chain that ends with the payload `data`.
pub open spec fn passed(data: Seq<u8>) -> Outcome {
    Ok(data)
}

/// The outcome of a chain that a hook stopped with the error `e`.
pub open spec fn stopped(e: ErrorModel) -> Outcome {
    Err(e)
}

/// The verdict that a trigger's output stands for.
pub open spec fn verdict_of(out: TriggerOutput) -> Verdict {
    match out {
        Ok(Some(response)) => Verdict::Replace(response.data@),
        Ok(None) => Verdict::Keep,
        Err(e) => Verdict::Fail(e@),
    }
}

/// The verdicts of a sequence of outputs.
pub open spec fn verdicts_of(outs: Seq<TriggerOutput>) -> Seq<Verdict> {
    Seq::new(outs.len(), |i: int| verdict_of(outs[i]))
}

/// The filters of a sequence of hooks.
pub open spec fn filters_of<F>(hooks: Seq<Hook<F>>) -> Seq<HookFilter> {
    Seq::new(hooks.len(), |i: int| hooks[i].filter())
}

/// What a response of the executor is in contracts.
pub open spec fn outcome_of(response: Result<HookResponse>) -> Outcome {
    match response {
        Ok(r) => Ok(r.data@),
        Err(e) => Err(e@),
    }
}

/// One step of the chain: a hook that does not accept the request, or an
/// earlier failure, leaves the state as it is; otherwise the verdict applies.
pub open spec fn step(
    state: Outcome,
    filter: HookFilter,
    request: RequestModel,
    verdict: Verdict,
) -> Outcome {
    match state {
        Err(e) => Err(e),
        Ok(data) => if !filter.accepts(request) {
            Ok(data)
        } else {
            match verdict {
                Verdict::Replace(bytes) => Ok(bytes),
                Verdict::Keep => Ok(data),
                Verdict::Fail(e) => Err(e),
            }
        },
    }
}

/// The state of the chain after its first `n` hooks, where `verdicts[i]` is
/// what the trigger of hook `i` decides about `request`.
pub open spec fn chain_upto(
    filters: Seq<HookFilter>,
    request: RequestModel,
    verdicts: Seq<Verdict>,
    n: nat,
) -> Outcome
    decreases n,
{
    if n == 0 {
        Ok(request.data)
    } else {
        step(
            chain_upto(filters, request, verdicts, (n - 1) as nat),
            filters[n - 1],
            request,
            verdicts[n - 1],
        )
    }
}

/// The payload that leaves the whole chain, or the error that stopped it.
pub open spec fn chain(
    filters: Seq<HookFilter>,
    request: RequestModel,
    verdicts: Seq<Verdict>,
) -> Outcome {
    chain_upto(filters, request, verdicts, filters.len())
}

/// True when the trigger of hook `i` runs: the hook accepts the request and
/// no hook before it has rejected the payload.
pub open spec fn invoked(
    filters: Seq<HookFilter>,
    request: RequestModel,
    verdicts: Seq<Verdict>,
    i: int,
) -> bool {
    &&& 0 <= i < filters.len()
    &&& filters[i].accepts(request)
    &&& chain_upto(filters, request, verdicts, i as nat) is Ok
}

/// True when `trigger` can hand back `out` for a request equal to `request`.
pub open spec fn may_return<F: Fn(HookRequest) -> TriggerOutput>(
    trigger: F,
    request: RequestModel,
    out: TriggerOutput,
) -> bool {
    exists|r: HookRequest| r@ == request && call_ensures(trigger, (r,), out)
}

/// True when `outs` holds, for every trigger that runs, an output that this
/// trigger can hand back for `request`.
pub open spec fn explains<F: Fn(HookRequest) -> TriggerOutput>(
    hooks: Seq<Hook<F>>,
    request: RequestModel,
    outs: Seq<TriggerOutput>,
) -> bool {
    &&& outs.len() == hooks.len()
    &&& forall|i: int|
        #![trigger outs[i]]
        invoked(filters_of(hooks), request, verdicts_of(outs), i) ==> may_return(
            hooks[i].trigger_fn,
            request,
            outs[i],
        )
}

/// True when `outcome` is what the chain makes of `request` in some run: for
/// outputs that the triggers that run can hand back for the request.
pub open spec fn ran<F: Fn(HookRequest) -> TriggerOutput>(
    hooks: Seq<Hook<F>>,
    request: RequestModel,
    outcome: Outcome,
) -> bool {
    exists|outs: Seq<TriggerOutput>|
        #![trigger verdicts_of(outs)]
        explains(hooks, request, outs) && outcome == chain(
            filters_of(hooks),
            request,
            verdicts_of(outs),
        )
}

/// The state after `n` hooks depends on the first `n` hooks and verdicts only.
pub proof fn lemma_chain_upto_prefix(
    filters: Seq<HookFilter>,
    other: Seq<HookFilter>,
    request: RequestModel,
    a: Seq<Verdict>,
    b: Seq<Verdict>,
    n: nat,
)
    requires
        n <= a.len(),
        n <= b.len(),
        n <= filters.len(),
        n <= other.len(),
        forall|i: int| 0 <= i < n ==> a[i] == b[i],
        forall|i: int| 0 <= i < n ==> filters[i] == other[i],
    ensures
        chain_upto(filters, request, a, n) == chain_upto(other, request, b, n),
    decreases n,
{
    if n > 0 {
        lemma_chain_upto_prefix(filters, other, request, a, b, (n - 1) as nat);
    }
}

/// Once a hook has rejected the payload, the rest of the chain changes nothing.
pub proof fn lemma_chain_failure_sticks(
    filters: Seq<HookFilter>,
    request: RequestModel,
    verdicts: Seq<Verdict>,
    n: nat,
    m: nat,
)
    requires
        n <= m,
        chain_upto(filters, request, verdicts, n) is Err,
    ensures
        chain_upto(filters, request, verdicts, m) == chain_upto(filters, request, verdicts, n),
    decreases m,
{
    if n < m {
        lemma_chain_failure_sticks(filters, request, verdicts, n, (m - 1) as nat);
    }
}

/// Runs `request` through `hooks` in order.
///
/// The payload starts as the request's data. Every hook that accepts the
/// request has its trigger run on a copy of the request: a replacement becomes
/// the payload, `None` keeps it, and an error ends the chain and is returned.
/// The result is the payload after the last hook.
pub fn execute<F: Fn(HookRequest) -> TriggerOutput>(
    hooks: &Vec<Hook<F>>,
    request: HookRequest,
) -> (response: Result<HookResponse>)
    requires
        forall|i: int, r: HookRequest|
            0 <= i < hooks.len() ==> #[trigger] call_requires(hooks[i].trigger_fn, (r,)),
    ensures
        ran(hooks@, request@, outcome_of(response)),
{
    let ghost filters = filters_of(hooks@);
    let ghost outs: Seq<TriggerOutput> = Seq::empty();
    let mut data: Vec<u8> = request.data.clone();
    let mut i: usize = 0;
    while i < hooks.len()
        invariant
            i <= hooks.len(),
            filters == filters_of(hooks@),
            outs.len() == i,
            chain_upto(filters, request@, verdicts_of(outs), i as nat) == passed(data@),
            forall|k: int|
                #![trigger outs[k]]
                0 <= k < i && filters[k].accepts(request@) ==> may_return(
                    hooks[k].trigger_fn,
                    request@,
                    outs[k],
                ),
            forall|k: int, r: HookRequest|
                0 <= k < hooks.len() ==> #[trigger] call_requires(hooks[k].trigger_fn, (r,)),
        decreases hooks.len() - i,
    {
        let hook = &hooks[i];
        let ghost before = outs;
        if hook.matches(&request) {
            let copy = request.clone();
            let out = (hook.trigger_fn)(copy);
            proof {
                outs = before.push(out);
                lemma_chain_upto_prefix(
                    filters,
                    filters,
                    request@,
                    verdicts_of(before),
                    verdicts_of(outs),
                    i as nat,
                );
            }
            match out {
                Ok(Some(response)) => {
                    data = response.data;
                },
                Ok(None) => {},
                Err(e) => {
                    proof {
                        let full = pad(outs, hooks.len() as nat);
                        lemma_chain_upto_prefix(
                            filters,
                            filters,
                            request@,
                            verdicts_of(outs),
                            verdicts_of(full),
                            (i + 1) as nat,
                        );
                        lemma_chain_failure_sticks(
                            filters,
                            request@,
                            verdicts_of(full),
                            (i + 1) as nat,
                            hooks.len() as nat,
                        );
                        assert forall|k: int|
                            #![trigger full[k]]
                            invoked(filters, request@, verdicts_of(full), k) implies may_return(
                            hooks[k].trigger_fn,
                            request@,
                            full[k],
                        ) by {
                            if k > i {
                                lemma_chain_failure_sticks(
                                    filters,
                                    request@,
                                    verdicts_of(full),
                                    (i + 1) as nat,
                                    k as nat,
                                );
                            }
                        }
                    }
                    return Err(e);
                },
            }
        } else {
            proof {
                outs = before.push(Ok(None));
                lemma_chain_upto_prefix(
                    filters,
                    filters,
                    request@,
                    verdicts_of(before),
                    verdicts_of(outs),
                    i as nat,
                );
            }
        }
        i += 1;
    }
    Ok(HookResponse::new(data))
}

/// `outs`, followed by as many `Ok(None)` as it takes to reach the length `n`.
pub open spec fn pad(outs: Seq<TriggerOutput>, n: nat) -> Seq<TriggerOutput> {
    Seq::new(n, |i: int| if i < outs.len() { outs[i] } else { Ok(None) })
}

} // verus!
