//! What holds of every session: of the way out to the targets, of the way
//! back to the client, and of the two together.
use vstd::prelude::*;
use crate::broadcaster::{
    dispatch_for, dispatched, plan, request_for, sent_to, target_stream, BroadcastModel,
    DispatchModel,
};
use crate::client::{full_reads, joined, read_message, read_messages};
use crate::endpoint::Endpoint;
use crate::hooks::chain::{
    chain, chain_upto, explains, filters_of, invoked, may_return, passed, ran, verdicts_of,
    Outcome, Verdict,
};
use crate::hooks::laws::{law_empty_chain, law_identity_chain};
use crate::hooks::types::{Direction, HookRequest, RequestModel};
use crate::hooks::{Hook, HookFilter, TriggerOutput};
use crate::server::{
    broadcast_stream, client_stream, response_action, step_for, written_to, ActionModel,
    MessageModel, ServerModel, StepModel,
};
use crate::target::TargetModel;

verus! {

/// Without hooks the chain can only hand the payload on unchanged.
pub proof fn law_run_without_hooks<F: Fn(HookRequest) -> TriggerOutput>(
    hooks: Seq<Hook<F>>,
    request: RequestModel,
    outcome: Outcome,
)
    requires
        hooks.len() == 0,
        ran(hooks, request, outcome),
    ensures
        outcome == passed(request.data),
{
    let outs = choose|outs: Seq<TriggerOutput>|
        #![trigger verdicts_of(outs)]
        explains(hooks, request, outs) && outcome == chain(
            filters_of(hooks),
            request,
            verdicts_of(outs),
        );
    law_empty_chain(request, verdicts_of(outs));
}

/// Without hooks a connected target gets exactly the client's payload: a
/// broadcaster without a hook chain in front of it would send the same.
pub proof fn law_fan_out_without_hooks<F: Fn(HookRequest) -> TriggerOutput>(
    hooks: Seq<Hook<F>>,
    target: TargetModel,
    bytes: Seq<u8>,
    dispatch: DispatchModel,
)
    requires
        hooks.len() == 0,
        target.connected,
        dispatched(hooks, target, bytes, dispatch),
    ensures
        dispatch == (DispatchModel::Send { target: target.name, bytes }),
{
    let outcome = choose|outcome: Outcome|
        ran(hooks, request_for(target.name, bytes), outcome) && dispatch == #[trigger] dispatch_for(
            target,
            outcome,
        );
    law_run_without_hooks(hooks, request_for(target.name, bytes), outcome);
}

/// A target receives what is sent to it and nothing of what is sent to the
/// others: when one entry of `dispatches` holds bytes for `name`, these bytes
/// are all that `name` receives.
pub proof fn law_stream_of_one(dispatches: Seq<DispatchModel>, name: Seq<char>, j: int)
    requires
        0 <= j < dispatches.len(),
        forall|i: int| 0 <= i < dispatches.len() && i != j ==> sent_to(dispatches[i], name).len() == 0,
    ensures
        target_stream(dispatches, name) == sent_to(dispatches[j], name),
    decreases dispatches.len(),
{
    let front = dispatches.drop_last();
    if j == dispatches.len() - 1 {
        lemma_stream_of_none(front, name);
    } else {
        law_stream_of_one(front, name, j);
    }
}

proof fn lemma_stream_of_none(dispatches: Seq<DispatchModel>, name: Seq<char>)
    requires
        forall|i: int| 0 <= i < dispatches.len() ==> sent_to(dispatches[i], name).len() == 0,
    ensures
        target_stream(dispatches, name) == Seq::<u8>::empty(),
    decreases dispatches.len(),
{
    if dispatches.len() > 0 {
        lemma_stream_of_none(dispatches.drop_last(), name);
    }
}

/// In a session whose targets are connected and differ in their names, and
/// whose hook chain lets the payload through unchanged, every target
/// receives exactly the client's payload and no other byte.
pub proof fn law_every_target_gets_the_payload(
    targets: Seq<TargetModel>,
    outcomes: Seq<Outcome>,
    bytes: Seq<u8>,
    j: int,
)
    requires
        0 <= j < targets.len(),
        outcomes.len() == targets.len(),
        forall|i: int| 0 <= i < targets.len() ==> targets[i].connected,
        forall|i: int| 0 <= i < targets.len() ==> outcomes[i] == passed(bytes),
        forall|i: int, k: int|
            0 <= i < targets.len() && 0 <= k < targets.len() && i != k ==> targets[i].name
                != targets[k].name,
    ensures
        target_stream(plan(targets, outcomes), targets[j].name) == bytes,
{
    law_stream_of_one(plan(targets, outcomes), targets[j].name, j);
}

/// What a target receives of two runs of dispatches is what it receives of
/// the first, followed by what it receives of the second.
pub proof fn law_target_stream_in_order(
    first: Seq<DispatchModel>,
    second: Seq<DispatchModel>,
    name: Seq<char>,
)
    ensures
        target_stream(first + second, name) == target_stream(first, name) + target_stream(
            second,
            name,
        ),
    decreases second.len(),
{
    if second.len() > 0 {
        law_target_stream_in_order(first, second.drop_last(), name);
        assert((first + second).drop_last() =~= first + second.drop_last());
    }
}

/// Two payloads that a client sends one after the other reach every target
/// in that order: with connected targets of different names and a hook
/// chain that lets payloads through unchanged, a target receives the first
/// payload and then the second.
pub proof fn law_payloads_arrive_in_order(
    targets: Seq<TargetModel>,
    first: Seq<u8>,
    second: Seq<u8>,
    j: int,
)
    requires
        0 <= j < targets.len(),
        forall|i: int| 0 <= i < targets.len() ==> targets[i].connected,
        forall|i: int, k: int|
            0 <= i < targets.len() && 0 <= k < targets.len() && i != k ==> targets[i].name
                != targets[k].name,
    ensures
        target_stream(
            plan(targets, Seq::new(targets.len(), |i: int| passed(first))) + plan(
                targets,
                Seq::new(targets.len(), |i: int| passed(second)),
            ),
            targets[j].name,
        ) == first + second,
{
    let one = Seq::new(targets.len(), |i: int| passed(first));
    let two = Seq::new(targets.len(), |i: int| passed(second));
    law_every_target_gets_the_payload(targets, one, first, j);
    law_every_target_gets_the_payload(targets, two, second, j);
    law_target_stream_in_order(plan(targets, one), plan(targets, two), targets[j].name);
}

/// A response of a target that is not the designated one reaches no client,
/// whatever the hook chain made of it.
pub proof fn law_other_targets_reach_nobody(
    state: ServerModel,
    from_target: Seq<char>,
    to_addr: Endpoint,
    outcome: Outcome,
    addr: Endpoint,
)
    requires
        from_target != state.designated,
    ensures
        response_action(state, from_target, to_addr, outcome) == ActionModel::Discard,
        written_to(response_action(state, from_target, to_addr, outcome), addr).len() == 0,
{
}

/// What a client receives of two runs of actions is what it receives of the
/// first, followed by what it receives of the second.
pub proof fn law_client_stream_in_order(
    first: Seq<ActionModel>,
    second: Seq<ActionModel>,
    addr: Endpoint,
)
    ensures
        client_stream(first + second, addr) == client_stream(first, addr) + client_stream(
            second,
            addr,
        ),
    decreases second.len(),
{
    if second.len() > 0 {
        law_client_stream_in_order(first, second.drop_last(), addr);
        assert((first + second).drop_last() =~= first + second.drop_last());
    }
}

/// The responses of the designated target reach the client one after the
/// other, in the order in which the target produced them: when the hook
/// chain lets each of them through as `responses[i]`, the client receives
/// their concatenation.
pub proof fn law_responses_arrive_in_order(
    state: ServerModel,
    addr: Endpoint,
    responses: Seq<Seq<u8>>,
)
    requires
        state.clients.contains(addr),
    ensures
        client_stream(
            Seq::new(
                responses.len(),
                |i: int| response_action(state, state.designated, addr, passed(responses[i])),
            ),
            addr,
        ) == joined(responses),
    decreases responses.len(),
{
    let actions = Seq::new(
        responses.len(),
        |i: int| response_action(state, state.designated, addr, passed(responses[i])),
    );
    if responses.len() > 0 {
        let front = responses.drop_last();
        law_responses_arrive_in_order(state, addr, front);
        assert(actions.drop_last() =~= Seq::new(
            front.len(),
            |i: int| response_action(state, state.designated, addr, passed(front[i])),
        ));
    }
}

/// A link that lost its connection and got a new one sends what it sent
/// before: the hook chain is put the same request, and its answer becomes
/// the same dispatch, so a payload that is sent again after the reconnection
/// reaches the target with the same bytes.
pub proof fn law_replay_after_reconnect<F: Fn(HookRequest) -> TriggerOutput>(
    hooks: Seq<Hook<F>>,
    target: TargetModel,
    peer: Endpoint,
    bytes: Seq<u8>,
    dispatch: DispatchModel,
)
    requires
        target.connected,
    ensures
        target.disconnected().after_connect(Some(peer)).connected,
        target.disconnected().after_connect(Some(peer)).name == target.name,
        dispatched(hooks, target.disconnected().after_connect(Some(peer)), bytes, dispatch)
            == dispatched(hooks, target, bytes, dispatch),
{
    let again = target.disconnected().after_connect(Some(peer));
    assert forall|outcome: Outcome| dispatch_for(again, outcome) == dispatch_for(
        target,
        outcome,
    ) by {}
    if dispatched(hooks, target, bytes, dispatch) {
        let outcome = choose|outcome: Outcome|
            ran(hooks, request_for(target.name, bytes), outcome) && dispatch
                == #[trigger] dispatch_for(target, outcome);
    }
    if dispatched(hooks, again, bytes, dispatch) {
        let outcome = choose|outcome: Outcome|
            ran(hooks, request_for(again.name, bytes), outcome) && dispatch
                == #[trigger] dispatch_for(again, outcome);
    }
}

/// A read without bytes never becomes a broadcast or a response. On the
/// client's socket it becomes `ClientDisconnected`, which ends the session;
/// on a target's socket it disconnects the link, tells the server of the
/// loss at most, and sends the link's task to connect anew.
pub proof fn law_empty_read_disconnects(addr: Endpoint, target: TargetModel)
    ensures
        read_message(addr, Seq::empty()) == (MessageModel::ClientDisconnected { addr }),
        step_for(read_message(addr, Seq::empty())) == StepModel::Done(ActionModel::Stop),
        !target.after_read(Seq::empty()).connected,
        target.read_step(addr, Seq::empty()).message == target.loss_message(),
        !(target.read_step(addr, Seq::empty()).message matches Some(
            MessageModel::NewTargetMessage { .. },
        )),
        target.read_step(addr, Seq::empty()).next is Retry,
{
}

/// Every read with bytes becomes exactly one broadcast of these bytes.
pub proof fn law_read_becomes_broadcast(addr: Endpoint, chunk: Seq<u8>)
    requires
        chunk.len() > 0,
    ensures
        step_for(read_message(addr, chunk)) == StepModel::Done(
            ActionModel::Broadcast(BroadcastModel { bytes: chunk, from_addr: addr }),
        ),
{
}

/// However the client's bytes are split over reads, the broadcasts carry
/// them in the order in which they were read: what the broadcaster is handed
/// for a sequence of reads with bytes is the reads' concatenation.
pub proof fn law_reads_broadcast_in_order(addr: Endpoint, chunks: Seq<Seq<u8>>)
    requires
        forall|i: int| 0 <= i < chunks.len() ==> chunks[i].len() > 0,
    ensures
        broadcast_stream(read_messages(addr, chunks)) == joined(chunks),
    decreases chunks.len(),
{
    if chunks.len() > 0 {
        let front = chunks.drop_last();
        law_reads_broadcast_in_order(addr, front);
        assert(read_messages(addr, chunks).drop_last() =~= read_messages(addr, front));
        law_read_becomes_broadcast(addr, chunks.last());
    }
}

proof fn lemma_joined_front(first: Seq<u8>, rest: Seq<Seq<u8>>)
    ensures
        joined(seq![first] + rest) == first + joined(rest),
    decreases rest.len(),
{
    let all = seq![first] + rest;
    if rest.len() == 0 {
        assert(joined(all.drop_last()) =~= Seq::<u8>::empty());
    } else {
        lemma_joined_front(first, rest.drop_last());
        assert(all.drop_last() =~= seq![first] + rest.drop_last());
    }
}

/// Data that is longer than the read buffer is handed over in several reads,
/// each of them with bytes and none longer than the buffer, and the reads'
/// concatenation is the data.
pub proof fn law_full_reads_rejoin(data: Seq<u8>, size: int)
    requires
        size > 0,
    ensures
        joined(full_reads(data, size)) == data,
        forall|i: int|
            0 <= i < full_reads(data, size).len() ==> 0 < (#[trigger] full_reads(
                data,
                size,
            )[i]).len() <= size,
    decreases data.len(),
{
    if 0 < data.len() <= size {
        let reads = full_reads(data, size);
        assert(joined(reads.drop_last()) =~= Seq::<u8>::empty());
    } else if data.len() > size {
        let first = data.subrange(0, size);
        let rest = data.subrange(size, data.len() as int);
        law_full_reads_rejoin(rest, size);
        lemma_joined_front(first, full_reads(rest, size));
    }
}

/// Data that is longer than the read buffer reaches the broadcaster as
/// several broadcasts that carry it in order.
pub proof fn law_long_input_is_split_in_order(addr: Endpoint, data: Seq<u8>, size: int)
    requires
        size > 0,
    ensures
        broadcast_stream(read_messages(addr, full_reads(data, size))) == data,
{
    law_full_reads_rejoin(data, size);
    law_reads_broadcast_in_order(addr, full_reads(data, size));
}

/// With a chain of identity hooks the proxy is transparent in both
/// directions: a connected target gets the client's bytes as they are, and
/// the client gets the designated target's bytes as they are.
pub proof fn law_transparent_proxy(
    filters: Seq<HookFilter>,
    verdicts: Seq<Verdict>,
    state: ServerModel,
    target: TargetModel,
    addr: Endpoint,
    bytes: Seq<u8>,
)
    requires
        verdicts.len() == filters.len(),
        forall|i: int|
            0 <= i < filters.len() ==> verdicts[i] == Verdict::Keep || verdicts[i]
                == Verdict::Replace(bytes),
        target.connected,
        state.clients.contains(addr),
    ensures
        dispatch_for(target, chain(filters, request_for(target.name, bytes), verdicts)) == (
        DispatchModel::Send { target: target.name, bytes }),
        response_action(
            state,
            state.designated,
            addr,
            chain(
                filters,
                RequestModel {
                    direction: Direction::TargetToClient,
                    target_name: state.designated,
                    data: bytes,
                },
                verdicts,
            ),
        ) == (ActionModel::Respond { to_addr: addr, bytes }),
{
    law_identity_chain(filters, request_for(target.name, bytes), verdicts);
    law_identity_chain(
        filters,
        RequestModel {
            direction: Direction::TargetToClient,
            target_name: state.designated,
            data: bytes,
        },
        verdicts,
    );
}

/// True when every trigger of `hooks` keeps the payload, whatever the request.
pub open spec fn keeps_everything<F: Fn(HookRequest) -> TriggerOutput>(hooks: Seq<Hook<F>>) -> bool {
    forall|i: int, r: HookRequest, out: TriggerOutput|
        0 <= i < hooks.len() && #[trigger] call_ensures(hooks[i].trigger_fn, (r,), out)
            ==> out matches Ok(None)
}

proof fn lemma_kept_prefix<F: Fn(HookRequest) -> TriggerOutput>(
    hooks: Seq<Hook<F>>,
    request: RequestModel,
    outs: Seq<TriggerOutput>,
    n: nat,
)
    requires
        keeps_everything(hooks),
        explains(hooks, request, outs),
        n <= hooks.len(),
    ensures
        chain_upto(filters_of(hooks), request, verdicts_of(outs), n) == passed(request.data),
    decreases n,
{
    if n > 0 {
        lemma_kept_prefix(hooks, request, outs, (n - 1) as nat);
        let k = n - 1;
        if filters_of(hooks)[k].accepts(request) {
            assert(invoked(filters_of(hooks), request, verdicts_of(outs), k));
            assert(may_return(hooks[k].trigger_fn, request, outs[k]));
        }
    }
}

/// Hooks that keep every payload make the chain transparent: whatever run of
/// the chain explains the outcome, the outcome is the request's own data.
pub proof fn law_run_with_keeping_hooks<F: Fn(HookRequest) -> TriggerOutput>(
    hooks: Seq<Hook<F>>,
    request: RequestModel,
    outcome: Outcome,
)
    requires
        keeps_everything(hooks),
        ran(hooks, request, outcome),
    ensures
        outcome == passed(request.data),
{
    let outs = choose|outs: Seq<TriggerOutput>|
        #![trigger verdicts_of(outs)]
        explains(hooks, request, outs) && outcome == chain(
            filters_of(hooks),
            request,
            verdicts_of(outs),
        );
    lemma_kept_prefix(hooks, request, outs, hooks.len());
}

/// With hooks that keep every payload, a connected target gets exactly the
/// client's payload, whatever the hooks' filters are.
pub proof fn law_fan_out_with_keeping_hooks<F: Fn(HookRequest) -> TriggerOutput>(
    hooks: Seq<Hook<F>>,
    target: TargetModel,
    bytes: Seq<u8>,
    dispatch: DispatchModel,
)
    requires
        keeps_everything(hooks),
        target.connected,
        dispatched(hooks, target, bytes, dispatch),
    ensures
        dispatch == (DispatchModel::Send { target: target.name, bytes }),
{
    let outcome = choose|outcome: Outcome|
        ran(hooks, request_for(target.name, bytes), outcome) && dispatch == #[trigger] dispatch_for(
            target,
            outcome,
        );
    law_run_with_keeping_hooks(hooks, request_for(target.name, bytes), outcome);
}

/// The verdicts of a chain whose triggers all keep the payload.
pub open spec fn all_keep(filters: Seq<HookFilter>) -> Seq<Verdict> {
    Seq::new(filters.len(), |i: int| Verdict::Keep)
}

/// What the chain answers for each link when `bytes` are broadcast and every
/// trigger keeps the payload.
pub open spec fn kept_outcomes(
    targets: Seq<TargetModel>,
    filters: Seq<HookFilter>,
    bytes: Seq<u8>,
) -> Seq<Outcome> {
    Seq::new(
        targets.len(),
        |i: int| chain(filters, request_for(targets[i].name, bytes), all_keep(filters)),
    )
}

/// What the links get of `payloads`, broadcast one after the other, when
/// every trigger keeps the payload.
pub open spec fn fan_out(
    targets: Seq<TargetModel>,
    filters: Seq<HookFilter>,
    payloads: Seq<Seq<u8>>,
) -> Seq<DispatchModel>
    decreases payloads.len(),
{
    if payloads.len() == 0 {
        Seq::empty()
    } else {
        fan_out(targets, filters, payloads.drop_last()) + plan(
            targets,
            kept_outcomes(targets, filters, payloads.last()),
        )
    }
}

/// What the server does with `responses` of the designated target for the
/// client at `addr`, one after the other, when every trigger keeps the
/// payload.
pub open spec fn fan_in(
    state: ServerModel,
    filters: Seq<HookFilter>,
    addr: Endpoint,
    responses: Seq<Seq<u8>>,
) -> Seq<ActionModel> {
    Seq::new(
        responses.len(),
        |i: int|
            response_action(
                state,
                state.designated,
                addr,
                chain(
                    filters,
                    RequestModel {
                        direction: Direction::TargetToClient,
                        target_name: state.designated,
                        data: responses[i],
                    },
                    all_keep(filters),
                ),
            ),
    )
}

/// Any number of payloads reach every target in the order in which the
/// client sent them: with connected targets of different names and hooks that
/// keep every payload, a target receives the payloads' concatenation, and
/// nothing else.
pub proof fn law_payload_streams_arrive_in_order(
    targets: Seq<TargetModel>,
    filters: Seq<HookFilter>,
    payloads: Seq<Seq<u8>>,
    j: int,
)
    requires
        0 <= j < targets.len(),
        forall|i: int| 0 <= i < targets.len() ==> targets[i].connected,
        forall|i: int, k: int|
            0 <= i < targets.len() && 0 <= k < targets.len() && i != k ==> targets[i].name
                != targets[k].name,
    ensures
        target_stream(fan_out(targets, filters, payloads), targets[j].name) == joined(payloads),
    decreases payloads.len(),
{
    if payloads.len() > 0 {
        let front = payloads.drop_last();
        let last = payloads.last();
        let outcomes = kept_outcomes(targets, filters, last);
        law_payload_streams_arrive_in_order(targets, filters, front, j);
        assert forall|i: int| 0 <= i < targets.len() implies outcomes[i] == passed(last) by {
            law_identity_chain(filters, request_for(targets[i].name, last), all_keep(filters));
        }
        law_every_target_gets_the_payload(targets, outcomes, last, j);
        law_target_stream_in_order(
            fan_out(targets, filters, front),
            plan(targets, outcomes),
            targets[j].name,
        );
    }
}

/// Any number of responses of the designated target reach the client in the
/// order in which the target produced them, when the hooks keep every
/// payload: the client receives the responses' concatenation.
pub proof fn law_response_streams_arrive_in_order(
    state: ServerModel,
    filters: Seq<HookFilter>,
    addr: Endpoint,
    responses: Seq<Seq<u8>>,
)
    requires
        state.clients.contains(addr),
    ensures
        client_stream(fan_in(state, filters, addr, responses), addr) == joined(responses),
{
    assert forall|i: int| 0 <= i < responses.len() implies fan_in(
        state,
        filters,
        addr,
        responses,
    )[i] == response_action(state, state.designated, addr, passed(responses[i])) by {
        law_identity_chain(
            filters,
            RequestModel {
                direction: Direction::TargetToClient,
                target_name: state.designated,
                data: responses[i],
            },
            all_keep(filters),
        );
    }
    assert(fan_in(state, filters, addr, responses) =~= Seq::new(
        responses.len(),
        |i: int| response_action(state, state.designated, addr, passed(responses[i])),
    ));
    law_responses_arrive_in_order(state, addr, responses);
}

/// The proxy is transparent for whole streams. When every hook keeps every
/// payload and all targets are connected under different names, the bytes
/// `sent` that a client sends, read with a buffer of `size` bytes, are the
/// bytes that every target receives, and the bytes `replied` that the
/// designated target sends, read with the same buffer, are the bytes that the
/// client receives: nothing is added, dropped, reordered or framed.
pub proof fn law_transparent_streams(
    targets: Seq<TargetModel>,
    filters: Seq<HookFilter>,
    state: ServerModel,
    addr: Endpoint,
    sent: Seq<u8>,
    replied: Seq<u8>,
    size: int,
    j: int,
)
    requires
        size > 0,
        0 <= j < targets.len(),
        forall|i: int| 0 <= i < targets.len() ==> targets[i].connected,
        forall|i: int, k: int|
            0 <= i < targets.len() && 0 <= k < targets.len() && i != k ==> targets[i].name
                != targets[k].name,
        state.clients.contains(addr),
    ensures
        broadcast_stream(read_messages(addr, full_reads(sent, size))) == sent,
        target_stream(fan_out(targets, filters, full_reads(sent, size)), targets[j].name) == sent,
        client_stream(fan_in(state, filters, addr, full_reads(replied, size)), addr) == replied,
{
    law_long_input_is_split_in_order(addr, sent, size);
    law_full_reads_rejoin(sent, size);
    law_full_reads_rejoin(replied, size);
    law_payload_streams_arrive_in_order(targets, filters, full_reads(sent, size), j);
    law_response_streams_arrive_in_order(state, filters, addr, full_reads(replied, size));
}

} // verus!
