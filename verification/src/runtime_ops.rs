//! The capability operations: all that a sandboxed script can ask of the node.
//!
//! Each operation checks the mode of the context before it touches anything. A
//! call that is refused leaves the context exactly as it was.

use vstd::prelude::*;
use crate::abci::Event;
use crate::runtime::{
    lemma_applied_push,
    lemma_applied_reads_latest,
    outcome,
    writes_view,
    ContextView,
    OpStateContext,
    RuntimeError,
    RuntimeMode,
    RuntimeRunResultView,
};
use crate::store::Store;

verus! {

/// The value bound to `key` in `store`, if any.
pub open spec fn found(store: Map<Seq<char>, Seq<char>>, key: Seq<char>) -> Option<Seq<char>> {
    if store.contains_key(key) {
        Some(store[key])
    } else {
        None
    }
}

/// The context after `kv_set` has bound `key` to `value`: the write is kept
/// with the script's writes, and the script sees it from now on.
pub open spec fn after_set(context: ContextView, key: Seq<char>, value: Seq<char>) -> ContextView {
    ContextView { writes: context.writes.push((key, value)), ..context }
}

/// A script sees its write at once: after `kv_set`, the key reads as the
/// value, and every other key reads as before.
pub proof fn lemma_set_is_seen(context: ContextView, key: Seq<char>, value: Seq<char>)
    ensures
        after_set(context, key, value).store() == context.store().insert(key, value),
        found(after_set(context, key, value).store(), key) == Some(value),
        after_set(context, key, value).started == context.started,
{
    lemma_applied_push(context.started, context.writes, key, value);
}

/// What `kv_set` hands back when it succeeds: the value that the key had, or
/// the new one where it had none.
pub open spec fn set_reply(context: ContextView, key: Seq<char>, value: Seq<char>) -> Seq<char> {
    match found(context.store(), key) {
        Some(previous) => previous,
        None => value,
    }
}

/// The context after `emit` has appended `event`.
pub open spec fn after_emit(context: ContextView, event: Event) -> ContextView {
    ContextView { events: context.events.push(event), ..context }
}

/// The context after `respond` has set `response`.
pub open spec fn after_respond(context: ContextView, response: serde_json::Value) -> ContextView {
    ContextView { response: Some(response), ..context }
}

/// The refusal of a call that only `expected` mode permits.
pub open spec fn refused<T>(expected: RuntimeMode) -> Result<T, RuntimeError> {
    Err(RuntimeError::ModeViolation { expected })
}

/// Binds `key` to `value`. Permitted in execute mode only.
///
/// The write is kept in the context and reaches the store when the invocation
/// ends well. In query mode the call is refused. In execute mode it fails
/// only where the store's backend fails to say what the key held, and then
/// nothing is written.
pub fn op_kv_set<S: Store>(ctx: &mut OpStateContext<S>, key: String, value: String) -> (r: Result<
    String,
    RuntimeError,
>)
    ensures
        capability_step(old(ctx)@, final(ctx)@),
        old(ctx)@.mode == RuntimeMode::Query ==> {
            &&& r == refused::<String>(RuntimeMode::Execute)
            &&& final(ctx)@ == old(ctx)@
        },
        old(ctx)@.mode == RuntimeMode::Execute && old(ctx)@.dependable ==> r is Ok,
        old(ctx)@.mode == RuntimeMode::Execute ==> match r {
            Ok(reply) => {
                &&& final(ctx)@ == after_set(old(ctx)@, key@, value@)
                &&& reply@ == set_reply(old(ctx)@, key@, value@)
            },
            Err(error) => error is Store && final(ctx)@ == old(ctx)@,
        },
{
    match ctx.mode.assert_execute() {
        Err(error) => Err(error),
        Ok(()) => {
            proof {
                lemma_applied_reads_latest(ctx@.started, ctx@.writes, key@);
            }
            let previous = match ctx.written(&key) {
                Some(previous) => Some(previous),
                None => match ctx.store.get(key.clone()) {
                    Ok(previous) => previous,
                    Err(error) => {
                        return Err(RuntimeError::Store(error));
                    },
                },
            };
            let reply = match previous {
                Some(previous) => previous,
                None => value.clone(),
            };
            let ghost before = ctx.writes@;
            ctx.writes.push((key, value));
            assert(writes_view(ctx.writes@) =~= writes_view(before).push((key@, value@)));
            Ok(reply)
        },
    }
}

/// Reads the value bound to `key`, as the script sees it: what the script
/// wrote last, or what the store holds. Permitted in either mode.
///
/// Fails with `KeyNotFound` where there is no such key, and otherwise only
/// where the store's backend fails.
pub fn op_kv_get<S: Store>(ctx: &OpStateContext<S>, key: String) -> (r: Result<
    String,
    RuntimeError,
>)
    ensures
        match r {
            Ok(value) => found(ctx@.store(), key@) == Some(value@),
            Err(RuntimeError::KeyNotFound) => found(ctx@.store(), key@) is None,
            Err(error) => error is Store && !ctx@.dependable,
        },
        ctx@.dependable && found(ctx@.store(), key@) is None ==> r == Err::<String, RuntimeError>(
            RuntimeError::KeyNotFound,
        ),
{
    proof {
        lemma_applied_reads_latest(ctx@.started, ctx@.writes, key@);
    }
    match ctx.written(&key) {
        Some(value) => Ok(value),
        None => match ctx.store.get(key) {
            Ok(Some(value)) => Ok(value),
            Ok(None) => Err(RuntimeError::KeyNotFound),
            Err(error) => Err(RuntimeError::Store(error)),
        },
    }
}

/// Appends `event` to the events of the invocation. Permitted in execute mode
/// only.
pub fn op_ctx_emit<S: Store>(ctx: &mut OpStateContext<S>, event: Event) -> (r: Result<
    (),
    RuntimeError,
>)
    ensures
        capability_step(old(ctx)@, final(ctx)@),
        match old(ctx)@.mode {
            RuntimeMode::Execute => r is Ok && final(ctx)@ == after_emit(old(ctx)@, event),
            RuntimeMode::Query => {
                &&& r == refused::<()>(RuntimeMode::Execute)
                &&& final(ctx)@ == old(ctx)@
            },
        },
{
    match ctx.mode.assert_execute() {
        Err(error) => Err(error),
        Ok(()) => {
            ctx.events.push(event);
            Ok(())
        },
    }
}

/// Sets the response of the invocation. Permitted in query mode only, and only
/// once.
pub fn op_ctx_respond<S: Store>(ctx: &mut OpStateContext<S>, response: serde_json::Value) -> (r:
    Result<(), RuntimeError>)
    ensures
        capability_step(old(ctx)@, final(ctx)@),
        match old(ctx)@.mode {
            RuntimeMode::Execute => {
                &&& r == refused::<()>(RuntimeMode::Query)
                &&& final(ctx)@ == old(ctx)@
            },
            RuntimeMode::Query => match old(ctx)@.response {
                Some(_) => {
                    &&& r == Err::<(), RuntimeError>(RuntimeError::AlreadyResponded)
                    &&& final(ctx)@ == old(ctx)@
                },
                None => r is Ok && final(ctx)@ == after_respond(old(ctx)@, response),
            },
        },
{
    match ctx.mode.assert_query() {
        Err(error) => Err(error),
        Ok(()) => {
            if ctx.response.is_some() {
                Err(RuntimeError::AlreadyResponded)
            } else {
                ctx.response = Some(response);
                Ok(())
            }
        },
    }
}

/// Returns the identity of whoever sent the command. Permitted in either mode.
pub fn op_ctx_get_sender<S: Store>(ctx: &OpStateContext<S>) -> (r: Result<String, RuntimeError>)
    ensures
        r matches Ok(sender) && sender@ == ctx@.sender,
{
    Ok(ctx.sender.clone())
}

/// Returns the request of the invocation. Permitted in either mode.
pub fn op_ctx_get_request<S: Store>(ctx: &OpStateContext<S>) -> (r: Result<
    serde_json::Value,
    RuntimeError,
>)
    ensures
        r matches Ok(request) && request == ctx@.request,
{
    Ok(ctx.request.clone())
}

/// Events come out in the order in which they went in: an execution that
/// starts without events and emits `first` and then `second` hands back
/// exactly these two, in this order.
pub proof fn lemma_events_keep_order(context: ContextView, first: Event, second: Event)
    requires
        context.mode == RuntimeMode::Execute,
        context.events == Seq::<Event>::empty(),
    ensures
        outcome(after_emit(after_emit(context, first), second), Ok(())) == Ok::<
            RuntimeRunResultView,
            RuntimeError,
        >(RuntimeRunResultView::Execute(seq![first, second])),
{
    assert(context.events.push(first).push(second) =~= seq![first, second]);
}

/// What one call of an operation may make of a context: nothing, or what the
/// mode of the context permits.
pub open spec fn capability_step(before: ContextView, after: ContextView) -> bool {
    ||| after == before
    ||| before.mode == RuntimeMode::Execute && exists|key: Seq<char>, value: Seq<char>|
        after == #[trigger] after_set(before, key, value)
    ||| before.mode == RuntimeMode::Execute && exists|event: Event|
        after == #[trigger] after_emit(before, event)
    ||| before.mode == RuntimeMode::Query && before.response is None && exists|
        response: serde_json::Value,
    | after == #[trigger] after_respond(before, response)
}

/// Whether `contexts` are the states that a context goes through while a
/// script calls operations on it, one call after the other.
pub open spec fn script_run(contexts: Seq<ContextView>) -> bool {
    &&& contexts.len() > 0
    &&& forall|i: int|
        0 <= i < contexts.len() - 1 ==> capability_step(#[trigger] contexts[i], contexts[i + 1])
}

/// A script cannot leave its mode, whatever it calls, and it never changes
/// what the store held when it started. In query mode it can neither write
/// nor emit an event, and a response, once set, stays. In execute mode it
/// cannot set a response, and what it has written and emitted stays, in
/// order, before what follows.
pub proof fn lemma_script_stays_in_mode(contexts: Seq<ContextView>)
    requires
        script_run(contexts),
    ensures
        contexts.last().mode == contexts[0].mode,
        contexts.last().started == contexts[0].started,
        contexts.last().dependable == contexts[0].dependable,
        contexts.last().sender == contexts[0].sender,
        contexts.last().request == contexts[0].request,
        contexts[0].mode == RuntimeMode::Query ==> {
            &&& contexts.last().writes == contexts[0].writes
            &&& contexts.last().store() == contexts[0].store()
            &&& contexts.last().events == contexts[0].events
            &&& contexts[0].response is Some ==> contexts.last().response == contexts[0].response
        },
        contexts[0].mode == RuntimeMode::Execute ==> {
            &&& contexts.last().response == contexts[0].response
            &&& contexts[0].writes.is_prefix_of(contexts.last().writes)
            &&& contexts[0].events.is_prefix_of(contexts.last().events)
        },
    decreases contexts.len(),
{
    if contexts.len() > 1 {
        let earlier = contexts.drop_last();
        assert forall|i: int| 0 <= i < earlier.len() - 1 implies capability_step(
            #[trigger] earlier[i],
            earlier[i + 1],
        ) by {
            assert(capability_step(contexts[i], contexts[i + 1]));
        }
        lemma_script_stays_in_mode(earlier);
        let before = contexts[contexts.len() - 2];
        assert(earlier.last() == before);
        assert(capability_step(before, contexts[contexts.len() - 2 + 1]));
    }
}

} // verus!
