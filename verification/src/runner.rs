//! The command runner: the one owner of the store, the height and the digest.
//!
//! Commands are handled one at a time. `handle_info` and `handle_commit` run
//! to completion at once. A query or an execution needs a script to run in
//! between. For that time the runner splits in two: the script's context,
//! which takes the store, and the [`RunnerState`], which waits. When the script
//! is done, the two are put together again. As long as a script runs there is
//! no runner to hand another command to.

use vstd::prelude::*;
use vstd::string::StringExecFns;
use crate::abci::{
    Event,
    ExecTxResult,
    ExecTxResultView,
    ResponseQuery,
    ResponseQueryView,
    CODE_OK,
};
use crate::json;
use crate::runtime::{
    interrupted,
    kept,
    outcome,
    ContextView,
    OpStateContext,
    RuntimeError,
    RuntimeMode,
    RuntimeRunResultView,
};
use crate::runtime_ops::{after_set, found, lemma_script_stays_in_mode, lemma_set_is_seen, script_run};
use crate::store::{MemoryStore, Store};
use crate::varint::{encode_varint, lemma_varint_injective, varint, MAX_VARINT_LENGTH};

verus! {

/// A [`RunnerState`] as contracts see it.
pub struct StateView {
    pub height: int,
    pub digest: Seq<u8>,
}

/// A runner as contracts see it.
pub struct RunnerView {
    pub store: Map<Seq<char>, Seq<char>>,
    pub dependable: bool,
    pub state: StateView,
}

/// The state after a commit of a store that holds `size` entries.
pub open spec fn committed(state: StateView, size: nat) -> StateView {
    StateView { height: state.height + 1, digest: varint(size) }
}

/// The state after one commit for each element of `sizes`, in order, where the
/// store held that many entries at the time.
pub open spec fn committed_all(state: StateView, sizes: Seq<nat>) -> StateView
    decreases sizes.len(),
{
    if sizes.len() == 0 {
        state
    } else {
        committed(committed_all(state, sizes.drop_last()), sizes.last())
    }
}

/// The sender under which query scripts run.
pub open spec fn querier() -> Seq<char> {
    "<querier>"@
}

/// The context in which a script starts.
pub open spec fn fresh_context(
    runner: RunnerView,
    mode: RuntimeMode,
    sender: Seq<char>,
    request: serde_json::Value,
) -> ContextView {
    ContextView {
        mode,
        started: runner.store,
        writes: Seq::<(Seq<char>, Seq<char>)>::empty(),
        dependable: runner.dependable,
        sender,
        events: Seq::<Event>::empty(),
        request,
        response: None,
    }
}

/// The height and the digest of the last committed block.
///
/// Only a runner makes one, and only a commit changes it. While a script runs,
/// the state waits apart from the store, which the script's context holds.
pub struct RunnerState {
    height: i64,
    app_hash: Vec<u8>,
}

/// The runner between two commands.
pub struct Runner<S: Store> {
    store: S,
    state: RunnerState,
}

impl View for RunnerState {
    type V = StateView;

    closed spec fn view(&self) -> StateView {
        StateView { height: self.height as int, digest: self.app_hash@ }
    }
}

impl RunnerState {
    /// The height counts commits, so it is never negative.
    #[verifier::type_invariant]
    spec fn counts_commits(&self) -> bool {
        self.height >= 0
    }
}

impl<S: Store> View for Runner<S> {
    type V = RunnerView;

    closed spec fn view(&self) -> RunnerView {
        RunnerView {
            store: self.store.entries(),
            dependable: self.store.dependable(),
            state: self.state@,
        }
    }
}

impl Runner<MemoryStore> {
    /// Creates a runner at height 0 with an empty store in memory. Until the
    /// first commit the digest is sixteen zero bytes.
    pub fn new() -> (runner: Self)
        ensures
            runner@.store == Map::<Seq<char>, Seq<char>>::empty(),
            runner@.dependable,
            runner@.state.height == 0,
            runner@.state.digest == Seq::new(MAX_VARINT_LENGTH as nat, |i: int| 0u8),
    {
        Runner::with_store(MemoryStore::new())
    }
}

impl<S: Store> Runner<S> {
    /// Creates a runner at height 0 over `store`.
    pub fn with_store(store: S) -> (runner: Self)
        ensures
            runner@.store == store.entries(),
            runner@.dependable == store.dependable(),
            runner@.state.height == 0,
            runner@.state.digest == Seq::new(MAX_VARINT_LENGTH as nat, |i: int| 0u8),
    {
        let mut app_hash: Vec<u8> = Vec::new();
        let mut i: usize = 0;
        while i < MAX_VARINT_LENGTH
            invariant
                i <= MAX_VARINT_LENGTH,
                app_hash@ == Seq::new(i as nat, |i: int| 0u8),
            decreases MAX_VARINT_LENGTH - i,
        {
            app_hash.push(0u8);
            i = i + 1;
            assert(app_hash@ =~= Seq::new(i as nat, |i: int| 0u8));
        }
        Runner { store, state: RunnerState { height: 0, app_hash } }
    }

    /// Reports the height and the digest. Changes nothing.
    pub fn handle_info(&self) -> (r: (i64, Vec<u8>))
        ensures
            r.0 == self@.state.height,
            r.1@ == self@.state.digest,
            r.0 >= 0,
    {
        proof {
            use_type_invariant(&self.state);
        }
        (self.state.height, self.state.app_hash.clone())
    }

    /// Commits: the digest becomes the encoding of the number of entries in
    /// the store, and the height grows by one. Reports both.
    ///
    /// Where the store cannot say how many entries it holds, nothing changes.
    pub fn handle_commit(&mut self) -> (r: Result<(i64, Vec<u8>), RuntimeError>)
        requires
            old(self)@.state.height < i64::MAX,
        ensures
            final(self)@.store == old(self)@.store,
            final(self)@.dependable == old(self)@.dependable,
            old(self)@.dependable ==> r is Ok,
            match r {
                Ok((height, digest)) => {
                    &&& old(self)@.store.dom().finite()
                    &&& final(self)@.state == committed(old(self)@.state, old(self)@.store.len())
                    &&& height == final(self)@.state.height
                    &&& digest@ == final(self)@.state.digest
                    &&& height >= 1
                },
                Err(error) => error is Store && final(self)@ == old(self)@,
            },
    {
        proof {
            use_type_invariant(&self.state);
        }
        match self.store.len() {
            Err(error) => Err(RuntimeError::Store(error)),
            Ok(size) => {
                self.state.app_hash = encode_varint(size as u64);
                self.state.height = self.state.height + 1;
                Ok((self.state.height, self.state.app_hash.clone()))
            },
        }
    }
}

/// Turns the outcome of reading a request into the request or the error of the
/// command: a failure becomes `InvalidRequest` with the failure's text.
pub fn request_from(parsed: Result<serde_json::Value, serde_json::Error>) -> (r: Result<
    serde_json::Value,
    RuntimeError,
>)
    ensures
        match parsed {
            Ok(value) => r == Ok::<serde_json::Value, RuntimeError>(value),
            Err(failure) => r matches Err(RuntimeError::InvalidRequest(text)) && text@
                == json::error_text(failure),
        },
{
    match parsed {
        Ok(value) => Ok(value),
        Err(failure) => Err(RuntimeError::InvalidRequest(json::describe(&failure))),
    }
}

/// Wraps the written response of a query under `height`; a failure to write
/// it becomes `Encoding` with the failure's text.
pub fn query_response(written: Result<Vec<u8>, serde_json::Error>, height: i64) -> (r: Result<
    ResponseQuery,
    RuntimeError,
>)
    ensures
        match written {
            Ok(value) => r matches Ok(response) && response@ == (ResponseQueryView {
                code: CODE_OK,
                log: Seq::<char>::empty(),
                value: value@,
                height: height as int,
            }),
            Err(failure) => r matches Err(RuntimeError::Encoding(text)) && text@
                == json::error_text(failure),
        },
{
    match written {
        Ok(value) => Ok(ResponseQuery { code: CODE_OK, log: String::new(), value, height }),
        Err(failure) => Err(RuntimeError::Encoding(json::describe(&failure))),
    }
}

/// The result of an execution whose script ended well: its events, with the
/// code of success and an empty log.
pub fn execute_response(events: Vec<Event>) -> (r: ExecTxResult)
    ensures
        r@ == (ExecTxResultView { code: CODE_OK, log: Seq::<char>::empty(), events: events@ }),
        r.events == events,
{
    ExecTxResult { code: CODE_OK, log: String::new(), events }
}

/// The runner that is put together again after a script has run: the state
/// that waited, and the store with what the invocation leaves in it.
pub open spec fn resumed(
    state: StateView,
    context: ContextView,
    evaluated: Result<(), RuntimeError>,
) -> RunnerView {
    RunnerView { store: kept(context, evaluated), dependable: context.dependable, state }
}

impl<S: Store> Runner<S> {
    /// Opens the invocation of a query script on the request in `request`.
    ///
    /// The script runs in query mode, under the sender `<querier>`, on the
    /// document that the bytes hold. The runner splits into its state and the
    /// script's context, which now holds the store. Bytes that hold no
    /// document are refused with the text of the failure to read them, and
    /// the runner comes back as it was.
    pub fn start_query(self, request: &[u8]) -> (r: Result<
        (RunnerState, OpStateContext<S>),
        (Runner<S>, RuntimeError),
    >)
        ensures
            match json::decoded(request@) {
                Ok(document) => r matches Ok((state, context)) && state@ == self@.state
                    && context@ == fresh_context(self@, RuntimeMode::Query, querier(), document),
                Err(text) => r matches Err((runner, RuntimeError::InvalidRequest(t)))
                    && runner@ == self@ && t@ == text,
            },
    {
        match request_from(json::from_slice(request)) {
            Err(error) => Err((self, error)),
            Ok(document) => Ok(self.start(RuntimeMode::Query, "<querier>", document)),
        }
    }

    /// Opens the invocation of an execute script for `sender` on `request`.
    /// The runner splits into its state and the script's context, which now
    /// holds the store.
    pub fn start_execute(self, sender: &str, request: serde_json::Value) -> (r: (
        RunnerState,
        OpStateContext<S>,
    ))
        ensures
            r.0@ == self@.state,
            r.1@ == fresh_context(self@, RuntimeMode::Execute, sender@, request),
    {
        self.start(RuntimeMode::Execute, sender, request)
    }

    fn start(self, mode: RuntimeMode, sender: &str, request: serde_json::Value) -> (r: (
        RunnerState,
        OpStateContext<S>,
    ))
        ensures
            r.0@ == self@.state,
            r.1@ == fresh_context(self@, mode, sender@, request),
    {
        let Runner { store, state } = self;
        (state, OpStateContext::new(store, mode, sender, request))
    }
}

impl RunnerState {
    /// Closes the invocation of a query script and puts the runner together
    /// again. `evaluated` says how the script's evaluation ended.
    ///
    /// A failed evaluation fails the query with the same error, and a script
    /// that ended without responding fails it with `MissingResponse`.
    /// Otherwise the answer is the response, written as JSON, under the
    /// current height. The store, the height and the digest stay as they
    /// were, whatever the script did.
    pub fn handle_query<S: Store>(
        self,
        context: OpStateContext<S>,
        evaluated: Result<(), RuntimeError>,
    ) -> (r: (Runner<S>, Result<ResponseQuery, RuntimeError>))
        requires
            context@.mode == RuntimeMode::Query,
        ensures
            r.0@ == resumed(self@, context@, evaluated),
            r.0@.store == context@.started,
            match outcome(context@, evaluated) {
                Ok(RuntimeRunResultView::Query(response)) => match json::encoded(response) {
                    Ok(value) => r.1 matches Ok(answer) && answer@ == (ResponseQueryView {
                        code: CODE_OK,
                        log: Seq::<char>::empty(),
                        value,
                        height: self@.height,
                    }),
                    Err(text) => r.1 matches Err(RuntimeError::Encoding(t)) && t@ == text,
                },
                Ok(RuntimeRunResultView::Execute(_)) => false,
                Err(error) => r.1 == Err::<ResponseQuery, RuntimeError>(error),
            },
    {
        let height = self.height;
        let (store, response) = context.finish_query(evaluated);
        let runner = Runner { store, state: self };
        match response {
            Ok(response) => (runner, query_response(json::to_vec(&response), height)),
            Err(error) => (runner, Err(error)),
        }
    }

    /// Closes the invocation of an execute script and puts the runner together
    /// again. `evaluated` says how the script's evaluation ended.
    ///
    /// A failed evaluation fails the execution with the same error, and
    /// nothing of what the script did remains: the store holds what it held
    /// before, and the events are dropped. Otherwise the script's writes are
    /// made to the store, and the result holds the events in the order of
    /// emission. The height and the digest stay as they were in either case.
    ///
    /// A store whose backend fails may fail while the writes are made to it.
    /// The execution then fails with the store's error, and the store holds
    /// the writes that were made before.
    pub fn handle_execute<S: Store>(
        self,
        context: OpStateContext<S>,
        evaluated: Result<(), RuntimeError>,
    ) -> (r: (Runner<S>, Result<ExecTxResult, RuntimeError>))
        requires
            context@.mode == RuntimeMode::Execute,
        ensures
            r.0@.state == self@,
            r.0@.dependable == context@.dependable,
            context@.dependable && evaluated is Ok ==> r.1 is Ok,
            match evaluated {
                Err(error) => {
                    &&& r.1 == Err::<ExecTxResult, RuntimeError>(error)
                    &&& r.0@ == resumed(self@, context@, evaluated)
                    &&& r.0@.store == context@.started
                },
                Ok(()) => match r.1 {
                    Ok(result) => {
                        &&& result@ == (ExecTxResultView {
                            code: CODE_OK,
                            log: Seq::<char>::empty(),
                            events: context@.events,
                        })
                        &&& r.0@ == resumed(self@, context@, evaluated)
                        &&& r.0@.store == context@.store()
                    },
                    Err(error) => error is Store && exists|made: int|
                        interrupted(context@, r.0@.store, made),
                },
            },
    {
        let ghost started = context@;
        let (store, events) = context.finish_execute(evaluated);
        let ghost entries = store.entries();
        let runner = Runner { store, state: self };
        match events {
            Ok(events) => (runner, Ok(execute_response(events))),
            Err(error) => {
                proof {
                    if evaluated is Ok {
                        let made = choose|made: int| interrupted(started, entries, made);
                        assert(interrupted(started, runner@.store, made));
                    }
                }
                (runner, Err(error))
            },
        }
    }
}

/// A command, as it waits in the runner's queue.
#[derive(Debug)]
#[allow(inconsistent_fields)]
pub enum RunnerCommand {
    /// Report the height and the digest.
    GetInfo,
    /// Run the query script in the file `path` on the request in `request`.
    Query { path: String, request: Vec<u8> },
    /// Run the execute script in the file `path` for `sender` on `request`.
    Execute { path: String, sender: String, request: serde_json::Value },
    /// Commit the store as it is.
    Commit,
}

/// The one reply to a command.
#[derive(Debug)]
pub enum RunnerReply {
    GetInfo(i64, Vec<u8>),
    Query(Result<ResponseQuery, RuntimeError>),
    Execute(Result<ExecTxResult, RuntimeError>),
    Commit(Result<(i64, Vec<u8>), RuntimeError>),
}

impl RunnerReply {
    /// Tells whether the runner goes on to the next command, once this reply
    /// has been handed to its channel and `delivered` says whether the
    /// channel took it.
    ///
    /// Only a channel that fails ends the runner. A reply that reports a
    /// failure, be it of a script, of a request or of the store at a commit,
    /// is a reply like any other.
    pub fn goes_on(&self, delivered: bool) -> (r: bool)
        ensures
            r == delivered,
    {
        delivered
    }
}

/// What the runner makes of a command.
pub enum Step<S: Store> {
    /// The command is done. The runner is ready for the next one.
    Done { runner: Runner<S>, reply: RunnerReply },
    /// The script in the file `path` has to run on `context` first. Until it
    /// has, there is no runner.
    Script { state: RunnerState, context: OpStateContext<S>, path: String },
}

impl<S: Store> Runner<S> {
    /// Takes the next command from the queue: answers it at once, or opens
    /// the invocation of the script that it needs.
    pub fn handle(self, command: RunnerCommand) -> (step: Step<S>)
        requires
            command is Commit ==> self@.state.height < i64::MAX,
        ensures
            match command {
                RunnerCommand::GetInfo => step matches Step::Done {
                    runner,
                    reply: RunnerReply::GetInfo(height, digest),
                } && runner@ == self@ && height == self@.state.height && digest@
                    == self@.state.digest,
                RunnerCommand::Commit => step matches Step::Done {
                    runner,
                    reply: RunnerReply::Commit(reply),
                } && runner@.store == self@.store && runner@.dependable == self@.dependable && (
                self@.dependable ==> reply is Ok) && match reply {
                    Ok((height, digest)) => {
                        &&& runner@.state == committed(self@.state, self@.store.len())
                        &&& height == runner@.state.height
                        &&& digest@ == runner@.state.digest
                    },
                    Err(error) => error is Store && runner@ == self@,
                },
                RunnerCommand::Query { path, request } => match json::decoded(request@) {
                    Ok(document) => step matches Step::Script { state, context, path: file }
                        && file == path && state@ == self@.state && context@ == fresh_context(
                        self@,
                        RuntimeMode::Query,
                        querier(),
                        document,
                    ),
                    Err(text) => step matches Step::Done {
                        runner,
                        reply: RunnerReply::Query(Err(RuntimeError::InvalidRequest(t))),
                    } && runner@ == self@ && t@ == text,
                },
                RunnerCommand::Execute { path, sender, request } => step matches Step::Script {
                    state,
                    context,
                    path: file,
                } && file == path && state@ == self@.state && context@ == fresh_context(
                    self@,
                    RuntimeMode::Execute,
                    sender@,
                    request,
                ),
            },
    {
        match command {
            RunnerCommand::GetInfo => {
                let (height, digest) = self.handle_info();
                Step::Done { runner: self, reply: RunnerReply::GetInfo(height, digest) }
            },
            RunnerCommand::Commit => {
                let mut runner = self;
                let reply = runner.handle_commit();
                Step::Done { runner, reply: RunnerReply::Commit(reply) }
            },
            RunnerCommand::Query { path, request } => match self.start_query(request.as_slice()) {
                Ok((state, context)) => Step::Script { state, context, path },
                Err((runner, error)) => Step::Done {
                    runner,
                    reply: RunnerReply::Query(Err(error)),
                },
            },
            RunnerCommand::Execute { path, sender, request } => {
                let (state, context) = self.start_execute(sender.as_str(), request);
                Step::Script { state, context, path }
            },
        }
    }
}

impl RunnerState {
    /// Closes the invocation that [`Runner::handle`] opened, once its script
    /// has run: [`RunnerState::handle_query`] for a query,
    /// [`RunnerState::handle_execute`] for an execution.
    pub fn resume<S: Store>(
        self,
        context: OpStateContext<S>,
        evaluated: Result<(), RuntimeError>,
    ) -> (r: (Runner<S>, RunnerReply))
        ensures
            r.0@.state == self@,
            r.0@.dependable == context@.dependable,
            evaluated is Err ==> r.0@.store == context@.started,
            match context@.mode {
                RuntimeMode::Query => r.1 matches RunnerReply::Query(answer) && r.0@ == resumed(
                    self@,
                    context@,
                    evaluated,
                ) && match outcome(context@, evaluated) {
                    Ok(RuntimeRunResultView::Query(response)) => match json::encoded(response) {
                        Ok(value) => answer matches Ok(a) && a@ == (ResponseQueryView {
                            code: CODE_OK,
                            log: Seq::<char>::empty(),
                            value,
                            height: self@.height,
                        }),
                        Err(text) => answer matches Err(RuntimeError::Encoding(t)) && t@ == text,
                    },
                    Ok(RuntimeRunResultView::Execute(_)) => false,
                    Err(error) => answer == Err::<ResponseQuery, RuntimeError>(error),
                },
                RuntimeMode::Execute => r.1 matches RunnerReply::Execute(done) && (
                context@.dependable && evaluated is Ok ==> done is Ok) && match evaluated {
                    Err(error) => done == Err::<ExecTxResult, RuntimeError>(error) && r.0@
                        == resumed(self@, context@, evaluated),
                    Ok(()) => match done {
                        Ok(result) => result@ == (ExecTxResultView {
                            code: CODE_OK,
                            log: Seq::<char>::empty(),
                            events: context@.events,
                        }) && r.0@ == resumed(self@, context@, evaluated),
                        Err(error) => error is Store && exists|made: int|
                            interrupted(context@, r.0@.store, made),
                    },
                },
            },
    {
        match context.mode() {
            RuntimeMode::Query => {
                let (runner, answer) = self.handle_query(context, evaluated);
                (runner, RunnerReply::Query(answer))
            },
            RuntimeMode::Execute => {
                let ghost started = context@;
                let (runner, result) = self.handle_execute(context, evaluated);
                proof {
                    if evaluated is Ok && result is Err {
                        let made = choose|made: int| interrupted(started, runner@.store, made);
                        assert(interrupted(started, runner@.store, made));
                    }
                }
                (runner, RunnerReply::Execute(result))
            },
        }
    }
}

/// Every commit raises the height by one: after one commit for each element
/// of `sizes`, the height has grown by their number.
pub proof fn lemma_commits_count(state: StateView, sizes: Seq<nat>)
    ensures
        committed_all(state, sizes).height == state.height + sizes.len(),
    decreases sizes.len(),
{
    if sizes.len() > 0 {
        lemma_commits_count(state, sizes.drop_last());
    }
}

/// The digest follows the size of the store: a commit reports another digest
/// than the commit before it exactly when the store holds another number of
/// entries than it held then.
pub proof fn lemma_digest_tracks_size(state: StateView, before: nat, now: nat)
    ensures
        committed(committed(state, before), now).digest != committed(state, before).digest <==> now
            != before,
{
    if varint(now) == varint(before) {
        lemma_varint_injective(now, before);
    }
}

/// What one execution writes, the next query reads: where a script binds
/// `key` to `value` while it executes a transaction that ends well, a query
/// that starts once the execution is closed finds `value` under `key`.
pub proof fn lemma_set_then_get(
    runner: RunnerView,
    sender: Seq<char>,
    request: serde_json::Value,
    key: Seq<char>,
    value: Seq<char>,
    question: serde_json::Value,
)
    ensures
        ({
            let executed = after_set(
                fresh_context(runner, RuntimeMode::Execute, sender, request),
                key,
                value,
            );
            let querying = fresh_context(
                resumed(runner.state, executed, Ok(())),
                RuntimeMode::Query,
                querier(),
                question,
            );
            found(querying.store(), key) == Some(value)
        }),
{
    lemma_set_is_seen(fresh_context(runner, RuntimeMode::Execute, sender, request), key, value);
}

/// Commands take effect in the order in which they are handled: where two
/// executions that end well bind the same key one after the other, a query
/// that follows them finds the value of the second.
pub proof fn lemma_last_write_wins(
    runner: RunnerView,
    key: Seq<char>,
    first: Seq<char>,
    second: Seq<char>,
    sender: Seq<char>,
    request: serde_json::Value,
)
    ensures
        ({
            let one = after_set(
                fresh_context(runner, RuntimeMode::Execute, sender, request),
                key,
                first,
            );
            let between = resumed(runner.state, one, Ok(()));
            let two = after_set(
                fresh_context(between, RuntimeMode::Execute, sender, request),
                key,
                second,
            );
            let querying = fresh_context(
                resumed(runner.state, two, Ok(())),
                RuntimeMode::Query,
                querier(),
                request,
            );
            found(querying.store(), key) == Some(second)
        }),
{
    let one = after_set(fresh_context(runner, RuntimeMode::Execute, sender, request), key, first);
    let between = resumed(runner.state, one, Ok(()));
    lemma_set_is_seen(fresh_context(between, RuntimeMode::Execute, sender, request), key, second);
}

/// A command whose script fails changes nothing: whatever the script called
/// before it failed, the runner that comes out of the invocation is the
/// runner that went into it.
pub proof fn lemma_failed_script_changes_nothing(
    runner: RunnerView,
    contexts: Seq<ContextView>,
    error: RuntimeError,
)
    requires
        script_run(contexts),
        contexts[0].started == runner.store,
        contexts[0].dependable == runner.dependable,
    ensures
        resumed(runner.state, contexts.last(), Err(error)) == runner,
{
    lemma_script_stays_in_mode(contexts);
}

/// A query changes nothing, however it ends: whatever the script called, the
/// runner that comes out of the invocation is the runner that went into it.
pub proof fn lemma_query_changes_nothing(
    runner: RunnerView,
    contexts: Seq<ContextView>,
    evaluated: Result<(), RuntimeError>,
)
    requires
        script_run(contexts),
        contexts[0].mode == RuntimeMode::Query,
        contexts[0].started == runner.store,
        contexts[0].dependable == runner.dependable,
    ensures
        resumed(runner.state, contexts.last(), evaluated) == runner,
{
    lemma_script_stays_in_mode(contexts);
}

} // verus!
