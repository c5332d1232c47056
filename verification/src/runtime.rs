//! The execution context of one script invocation.
//!
//! A context is built when an invocation starts, handed to the capability
//! operations while the script runs, and read back once when the script is
//! done. Its fields are private: a script changes them only through the
//! operations, which never change the mode.

use vstd::prelude::*;
use vstd::string::StringExecFns;
use crate::abci::Event;
use crate::store::{Store, StoreError};

verus! {

/// What a script is allowed to do.
#[derive(Debug, Clone, Copy, PartialEq, Eq, Structural)]
pub enum RuntimeMode {
    /// Read the store and answer with one response.
    Query,
    /// Read and write the store and emit events.
    Execute,
}

/// Why an operation or an invocation failed.
#[derive(Debug, Clone)]
pub enum RuntimeError {
    /// A script called an operation that its mode does not permit.
    ModeViolation { expected: RuntimeMode },
    /// A query script responded a second time.
    AlreadyResponded,
    /// A query script ended without responding.
    MissingResponse,
    /// The store holds no value under the key.
    KeyNotFound,
    /// The store's backend failed.
    Store(StoreError),
    /// The bytes of a query's request are not a JSON document.
    InvalidRequest(String),
    /// A response could not be written as JSON.
    Encoding(String),
    /// The script could not be loaded, or threw.
    Evaluation(String),
}

impl RuntimeError {
    /// The text of [`RuntimeError::message`].
    pub open spec fn message_text(&self) -> Seq<char> {
        match self {
            RuntimeError::ModeViolation { expected: RuntimeMode::Query } => "expected query mode"@,
            RuntimeError::ModeViolation { expected: RuntimeMode::Execute } => "expected execute mode"@,
            RuntimeError::AlreadyResponded => "respond already called"@,
            RuntimeError::MissingResponse => "respond not called"@,
            RuntimeError::KeyNotFound => "key not found"@,
            RuntimeError::Store(error) => error.message@,
            RuntimeError::InvalidRequest(text) => text@,
            RuntimeError::Encoding(text) => text@,
            RuntimeError::Evaluation(text) => text@,
        }
    }

    /// Describes the error, as it is logged in the result of a failed command.
    pub fn message(&self) -> (text: String)
        ensures
            text@ == self.message_text(),
    {
        match self {
            RuntimeError::ModeViolation { expected: RuntimeMode::Query } => String::from_str(
                "expected query mode",
            ),
            RuntimeError::ModeViolation { expected: RuntimeMode::Execute } => String::from_str(
                "expected execute mode",
            ),
            RuntimeError::AlreadyResponded => String::from_str("respond already called"),
            RuntimeError::MissingResponse => String::from_str("respond not called"),
            RuntimeError::KeyNotFound => String::from_str("key not found"),
            RuntimeError::Store(error) => error.message.clone(),
            RuntimeError::InvalidRequest(text) => text.clone(),
            RuntimeError::Encoding(text) => text.clone(),
            RuntimeError::Evaluation(text) => text.clone(),
        }
    }
}

impl RuntimeMode {
    /// Succeeds in query mode, and in no other.
    pub fn assert_query(&self) -> (r: Result<(), RuntimeError>)
        ensures
            r is Ok <==> *self == RuntimeMode::Query,
            r is Err ==> r == Err::<(), RuntimeError>(
                RuntimeError::ModeViolation { expected: RuntimeMode::Query },
            ),
    {
        match self {
            RuntimeMode::Query => Ok(()),
            RuntimeMode::Execute => Err(
                RuntimeError::ModeViolation { expected: RuntimeMode::Query },
            ),
        }
    }

    /// Succeeds in execute mode, and in no other.
    pub fn assert_execute(&self) -> (r: Result<(), RuntimeError>)
        ensures
            r is Ok <==> *self == RuntimeMode::Execute,
            r is Err ==> r == Err::<(), RuntimeError>(
                RuntimeError::ModeViolation { expected: RuntimeMode::Execute },
            ),
    {
        match self {
            RuntimeMode::Execute => Ok(()),
            RuntimeMode::Query => Err(
                RuntimeError::ModeViolation { expected: RuntimeMode::Execute },
            ),
        }
    }
}

/// What an invocation that succeeded hands back.
#[derive(Debug)]
pub enum RuntimeRunResult {
    /// The response of a query script.
    Query(serde_json::Value),
    /// The events of an execute script, in the order of emission.
    Execute(Vec<Event>),
}

/// The state that the capability operations act on during one invocation.
///
/// The context holds the store for as long as the script runs, and does not
/// change it. What the script writes is kept apart, in the order of writing,
/// and reaches the store only when the invocation ends well.
pub struct OpStateContext<S: Store> {
    pub(crate) mode: RuntimeMode,
    pub(crate) store: S,
    pub(crate) writes: Vec<(String, String)>,
    pub(crate) sender: String,
    pub(crate) events: Vec<Event>,
    pub(crate) request: serde_json::Value,
    pub(crate) response: Option<serde_json::Value>,
}

/// A context as contracts see it.
pub struct ContextView {
    pub mode: RuntimeMode,
    /// The entries that the store held when the invocation started.
    pub started: Map<Seq<char>, Seq<char>>,
    /// What the script has written since, first write first.
    pub writes: Seq<(Seq<char>, Seq<char>)>,
    pub dependable: bool,
    pub sender: Seq<char>,
    pub events: Seq<Event>,
    pub request: serde_json::Value,
    pub response: Option<serde_json::Value>,
}

/// The entries after `writes` have been made to `entries`, one after the
/// other.
pub open spec fn applied(
    entries: Map<Seq<char>, Seq<char>>,
    writes: Seq<(Seq<char>, Seq<char>)>,
) -> Map<Seq<char>, Seq<char>>
    decreases writes.len(),
{
    if writes.len() == 0 {
        entries
    } else {
        applied(entries, writes.drop_last()).insert(writes.last().0, writes.last().1)
    }
}

/// The value that the last of `writes` to `key` wrote, if any wrote to it.
pub open spec fn latest(writes: Seq<(Seq<char>, Seq<char>)>, key: Seq<char>) -> Option<Seq<char>>
    decreases writes.len(),
{
    if writes.len() == 0 {
        None
    } else if writes.last().0 == key {
        Some(writes.last().1)
    } else {
        latest(writes.drop_last(), key)
    }
}

impl ContextView {
    /// The entries as the script sees them: those that the store held at the
    /// start, with the script's own writes made to them.
    pub open spec fn store(self) -> Map<Seq<char>, Seq<char>> {
        applied(self.started, self.writes)
    }
}

/// One more write is made to the entries that the writes before it gave.
pub proof fn lemma_applied_push(
    entries: Map<Seq<char>, Seq<char>>,
    writes: Seq<(Seq<char>, Seq<char>)>,
    key: Seq<char>,
    value: Seq<char>,
)
    ensures
        applied(entries, writes.push((key, value))) == applied(entries, writes).insert(key, value),
{
    assert(writes.push((key, value)).drop_last() =~= writes);
}

/// A key reads as its latest write, and as the store had it where nothing was
/// written to it.
pub proof fn lemma_applied_reads_latest(
    entries: Map<Seq<char>, Seq<char>>,
    writes: Seq<(Seq<char>, Seq<char>)>,
    key: Seq<char>,
)
    ensures
        match latest(writes, key) {
            Some(value) => applied(entries, writes).contains_key(key) && applied(
                entries,
                writes,
            )[key] == value,
            None => applied(entries, writes).contains_key(key) == entries.contains_key(key) && (
            entries.contains_key(key) ==> applied(entries, writes)[key] == entries[key]),
        },
    decreases writes.len(),
{
    if writes.len() > 0 {
        lemma_applied_reads_latest(entries, writes.drop_last(), key);
    }
}

/// The view of a list of writes.
pub open spec fn writes_view(writes: Seq<(String, String)>) -> Seq<(Seq<char>, Seq<char>)> {
    writes.map_values(|write: (String, String)| (write.0@, write.1@))
}

impl<S: Store> View for OpStateContext<S> {
    type V = ContextView;

    open(crate) spec fn view(&self) -> ContextView {
        ContextView {
            mode: self.mode,
            started: self.store.entries(),
            writes: writes_view(self.writes@),
            dependable: self.store.dependable(),
            sender: self.sender@,
            events: self.events@,
            request: self.request,
            response: self.response,
        }
    }
}

/// What a script's invocation comes to, given how its evaluation ended: the
/// error of a failed evaluation; the response of a query, which must be
/// there; the events of an execution.
pub open spec fn outcome(context: ContextView, evaluated: Result<(), RuntimeError>) -> Result<
    RuntimeRunResultView,
    RuntimeError,
> {
    match evaluated {
        Err(error) => Err(error),
        Ok(()) => match context.mode {
            RuntimeMode::Query => match context.response {
                Some(response) => Ok(RuntimeRunResultView::Query(response)),
                None => Err(RuntimeError::MissingResponse),
            },
            RuntimeMode::Execute => Ok(RuntimeRunResultView::Execute(context.events)),
        },
    }
}

/// The entries that the store holds once the invocation has ended: what the
/// script wrote is made to the store if the script executed a transaction and
/// its evaluation ended well, and is dropped otherwise.
pub open spec fn kept(context: ContextView, evaluated: Result<(), RuntimeError>) -> Map<
    Seq<char>,
    Seq<char>,
> {
    if context.mode == RuntimeMode::Execute && evaluated is Ok {
        context.store()
    } else {
        context.started
    }
}

/// Whether the store failed while the writes of an execution that ended well
/// were made to it, after `made` of them, leaving `entries`.
pub open spec fn interrupted(
    context: ContextView,
    entries: Map<Seq<char>, Seq<char>>,
    made: int,
) -> bool {
    &&& !context.dependable
    &&& 0 <= made < context.writes.len()
    &&& entries == applied(context.started, context.writes.take(made))
}

/// Whether an invocation may end with the store holding `entries` and with
/// `result`: as [`outcome`] and [`kept`] say, or, with a store whose backend
/// fails, with the store's error and some of the writes made.
pub open spec fn ended(
    context: ContextView,
    evaluated: Result<(), RuntimeError>,
    entries: Map<Seq<char>, Seq<char>>,
    result: Result<RuntimeRunResultView, RuntimeError>,
) -> bool {
    ||| result == outcome(context, evaluated) && entries == kept(context, evaluated)
    ||| {
        &&& context.mode == RuntimeMode::Execute
        &&& evaluated is Ok
        &&& result matches Err(error)
        &&& error is Store
        &&& exists|made: int| interrupted(context, entries, made)
    }
}

/// A [`RuntimeRunResult`] as contracts see it.
pub enum RuntimeRunResultView {
    Query(serde_json::Value),
    Execute(Seq<Event>),
}

impl View for RuntimeRunResult {
    type V = RuntimeRunResultView;

    open spec fn view(&self) -> RuntimeRunResultView {
        match self {
            RuntimeRunResult::Query(response) => RuntimeRunResultView::Query(*response),
            RuntimeRunResult::Execute(events) => RuntimeRunResultView::Execute(events@),
        }
    }
}

/// The view of the result that [`OpStateContext::finish`] returns.
pub open spec fn result_view(result: Result<RuntimeRunResult, RuntimeError>) -> Result<
    RuntimeRunResultView,
    RuntimeError,
> {
    match result {
        Ok(value) => Ok(value@),
        Err(error) => Err(error),
    }
}

impl<S: Store> OpStateContext<S> {
    /// Builds the context of a new invocation: nothing written, no events, no
    /// response.
    pub fn new(store: S, mode: RuntimeMode, sender: &str, request: serde_json::Value) -> (context:
        Self)
        ensures
            context@ == (ContextView {
                mode,
                started: store.entries(),
                writes: Seq::<(Seq<char>, Seq<char>)>::empty(),
                dependable: store.dependable(),
                sender: sender@,
                events: Seq::<Event>::empty(),
                request,
                response: None,
            }),
    {
        let context = OpStateContext {
            mode,
            store,
            writes: Vec::new(),
            sender: String::from_str(sender),
            events: Vec::new(),
            request,
            response: None,
        };
        assert(writes_view(context.writes@) =~= Seq::<(Seq<char>, Seq<char>)>::empty());
        context
    }

    /// The mode of the invocation.
    pub fn mode(&self) -> (mode: RuntimeMode)
        ensures
            mode == self@.mode,
    {
        self.mode
    }

    /// Finds the value that the script's latest write to `key` wrote.
    pub(crate) fn written(&self, key: &String) -> (r: Option<String>)
        ensures
            match r {
                Some(value) => latest(self@.writes, key@) == Some(value@),
                None => latest(self@.writes, key@) is None,
            },
    {
        let ghost writes = self@.writes;
        let mut i: usize = self.writes.len();
        assert(writes.take(i as int) =~= writes);
        while i > 0
            invariant
                i <= self.writes.len(),
                writes == writes_view(self.writes@),
                latest(writes, key@) == latest(writes.take(i as int), key@),
            decreases i,
        {
            i = i - 1;
            assert(writes.take(i + 1).last() == writes[i as int]);
            assert(writes.take(i + 1).drop_last() =~= writes.take(i as int));
            if self.writes[i].0 == *key {
                return Some(self.writes[i].1.clone());
            }
        }
        None
    }

    /// Ends the invocation. `evaluated` says how the script's evaluation ended.
    ///
    /// The store goes back to its owner. A failed evaluation is passed on, and
    /// what the context had gathered is dropped with it: the writes, the
    /// events and the response. After a successful one, a query hands back its
    /// response and fails if there is none; an execution makes its writes to
    /// the store and hands back its events.
    ///
    /// A store whose backend fails may fail while the writes are made to it.
    /// The invocation then fails with the store's error, and the store holds
    /// the writes that were made before.
    pub fn finish(self, evaluated: Result<(), RuntimeError>) -> (r: (
        S,
        Result<RuntimeRunResult, RuntimeError>,
    ))
        ensures
            r.0.dependable() == self@.dependable,
            ended(self@, evaluated, r.0.entries(), result_view(r.1)),
    {
        match self.mode {
            RuntimeMode::Query => {
                let (store, response) = self.finish_query(evaluated);
                match response {
                    Ok(response) => (store, Ok(RuntimeRunResult::Query(response))),
                    Err(error) => (store, Err(error)),
                }
            },
            RuntimeMode::Execute => {
                let (store, events) = self.finish_execute(evaluated);
                match events {
                    Ok(events) => (store, Ok(RuntimeRunResult::Execute(events))),
                    Err(error) => (store, Err(error)),
                }
            },
        }
    }

    /// Ends the invocation of a query script: [`OpStateContext::finish`] for
    /// a context that is known to be in query mode. The store comes back as
    /// it was when the invocation started.
    pub fn finish_query(self, evaluated: Result<(), RuntimeError>) -> (r: (
        S,
        Result<serde_json::Value, RuntimeError>,
    ))
        requires
            self@.mode == RuntimeMode::Query,
        ensures
            r.0.entries() == self@.started,
            r.0.dependable() == self@.dependable,
            match outcome(self@, evaluated) {
                Ok(RuntimeRunResultView::Query(response)) => r.1 == Ok::<
                    serde_json::Value,
                    RuntimeError,
                >(response),
                Ok(RuntimeRunResultView::Execute(_)) => false,
                Err(error) => r.1 == Err::<serde_json::Value, RuntimeError>(error),
            },
    {
        let OpStateContext {
            mode: _,
            store,
            writes: _,
            sender: _,
            events: _,
            request: _,
            response,
        } = self;
        match evaluated {
            Err(error) => (store, Err(error)),
            Ok(()) => match response {
                Some(response) => (store, Ok(response)),
                None => (store, Err(RuntimeError::MissingResponse)),
            },
        }
    }

    /// Ends the invocation of an execute script: [`OpStateContext::finish`]
    /// for a context that is known to be in execute mode.
    #[verifier::loop_isolation(false)]
    pub fn finish_execute(self, evaluated: Result<(), RuntimeError>) -> (r: (
        S,
        Result<Vec<Event>, RuntimeError>,
    ))
        requires
            self@.mode == RuntimeMode::Execute,
        ensures
            r.0.dependable() == self@.dependable,
            match evaluated {
                Err(error) => r.1 == Err::<Vec<Event>, RuntimeError>(error) && r.0.entries()
                    == self@.started,
                Ok(()) => match r.1 {
                    Ok(events) => events@ == self@.events && r.0.entries() == self@.store(),
                    Err(error) => error is Store && exists|made: int|
                        interrupted(self@, r.0.entries(), made),
                },
            },
            self@.dependable && evaluated is Ok ==> r.1 is Ok,
    {
        let ghost context = self@;
        let OpStateContext {
            mode: _,
            store,
            writes,
            sender: _,
            events,
            request: _,
            response: _,
        } = self;
        let mut store = store;
        match evaluated {
            Err(error) => (store, Err(error)),
            Ok(()) => {
                let mut i: usize = 0;
                assert(context.writes.take(0) =~= Seq::<(Seq<char>, Seq<char>)>::empty());
                while i < writes.len()
                    invariant
                        i <= writes.len(),
                        context.writes == writes_view(writes@),
                        store.dependable() == context.dependable,
                        store.entries() == applied(context.started, context.writes.take(i as int)),
                    decreases writes.len() - i,
                {
                    let key = writes[i].0.clone();
                    let value = writes[i].1.clone();
                    proof {
                        assert(context.writes.take(i + 1).drop_last() =~= context.writes.take(
                            i as int,
                        ));
                        assert(context.writes.take(i + 1).last() == (key@, value@));
                    }
                    match store.set(key, value) {
                        Ok(_) => {},
                        Err(error) => {
                            assert(interrupted(context, store.entries(), i as int));
                            return (store, Err(RuntimeError::Store(error)));
                        },
                    }
                    i = i + 1;
                }
                assert(context.writes.take(i as int) =~= context.writes);
                (store, Ok(events))
            },
        }
    }
}

} // verus!
