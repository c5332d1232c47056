//! The node as the consensus engine sees it: routing and results.
//!
//! The service decides whether a command names a script that the node offers,
//! where that script lies, and what the engine is told in the end. Between
//! the two, the command travels to the runner and its result travels back.

use vstd::prelude::*;
use vstd::string::StringExecFns;
use crate::abci::{
    Event,
    ExecTxResult,
    ExecTxResultView,
    ResponseCheckTx,
    ResponseCommit,
    ResponseInfo,
    ResponseQuery,
    ResponseQueryView,
    CODE_ERROR,
};
use crate::runner::Runner;
use crate::runtime::{outcome, ContextView, RuntimeError, RuntimeMode, RuntimeRunResultView};
use crate::script::{
    ending,
    is_script,
    kind_word,
    lemma_script_file_name,
    load_scripts,
    script_name,
    scripts_of,
    word,
    DirectoryEntry,
    ScriptReference,
    ScriptTable,
};
use crate::store::MemoryStore;
use crate::varint::MAX_VARINT_LENGTH;

verus! {

/// A transaction: the script to execute, who sent it, and what it is asked.
#[derive(Debug)]
pub struct Tx {
    pub path: String,
    pub sender: String,
    pub request: serde_json::Value,
}

/// The file of the script `name` of `kind` in the directory `scripts_dir`.
pub open spec fn script_file(scripts_dir: Seq<char>, name: Seq<char>, kind: RuntimeMode) -> Seq<
    char,
> {
    scripts_dir + "/"@ + name + ending(kind)
}

/// Whether `script` refers to the script `name` of `kind` in the directory
/// `scripts_dir`.
pub open spec fn refers(
    script: ScriptReference,
    scripts_dir: Seq<char>,
    name: Seq<char>,
    kind: RuntimeMode,
) -> bool {
    &&& script.kind == kind
    &&& script.name@ == name
    &&& script.path@ == script_file(scripts_dir, name, kind)
}

/// The log of a command that names no script of its kind.
pub open spec fn rejection(kind: RuntimeMode, path: Seq<char>) -> Seq<char> {
    kind_word(kind) + " path "@ + path + " not supported"@
}

/// The answer to a query that failed, with the reason in `log`.
pub open spec fn failed_query(log: Seq<char>) -> ResponseQueryView {
    ResponseQueryView { code: CODE_ERROR, log, value: Seq::<u8>::empty(), height: 0 }
}

/// The result of a transaction that failed, with the reason in `log`.
pub open spec fn failed_execution(log: Seq<char>) -> ExecTxResultView {
    ExecTxResultView { code: CODE_ERROR, log, events: Seq::<Event>::empty() }
}

/// What the engine is told of a query, given what the runner made of it.
pub open spec fn query_reply(result: Result<ResponseQuery, RuntimeError>) -> ResponseQueryView {
    match result {
        Ok(answer) => answer@,
        Err(error) => failed_query(error.message_text()),
    }
}

/// What the engine is told of a transaction, given what the runner made of
/// it.
pub open spec fn execute_reply(result: Result<ExecTxResult, RuntimeError>) -> ExecTxResultView {
    match result {
        Ok(done) => done@,
        Err(error) => failed_execution(error.message_text()),
    }
}

/// Builds the answer to a query that failed.
fn query_failure(log: String) -> (r: ResponseQuery)
    ensures
        r@ == failed_query(log@),
{
    ResponseQuery { code: CODE_ERROR, log, value: Vec::new(), height: 0 }
}

/// Builds the result of a transaction that failed.
fn execute_failure(log: String) -> (r: ExecTxResult)
    ensures
        r@ == failed_execution(log@),
{
    ExecTxResult { code: CODE_ERROR, log, events: Vec::new() }
}

/// The protocol-facing side of the node.
#[derive(Debug)]
pub struct DenoKVService {
    scripts_dir: String,
    scripts: ScriptTable,
}

impl DenoKVService {
    /// The directory in which the scripts lie.
    pub closed spec fn scripts_dir(&self) -> Seq<char> {
        self.scripts_dir@
    }

    /// The names of the scripts of `kind` that the node offers.
    pub closed spec fn offered(&self, kind: RuntimeMode) -> Seq<Seq<char>> {
        self.scripts.names(kind)
    }

    /// Creates the service for the scripts among `entries`, the entries of the
    /// directory `scripts_dir`, together with the runner that will serve it.
    pub fn new(scripts_dir: &str, entries: &Vec<DirectoryEntry>) -> (r: (
        Self,
        Runner<MemoryStore>,
    ))
        ensures
            r.0.scripts_dir() == scripts_dir@,
            r.0.offered(RuntimeMode::Query) == scripts_of(entries@, RuntimeMode::Query),
            r.0.offered(RuntimeMode::Execute) == scripts_of(entries@, RuntimeMode::Execute),
            r.1@.store == Map::<Seq<char>, Seq<char>>::empty(),
            r.1@.dependable,
            r.1@.state.height == 0,
            r.1@.state.digest == Seq::new(MAX_VARINT_LENGTH as nat, |i: int| 0u8),
    {
        let service = DenoKVService {
            scripts_dir: String::from_str(scripts_dir),
            scripts: load_scripts(entries),
        };
        (service, Runner::new())
    }

    /// Finds the script that a command of `kind` names by `path`, or the log
    /// that refuses the command where the node offers no such script.
    fn route(&self, kind: RuntimeMode, path: &str) -> (r: Result<ScriptReference, String>)
        ensures
            match r {
                Ok(script) => self.offered(kind).contains(path@) && refers(
                    script,
                    self.scripts_dir(),
                    path@,
                    kind,
                ),
                Err(log) => !self.offered(kind).contains(path@) && log@ == rejection(kind, path@),
            },
    {
        if self.scripts.contains(kind, path) {
            let mut file = self.scripts_dir.clone();
            file.append("/");
            file.append(path);
            file.append(".");
            file.append(word(kind));
            file.append(".ts");
            assert(file@ =~= script_file(self.scripts_dir(), path@, kind));
            Ok(ScriptReference { path: file, kind, name: String::from_str(path) })
        } else {
            let mut log = String::from_str(word(kind));
            log.append(" path ");
            log.append(path);
            log.append(" not supported");
            Err(log)
        }
    }

    /// Routes a query: to the query script named `path`, or to the answer
    /// that refuses the query. No script runs for a query that is refused.
    pub fn route_query(&self, path: &str) -> (r: Result<ScriptReference, ResponseQuery>)
        ensures
            r is Ok <==> self.offered(RuntimeMode::Query).contains(path@),
            match r {
                Ok(script) => refers(script, self.scripts_dir(), path@, RuntimeMode::Query),
                Err(refusal) => refusal@ == failed_query(rejection(RuntimeMode::Query, path@)),
            },
    {
        match self.route(RuntimeMode::Query, path) {
            Ok(script) => Ok(script),
            Err(log) => Err(query_failure(log)),
        }
    }

    /// Routes a transaction: to the execute script that it names, or to the
    /// result that refuses the transaction. No script runs for a transaction
    /// that is refused.
    pub fn route_execute(&self, tx: &Tx) -> (r: Result<ScriptReference, ExecTxResult>)
        ensures
            r is Ok <==> self.offered(RuntimeMode::Execute).contains(tx.path@),
            match r {
                Ok(script) => refers(script, self.scripts_dir(), tx.path@, RuntimeMode::Execute),
                Err(refusal) => refusal@ == failed_execution(
                    rejection(RuntimeMode::Execute, tx.path@),
                ),
            },
    {
        match self.route(RuntimeMode::Execute, tx.path.as_str()) {
            Ok(script) => Ok(script),
            Err(log) => Err(execute_failure(log)),
        }
    }

    /// Tells the engine what the runner made of a query: its answer, or code 1
    /// with the error as the log.
    pub fn query(result: Result<ResponseQuery, RuntimeError>) -> (r: ResponseQuery)
        ensures
            r@ == query_reply(result),
    {
        match result {
            Ok(answer) => answer,
            Err(error) => query_failure(error.message()),
        }
    }

    /// Tells the engine what the runner made of a transaction: its result, or
    /// code 1 with the error as the log.
    pub fn execute(result: Result<ExecTxResult, RuntimeError>) -> (r: ExecTxResult)
        ensures
            r@ == execute_reply(result),
    {
        match result {
            Ok(done) => done,
            Err(error) => execute_failure(error.message()),
        }
    }

    /// Describes the node and the last block it committed.
    pub fn info(last_block_height: i64, last_block_app_hash: Vec<u8>) -> (r: ResponseInfo)
        ensures
            r.data@ == "deno-kv-rs"@,
            r.version@ == "0.1.0"@,
            r.app_version == 1,
            r.last_block_height == last_block_height,
            r.last_block_app_hash == last_block_app_hash,
    {
        ResponseInfo {
            data: String::from_str("deno-kv-rs"),
            version: String::from_str("0.1.0"),
            app_version: 1,
            last_block_height,
            last_block_app_hash,
        }
    }

    /// Admits a transaction. Every transaction is admitted.
    pub fn check_tx() -> (r: ResponseCheckTx)
        ensures
            r == (ResponseCheckTx { gas_wanted: 1, gas_used: 0 }),
    {
        ResponseCheckTx { gas_wanted: 1, gas_used: 0 }
    }

    /// Tells the engine, after a commit at `height`, which blocks it must
    /// keep: those from the one before.
    pub fn commit(height: i64) -> (r: ResponseCommit)
        requires
            height > i64::MIN,
        ensures
            r.retain_height == height - 1,
    {
        ResponseCommit { retain_height: height - 1 }
    }
}

/// A script that fails, fails its command: whatever the context holds by
/// then, the engine is told code 1, with the error as the log, no value and
/// no events.
pub proof fn lemma_failure_is_reported(context: ContextView, error: RuntimeError)
    ensures
        outcome(context, Err(error)) == Err::<RuntimeRunResultView, RuntimeError>(error),
        query_reply(Err(error)) == failed_query(error.message_text()),
        query_reply(Err(error)).code == CODE_ERROR,
        execute_reply(Err(error)) == failed_execution(error.message_text()),
        execute_reply(Err(error)).code == CODE_ERROR,
        execute_reply(Err(error)).events.len() == 0,
{
}

/// A query script that ends without responding fails its query: the script's
/// result is `MissingResponse`, and the engine is told code 1.
pub proof fn lemma_missing_response_is_reported(context: ContextView)
    requires
        context.mode == RuntimeMode::Query,
        context.response is None,
    ensures
        outcome(context, Ok(())) == Err::<RuntimeRunResultView, RuntimeError>(
            RuntimeError::MissingResponse,
        ),
        query_reply(Err(RuntimeError::MissingResponse)).code == CODE_ERROR,
        query_reply(Err(RuntimeError::MissingResponse)).log == "respond not called"@,
{
}


/// A command is routed to the file that was found: the file of a script, as
/// routing names it, is the file in the scripts directory from which the
/// script was listed.
pub proof fn lemma_routed_file_is_the_file_found(
    scripts_dir: Seq<char>,
    file_name: Seq<char>,
    kind: RuntimeMode,
)
    requires
        is_script(file_name, kind),
    ensures
        script_file(scripts_dir, script_name(file_name, kind), kind) == scripts_dir + "/"@
            + file_name,
{
    lemma_script_file_name(file_name, kind);
    assert(scripts_dir + "/"@ + script_name(file_name, kind) + ending(kind) =~= scripts_dir + "/"@
        + (script_name(file_name, kind) + ending(kind)));
}

} // verus!
