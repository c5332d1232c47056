//! The values that the node hands back to the consensus engine.
//!
//! These are plain records. The protocol adapter turns them into the wire
//! messages of the replication protocol.

use vstd::prelude::*;

verus! {

/// The result code of a command that succeeded.
pub const CODE_OK: u32 = 0;

/// The result code of a command that was rejected or whose script failed.
pub const CODE_ERROR: u32 = 1;

/// Something a script reports while it executes a transaction.
#[derive(Debug, Clone, PartialEq, Eq)]
pub struct Event {
    pub kind: String,
    pub attributes: Vec<(String, String)>,
}

/// The result of one executed transaction.
#[derive(Debug, Clone, PartialEq, Eq)]
pub struct ExecTxResult {
    pub code: u32,
    pub log: String,
    pub events: Vec<Event>,
}

/// The answer to a query.
#[derive(Debug, Clone, PartialEq, Eq)]
pub struct ResponseQuery {
    pub code: u32,
    pub log: String,
    pub value: Vec<u8>,
    pub height: i64,
}

/// The node's description of itself and of the last block it committed.
#[derive(Debug, Clone, PartialEq, Eq)]
pub struct ResponseInfo {
    pub data: String,
    pub version: String,
    pub app_version: u64,
    pub last_block_height: i64,
    pub last_block_app_hash: Vec<u8>,
}

/// The answer to a request to admit a transaction.
#[derive(Debug, Clone, Copy, PartialEq, Eq, Structural)]
pub struct ResponseCheckTx {
    pub gas_wanted: i64,
    pub gas_used: i64,
}

/// The answer to a commit.
#[derive(Debug, Clone, Copy, PartialEq, Eq, Structural)]
pub struct ResponseCommit {
    pub retain_height: i64,
}

/// An [`ExecTxResult`] as contracts see it.
pub struct ExecTxResultView {
    pub code: u32,
    pub log: Seq<char>,
    pub events: Seq<Event>,
}

impl View for ExecTxResult {
    type V = ExecTxResultView;

    open spec fn view(&self) -> ExecTxResultView {
        ExecTxResultView { code: self.code, log: self.log@, events: self.events@ }
    }
}

/// A [`ResponseQuery`] as contracts see it.
pub struct ResponseQueryView {
    pub code: u32,
    pub log: Seq<char>,
    pub value: Seq<u8>,
    pub height: int,
}

impl View for ResponseQuery {
    type V = ResponseQueryView;

    open spec fn view(&self) -> ResponseQueryView {
        ResponseQueryView {
            code: self.code,
            log: self.log@,
            value: self.value@,
            height: self.height as int,
        }
    }
}

} // verus!
