//! JSON documents, read and written by `serde_json`.
//!
//! The library carries documents between the protocol and the scripts without
//! looking inside them, so a document is an opaque value here. Reading one from
//! bytes and writing one to bytes is `serde_json`'s work; this module gives
//! those two results a name, and one to the text of a failure, so that
//! contracts can speak of them.

use vstd::prelude::*;

verus! {

/// `serde_json::Value`, a JSON document. Nothing inside it is visible to proofs.
#[verifier::external_type_specification]
#[verifier::external_body]
pub struct ExValue(serde_json::Value);

/// `serde_json::Error`, the failure of reading or writing a document.
#[verifier::external_type_specification]
#[verifier::external_body]
pub struct ExError(serde_json::Error);

/// What `serde_json::from_slice` makes of `bytes`: the document that it reads
/// from them, or the text of its failure where it rejects them.
pub uninterp spec fn decoded(bytes: Seq<u8>) -> Result<serde_json::Value, Seq<char>>;

/// What `serde_json::to_vec` makes of `value`: the bytes that it writes for
/// it, or the text of its failure.
pub uninterp spec fn encoded(value: serde_json::Value) -> Result<Seq<u8>, Seq<char>>;

/// The text that a `serde_json::Error` displays as.
pub uninterp spec fn error_text(failure: serde_json::Error) -> Seq<char>;

/// Calls `serde_json::from_slice` for a `Value`. The contract claims only that
/// the outcome is the one named by [`decoded`]: the same bytes always read as
/// the same document, or are always rejected with the same text.
#[verifier::external_body]
pub(crate) fn from_slice(bytes: &[u8]) -> (r: Result<serde_json::Value, serde_json::Error>)
    ensures
        match r {
            Ok(value) => decoded(bytes@) == Ok::<serde_json::Value, Seq<char>>(value),
            Err(failure) => decoded(bytes@) == Err::<serde_json::Value, Seq<char>>(
                error_text(failure),
            ),
        },
{
    serde_json::from_slice::<serde_json::Value>(bytes)
}

/// Calls `serde_json::to_vec` on a `Value`. The contract claims only that the
/// outcome is the one named by [`encoded`].
#[verifier::external_body]
pub(crate) fn to_vec(value: &serde_json::Value) -> (r: Result<Vec<u8>, serde_json::Error>)
    ensures
        match r {
            Ok(bytes) => encoded(*value) == Ok::<Seq<u8>, Seq<char>>(bytes@),
            Err(failure) => encoded(*value) == Err::<Seq<u8>, Seq<char>>(error_text(failure)),
        },
{
    serde_json::to_vec(value)
}

/// Calls `to_string` on a `serde_json::Error`, which writes what the error
/// displays as. The contract claims only that this text is the one named by
/// [`error_text`].
#[verifier::external_body]
pub(crate) fn describe(failure: &serde_json::Error) -> (text: String)
    ensures
        text@ == error_text(*failure),
{
    failure.to_string()
}

/// `Clone` for `serde_json::Value`: the copy is the same document.
pub assume_specification[ <serde_json::Value as Clone>::clone ](value: &serde_json::Value) -> (r:
    serde_json::Value)
    ensures
        r == *value,
;

} // verus!
