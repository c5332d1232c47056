//! The application-layer state machine of a replicated key/value node.
//!
//! Transactions and queries are executed by sandboxed scripts. A script reaches
//! the node only through the capability operations of [`runtime_ops`], which act
//! on the execution context of one invocation and enforce its mode. The
//! [`runner`] owns the store, the height and the digest, and serialises the
//! commands that change them.

pub mod abci;
pub mod json;
pub mod runner;
pub mod runtime;
pub mod runtime_ops;
pub mod script;
pub mod service;
pub mod store;
pub mod varint;
