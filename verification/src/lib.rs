//! A verified binding layer for exposing a table-format catalog client to a
//! host scripting runtime with a synchronous calling convention.
//!
//! The library has two parts.  [`config`] adapts an associative value received
//! from the host runtime into the canonical string-to-string configuration the
//! catalog collaborator is constructed from.  [`bridge`] manages the lifetime
//! of each catalog client behind an opaque handle and turns the collaborator's
//! reports into the values handed back across the runtime boundary.
//!
//! The catalog collaborator itself (construction against a backend, the
//! asynchronous namespace-creation call) and the host runtime's foreign object
//! machinery are driven by the unverified shell around this library; every
//! decision in between is made here, under contract.

pub mod bridge;
pub mod config;
