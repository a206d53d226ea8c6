//! Request validation and decoding for a namespaced JSON entry store.
//!
//! Each inbound request passes a chain of guards (namespace, page size, body
//! decoder). Every guard answers with a [`outcome::GuardOutcome`]: accept a
//! value, forward to the next candidate handler, or reject. A rejecting guard
//! records one structured error in the request's [`errors::ErrorMessage`]
//! slot, where the first error recorded wins; the fallback catcher renders it.
pub mod decimal;
pub mod errors;
pub mod outcome;
pub mod namespace;
pub mod pagination;
pub mod json;
pub mod model;
pub mod responders;
pub mod entries;
pub mod routes;
