//! The three-way answer of a guard.
use vstd::prelude::*;

use crate::errors::ErrorDetail;

verus! {

/// What a guard or the body decoder decides about a request.
pub enum GuardOutcome<T> {
    /// The value is bound; the handler may run.
    Accept(T),
    /// This handler does not apply; the next candidate is tried.
    Forward,
    /// The request fails now with status 400; the detail was also recorded
    /// for the catcher.
    Reject(ErrorDetail),
}

} // verus!
