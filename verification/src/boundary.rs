//! The boundary adapter's value-level contract.
//!
//! Every handler reports success or failure to the host the same way: the
//! host's error slot is cleared first, and after the call it holds an error
//! exactly when the nominal return value is the caller's sentinel.  The
//! pointer writes themselves belong to the unverified shell; the pairing of
//! return value and error it must write is decided here.

use vstd::prelude::*;

use crate::error::AgentError;

verus! {

/// Pair a handler outcome with what the host must see: the value and an
/// empty error slot on success, the caller's sentinel and the error on
/// failure — one exactly when the other.
pub fn boundary_reply<T>(outcome: Result<T, AgentError>, sentinel: T) -> (r: (T, Option<
    AgentError,
>))
    ensures
        match outcome {
            Ok(v) => r.0 == v && r.1 is None,
            Err(e) => r.0 == sentinel && r.1 == Some(e),
        },
        r.1 is Some <==> outcome is Err,
{
    match outcome {
        Ok(v) => (v, None),
        Err(e) => (sentinel, Some(e)),
    }
}

} // verus!
