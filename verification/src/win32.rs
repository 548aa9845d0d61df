//! Logic of the Windows-like target, on plain values.
//!
//! The OS calls of that target (token APIs, `SetSystemTime`,
//! `FileTimeToSystemTime`, the resynchronization utility) cannot be made on
//! this build; what is verified here is the part that does not depend on
//! them: the timestamp conversion arithmetic, and the decision structure of
//! privilege acquisition and of clock resynchronization.

use vstd::arithmetic::div_mod::{lemma_div_is_ordered, lemma_fundamental_div_mod};
use vstd::prelude::*;

use crate::error::AgentError;

verus! {

/// 100 ns intervals in one second.
pub const INTERVALS_PER_SEC: u64 = 10_000_000;

/// 100 ns intervals between the Windows epoch (1601-01-01) and the Unix epoch
/// (1970-01-01).
pub const INTERVALS_TO_UNIX_EPOCH: u64 = 11_644_473_600 * INTERVALS_PER_SEC;

/// A Windows `FILETIME` value: a count of 100 ns intervals since the Windows
/// epoch, held as its two 32-bit halves.
#[derive(Clone, Copy, Debug, PartialEq, Eq, Structural)]
pub struct FileTime {
    pub low: u32,
    pub high: u32,
}

/// The count of 100 ns intervals that a `FileTime` value stands for.
pub open spec fn file_time_intervals(ft: FileTime) -> int {
    ft.low as int + ft.high as int * 0x1_0000_0000
}

/// Convert nanoseconds since the Unix epoch into a `FILETIME`.
///
/// The sum of the epoch difference and `time_ns / 100` always fits 64 bits,
/// so the conversion cannot fail; the `Result` keeps the shape under which
/// the host consumes it.
pub fn unix_time_to_file_time(time_ns: u64) -> (r: Result<FileTime, AgentError>)
    ensures
        r matches Ok(ft) && file_time_intervals(ft)
            == INTERVALS_TO_UNIX_EPOCH + time_ns as int / 100,
{
    proof {
        lemma_div_is_ordered(time_ns as int, u64::MAX as int, 100);
    }
    let intervals: u64 = INTERVALS_TO_UNIX_EPOCH + time_ns / 100;
    let low: u32 = (intervals % 0x1_0000_0000) as u32;
    let high: u32 = (intervals / 0x1_0000_0000) as u32;
    proof {
        lemma_fundamental_div_mod(intervals as int, 0x1_0000_0000);
    }
    Ok(FileTime { low, high })
}

/// What privilege acquisition leaves behind, given the outcome of each token
/// step.
#[derive(Clone, Copy, Debug, PartialEq, Eq)]
pub struct PrivilegeOutcome {
    /// Overall result of the acquisition.
    pub result: Result<(), AgentError>,
    /// Whether the process token was opened.
    pub token_acquired: bool,
    /// Whether the opened token was closed again.
    pub token_released: bool,
}

/// The decision structure of acquiring a named privilege on the calling
/// process's security context: open the token, resolve the privilege
/// identifier, adjust the token.  Failure at any step fails the whole
/// operation, and a token that was opened is closed on every exit path.
pub fn acquire_privilege_outcome(open_ok: bool, lookup_ok: bool, adjust_ok: bool) -> (r:
    PrivilegeOutcome)
    ensures
        r.token_acquired == open_ok,
        r.token_released == r.token_acquired,
        r.result is Ok <==> (open_ok && lookup_ok && adjust_ok),
        !open_ok ==> r.result == Err::<(), AgentError>(AgentError::PrivilegeOpenFailed),
        open_ok && !lookup_ok ==> r.result == Err::<(), AgentError>(
            AgentError::PrivilegeLookupFailed,
        ),
        open_ok && lookup_ok && !adjust_ok ==> r.result == Err::<(), AgentError>(
            AgentError::PrivilegeAdjustFailed,
        ),
{
    if !open_ok {
        PrivilegeOutcome {
            result: Err(AgentError::PrivilegeOpenFailed),
            token_acquired: false,
            token_released: false,
        }
    } else if !lookup_ok {
        PrivilegeOutcome {
            result: Err(AgentError::PrivilegeLookupFailed),
            token_acquired: true,
            token_released: true,
        }
    } else if !adjust_ok {
        PrivilegeOutcome {
            result: Err(AgentError::PrivilegeAdjustFailed),
            token_acquired: true,
            token_released: true,
        }
    } else {
        PrivilegeOutcome { result: Ok(()), token_acquired: true, token_released: true }
    }
}

/// What clock resynchronization from a network time service reports: a
/// successful utility exit without network connectivity still surfaces as
/// failure, since the guest cannot validate the result.
pub fn resync_outcome(exit_success: bool, connected: bool) -> (r: Result<(), AgentError>)
    ensures
        r is Ok <==> (exit_success && connected),
        !exit_success ==> r == Err::<(), AgentError>(AgentError::ResyncFailed),
        exit_success && !connected ==> r == Err::<(), AgentError>(AgentError::NoConnectivity),
{
    if !exit_success {
        Err(AgentError::ResyncFailed)
    } else if !connected {
        Err(AgentError::NoConnectivity)
    } else {
        Ok(())
    }
}

} // verus!
