use vstd::prelude::*;

verus! {

/// Failure of one agent operation, as reported back to the host.
///
/// Every recoverable error is captured at its origin with enough context to be
/// useful to the host; `errno` fields preserve the OS-reported error code.
#[derive(Clone, Copy, Debug, PartialEq, Eq, Structural)]
pub enum AgentError {
    /// The hardware-clock utility is missing or not executable.
    HwclockMissing,
    /// A requested timestamp whose seconds do not fit the native seconds type.
    TimeTooLarge,
    /// A requested timestamp outside the plausible calendar range.
    InvalidTime,
    /// The OS refused to set the system clock.
    SetClockFailed { errno: i32 },
    /// The hardware-clock utility exited with a failure status.
    HwclockFailed,
    /// The OS could not report the current time.
    ClockReadFailed,
    /// The OS clock reads before the epoch.
    ClockBeforeEpoch,
    /// The local timezone rule could not be evaluated at the epoch instant.
    TimezoneUnavailable,
    /// The OS could not supply a hostname, or supplied one that is not valid text.
    HostnameUnavailable,
    /// The OS supplied an empty hostname.
    EmptyHostname,
    /// A virtual-CPU request names a logical processor that does not exist.
    UnknownVcpu { logical_id: u64 },
    /// The OS refused one online/offline transition.
    VcpuTransitionFailed { errno: i32 },
    /// Enumeration returned no logical processors.
    NoVcpus,
    /// Enumeration returned two logical processors with the same identifier.
    DuplicateVcpu { logical_id: u64 },
    /// Opening the process security token failed.
    PrivilegeOpenFailed,
    /// The requested privilege name has no local identifier.
    PrivilegeLookupFailed,
    /// Adjusting the token's privileges failed.
    PrivilegeAdjustFailed,
    /// The time-resynchronization utility exited with a failure status.
    ResyncFailed,
    /// Resynchronization finished without network connectivity to validate it.
    NoConnectivity,
}

} // verus!
