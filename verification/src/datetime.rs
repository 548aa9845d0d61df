//! The get-time, set-time and get-timezone operations.
//!
//! Validation of a requested timestamp (overflow of the native seconds type,
//! plausible calendar year) is platform-independent and verified here; the OS
//! clock itself is read and written through trusted wrappers, and the
//! hardware-clock utility is run by the unverified shell around the library.

use chrono::Datelike;
use chrono::Offset;
use chrono::TimeZone;
use vstd::prelude::*;

use crate::error::AgentError;

verus! {

/// Nanoseconds in one second.
pub const NANOS_PER_SEC: i64 = 1_000_000_000;

/// The largest nanosecond timestamp whose whole seconds still fit a 32-bit
/// seconds type: `i32::MAX` seconds plus the largest sub-second remainder.
pub const MAX_NARROW_TIME_NS: i64 = 2_147_483_647 * 1_000_000_000 + 999_999_999;

/// What a set-time request must do once validated.
#[derive(Clone, Copy, Debug, PartialEq, Eq, Structural)]
pub enum TimePlan {
    /// No target time was supplied: set the system clock from the hardware
    /// clock.
    SyncFromHwclock,
    /// Set the system clock to this instant, then write it to the hardware
    /// clock.
    SetClock { secs: i64, nanos: i64 },
}

/// Which way the hardware-clock utility is to be run.
#[derive(Clone, Copy, Debug, PartialEq, Eq, Structural)]
pub enum HwclockArg {
    /// Read the hardware clock into the system clock.
    Sync,
    /// Write the system clock to the hardware clock.
    Write,
}

impl HwclockArg {
    /// The command-line flag the hardware-clock utility takes for this
    /// direction.
    pub fn flag(&self) -> (r: &'static str)
        ensures
            *self is Write ==> r@ == "-w"@,
            *self is Sync ==> r@ == "-s"@,
    {
        match self {
            HwclockArg::Write => "-w",
            HwclockArg::Sync => "-s",
        }
    }
}

/// The calendar year of a count of seconds since the Unix epoch, in the
/// proleptic Gregorian calendar; `None` outside the representable range.
pub uninterp spec fn utc_year(secs: i64) -> Option<i32>;

/// Relies on chrono: `Utc.timestamp_opt(secs, 0)` followed by
/// `Datelike::year`.  The year is a function of `secs` alone, named
/// `utc_year`; `timestamp_opt` answers `None` only outside chrono's
/// representable range.
#[verifier::external_body]
fn utc_year_of(secs: i64) -> (r: Option<i32>)
    ensures
        r == utc_year(secs),
{
    match chrono::Utc.timestamp_opt(secs, 0) {
        chrono::LocalResult::Single(dt) => Some(dt.year()),
        _ => None,
    }
}

/// Whether a year reading falls in the plausible range a set-time request
/// accepts.
pub open spec fn year_in_range(year: Option<i32>) -> bool {
    year matches Some(y) && 1970 <= y < 2070
}

/// Relies on nix::unistd::access with X_OK: whether `path` names an
/// executable file.  The answer depends on what is on disk, so nothing more
/// is assumed of it.
#[verifier::external_body]
fn is_executable(path: &str) -> (r: bool) {
    nix::unistd::access(path, nix::unistd::AccessFlags::X_OK).is_ok()
}

/// Relies on libc::time_t: whether the platform's native seconds type is
/// wider than 32 bits.
#[verifier::external_body]
fn time_seconds_are_wide() -> (r: bool) {
    core::mem::size_of::<libc::time_t>() > 4
}

/// Relies on nix::time::clock_settime on the realtime clock: sets the system
/// clock, answering the OS error code when the OS refuses.
#[verifier::external_body]
fn set_system_clock(secs: i64, nanos: i64) -> (r: Result<(), i32>) {
    match nix::time::clock_settime(
        nix::time::ClockId::CLOCK_REALTIME,
        nix::sys::time::TimeSpec::new(secs, nanos),
    ) {
        Ok(()) => Ok(()),
        Err(e) => Err(e as i32),
    }
}

/// Relies on nix::time::clock_gettime on the realtime clock: the current
/// wall-clock reading as whole seconds and the nanosecond remainder.  The
/// reading depends on the moment of the call, so nothing more is assumed of
/// it.
#[verifier::external_body]
fn read_system_clock() -> (r: Option<(i64, i64)>) {
    match nix::time::clock_gettime(nix::time::ClockId::CLOCK_REALTIME) {
        Ok(ts) => Some((ts.tv_sec(), ts.tv_nsec())),
        Err(_) => None,
    }
}

/// What a set-time request must do: a missing hardware-clock utility fails
/// first, before any clock is touched; a supplied timestamp is rejected when
/// its seconds overflow a narrow native seconds type, then when its
/// represented year lies before 1970 or at/after 2070; only a timestamp that
/// passes both checks reaches the clock, split into whole seconds and the
/// nanosecond remainder.
pub open spec fn spec_plan_set_time(
    time_ns: Option<i64>,
    hwclock_executable: bool,
    narrow_seconds: bool,
    year: Option<i32>,
) -> Result<TimePlan, AgentError> {
    if !hwclock_executable {
        Err(AgentError::HwclockMissing)
    } else {
        match time_ns {
            None => Ok(TimePlan::SyncFromHwclock),
            Some(t) => if narrow_seconds && t > MAX_NARROW_TIME_NS {
                Err(AgentError::TimeTooLarge)
            } else if t < 0 || !year_in_range(year) {
                Err(AgentError::InvalidTime)
            } else {
                Ok(
                    TimePlan::SetClock {
                        secs: ((t as int) / (NANOS_PER_SEC as int)) as i64,
                        nanos: ((t as int) % (NANOS_PER_SEC as int)) as i64,
                    },
                )
            },
        }
    }
}

/// Decide what a set-time request must do, given whether the hardware-clock
/// utility is available, whether the native seconds type is 32-bit, and the
/// calendar year of the requested instant: exactly `spec_plan_set_time`.
pub fn plan_set_time(
    time_ns: Option<i64>,
    hwclock_executable: bool,
    narrow_seconds: bool,
    year: Option<i32>,
) -> (r: Result<TimePlan, AgentError>)
    ensures
        r == spec_plan_set_time(time_ns, hwclock_executable, narrow_seconds, year),
{
    if !hwclock_executable {
        return Err(AgentError::HwclockMissing);
    }
    match time_ns {
        None => Ok(TimePlan::SyncFromHwclock),
        Some(t) => {
            if narrow_seconds && t > MAX_NARROW_TIME_NS {
                return Err(AgentError::TimeTooLarge);
            }
            if t < 0 {
                return Err(AgentError::InvalidTime);
            }
            match year {
                Some(y) => {
                    if 1970 <= y && y < 2070 {
                        let secs: i64 = ((t as u64) / (NANOS_PER_SEC as u64)) as i64;
                        let nanos: i64 = ((t as u64) % (NANOS_PER_SEC as u64)) as i64;
                        Ok(TimePlan::SetClock { secs, nanos })
                    } else {
                        Err(AgentError::InvalidTime)
                    }
                },
                None => Err(AgentError::InvalidTime),
            }
        },
    }
}

/// Whether the whole seconds of a nanosecond timestamp fit a 32-bit native
/// seconds type.
pub open spec fn seconds_fit_narrow(time_ns: i64) -> bool {
    i32::MIN <= (time_ns as int) / (NANOS_PER_SEC as int) <= i32::MAX
}

/// Law: a supplied timestamp whose seconds do not fit a narrow native
/// seconds type is always rejected — whatever the year reads, and whether or
/// not the hardware-clock utility is present — so no plan carrying a clock
/// write is ever produced for it.
pub proof fn lemma_unfit_seconds_rejected(time_ns: i64, hwclock_executable: bool, year: Option<
    i32,
>)
    requires
        !seconds_fit_narrow(time_ns),
    ensures
        spec_plan_set_time(Some(time_ns), hwclock_executable, true, year) is Err,
{
    if time_ns >= 0 {
        vstd::arithmetic::div_mod::lemma_fundamental_div_mod(
            time_ns as int,
            NANOS_PER_SEC as int,
        );
    }
}

/// Law: a supplied timestamp whose represented year lies before 1970 or
/// at/after 2070 — or whose instant the calendar cannot place at all — is
/// always rejected, so it never reaches the system clock.
pub proof fn lemma_implausible_year_rejected(
    time_ns: i64,
    hwclock_executable: bool,
    narrow_seconds: bool,
)
    requires
        !year_in_range(spec_year_for(Some(time_ns))),
    ensures
        spec_plan_set_time(
            Some(time_ns),
            hwclock_executable,
            narrow_seconds,
            spec_year_for(Some(time_ns)),
        ) is Err,
{
}

/// The calendar year consulted for a set-time request: the `utc_year` of the
/// whole seconds of a supplied, non-negative instant; nothing otherwise.
pub open spec fn spec_year_for(time_ns: Option<i64>) -> Option<i32> {
    match time_ns {
        Some(t) => if t >= 0 {
            utc_year(((t as int) / (NANOS_PER_SEC as int)) as i64)
        } else {
            None
        },
        None => None,
    }
}

/// Validate a set-time request without touching any clock: exactly
/// `spec_plan_set_time`, with the year taken from the calendar at the
/// requested instant.
pub fn validate_set_time(
    time_ns: Option<i64>,
    hwclock_executable: bool,
    narrow_seconds: bool,
) -> (r: Result<TimePlan, AgentError>)
    ensures
        r == spec_plan_set_time(
            time_ns,
            hwclock_executable,
            narrow_seconds,
            spec_year_for(time_ns),
        ),
{
    let year: Option<i32> = match time_ns {
        Some(t) => {
            if t >= 0 {
                utc_year_of(((t as u64) / (NANOS_PER_SEC as u64)) as i64)
            } else {
                None
            }
        },
        None => None,
    };
    plan_set_time(time_ns, hwclock_executable, narrow_seconds, year)
}

/// Whether a supplied set-time instant is one that validation lets through
/// to the clock: non-negative, with `utc_year` placing its seconds in the
/// plausible range.
pub open spec fn valid_write_request(time_ns: Option<i64>) -> bool {
    match time_ns {
        Some(t) => t >= 0 && year_in_range(
            utc_year(((t as int) / (NANOS_PER_SEC as int)) as i64),
        ),
        None => false,
    }
}

/// The set-time operation up to the hardware-clock step: validate the
/// request, set the system clock where one instant was supplied, and say
/// which way the unverified shell must run the hardware-clock utility.
///
/// Whatever the OS answered: `Write` comes back only for a supplied,
/// validated instant whose year `utc_year` places in range, and `Sync` only
/// for a request that supplied none.
pub fn set_time(time_ns: Option<i64>) -> (r: Result<HwclockArg, AgentError>)
    ensures
        r == Ok::<HwclockArg, AgentError>(HwclockArg::Sync) ==> time_ns is None,
        r == Ok::<HwclockArg, AgentError>(HwclockArg::Write) ==> valid_write_request(time_ns),
        time_ns matches Some(t) && t < 0 ==> r is Err,
{
    let hwclock_ok = is_executable("/sbin/hwclock");
    let narrow = !time_seconds_are_wide();
    match validate_set_time(time_ns, hwclock_ok, narrow) {
        Err(e) => Err(e),
        Ok(TimePlan::SyncFromHwclock) => Ok(HwclockArg::Sync),
        Ok(TimePlan::SetClock { secs, nanos }) => {
            match set_system_clock(secs, nanos) {
                Ok(()) => Ok(HwclockArg::Write),
                Err(errno) => Err(AgentError::SetClockFailed { errno }),
            }
        },
    }
}

/// How the hardware-clock utility's exit is reported: a failure exit
/// surfaces as failure even though the system clock may already have been
/// written, since the two clocks may now disagree.
pub fn finish_hwclock(exit_success: bool) -> (r: Result<(), AgentError>)
    ensures
        r is Ok <==> exit_success,
        !exit_success ==> r == Err::<(), AgentError>(AgentError::HwclockFailed),
{
    if exit_success {
        Ok(())
    } else {
        Err(AgentError::HwclockFailed)
    }
}

/// Turn a wall-clock reading into the get-time answer: the whole seconds
/// when the reading is at or after the epoch, failure when the clock could
/// not be read or reads before the epoch.  A successful answer is never
/// negative.
pub fn interpret_clock_reading(reading: Option<(i64, i64)>) -> (r: Result<i64, AgentError>)
    ensures
        match reading {
            Some(ts) => if ts.0 >= 0 {
                r == Ok::<i64, AgentError>(ts.0)
            } else {
                r == Err::<i64, AgentError>(AgentError::ClockBeforeEpoch)
            },
            None => r == Err::<i64, AgentError>(AgentError::ClockReadFailed),
        },
        r matches Ok(s) ==> s >= 0,
{
    match reading {
        Some((secs, _nanos)) => {
            if secs >= 0 {
                Ok(secs)
            } else {
                Err(AgentError::ClockBeforeEpoch)
            }
        },
        None => Err(AgentError::ClockReadFailed),
    }
}

/// The get-time operation: seconds since the epoch, read from the OS wall
/// clock; never a negative value.
pub fn get_time() -> (r: Result<i64, AgentError>)
    ensures
        r matches Ok(s) ==> s >= 0,
{
    interpret_clock_reading(read_system_clock())
}

/// The timezone answer: the zone's abbreviation and its fixed UTC offset in
/// seconds.
#[derive(Clone, Debug)]
pub struct GuestTimezone {
    pub zone: Option<String>,
    pub offset: i64,
}

/// Relies on chrono: `Local.timestamp_opt(0, 0)`, the `%Z` formatting of the
/// result, and `Offset::fix().local_minus_utc()`.  Evaluated at the epoch
/// instant, so the offset is the zone's base offset; chrono keeps a fixed
/// offset strictly between -86400 and 86400 seconds.  The answer depends on
/// the environment's zone rule, so nothing ties two calls together.
#[verifier::external_body]
fn local_zone_at_epoch() -> (r: Option<(String, i64)>)
    ensures
        r matches Some(z) ==> -86400 < z.1 < 86400,
{
    match chrono::Local.timestamp_opt(0, 0) {
        chrono::LocalResult::Single(local) => {
            let zone = local.format("%Z").to_string();
            let offset = local.offset().fix().local_minus_utc() as i64;
            Some((zone, offset))
        },
        _ => None,
    }
}

/// Build the timezone answer from a zone name and an offset, exactly as
/// given.
pub fn make_timezone(zone: String, offset: i64) -> (r: GuestTimezone)
    ensures
        r.zone matches Some(z) && z@ == zone@,
        r.offset == offset,
{
    GuestTimezone { zone: Some(zone), offset }
}

/// The get-timezone operation: the local zone rule evaluated at the epoch
/// instant.  Whenever it succeeds, the zone name is present and the offset
/// lies strictly between -86400 and 86400 seconds.
pub fn get_timezone() -> (r: Result<GuestTimezone, AgentError>)
    ensures
        r matches Ok(tz) ==> tz.zone is Some && -86400 < tz.offset < 86400,
{
    match local_zone_at_epoch() {
        Some((zone, offset)) => Ok(make_timezone(zone, offset)),
        None => Err(AgentError::TimezoneUnavailable),
    }
}

} // verus!
