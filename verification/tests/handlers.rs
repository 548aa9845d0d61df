use qga::boundary::boundary_reply;
use qga::datetime::{
    finish_hwclock, get_time, get_timezone, plan_set_time, validate_set_time, HwclockArg, TimePlan,
};
use qga::error::AgentError;
use qga::hostname::{get_host_name, make_host_name};
use qga::logtext::log_c_bytes;
use qga::vcpus::{
    build_vcpu_list, contains_vcpu, set_vcpus_next, set_vcpus_os_failure, set_vcpus_simulate,
    GuestLogicalProcessor, SetVcpusAction, SetVcpusOutcome, VcpuRequest,
};
use qga::win32::{acquire_privilege_outcome, resync_outcome, unix_time_to_file_time};

fn vcpu(id: u64, online: bool) -> GuestLogicalProcessor {
    GuestLogicalProcessor {
        logical_id: id,
        online,
        can_offline: Some(id != 0),
    }
}

#[test]
fn hostname_reports_os_name_unchanged() {
    let r = make_host_name(Some(String::from("guest-a"))).unwrap();
    assert_eq!(r.host_name, "guest-a");
}

#[test]
fn hostname_empty_is_failure() {
    let r = make_host_name(Some(String::new()));
    assert_eq!(r.unwrap_err(), AgentError::EmptyHostname);
}

#[test]
fn hostname_lookup_failure_is_failure() {
    let r = make_host_name(None);
    assert_eq!(r.unwrap_err(), AgentError::HostnameUnavailable);
}

#[test]
fn hostname_from_os_is_nonempty() {
    let r = get_host_name().unwrap();
    assert!(!r.host_name.is_empty());
}

#[test]
fn get_time_is_never_negative() {
    let t = get_time().unwrap();
    assert!(t >= 0);
}

#[test]
fn get_timezone_offset_is_bounded() {
    let tz = get_timezone().unwrap();
    assert!(tz.zone.is_some());
    assert!(-86400 < tz.offset && tz.offset < 86400);
}

#[test]
fn get_timezone_is_idempotent() {
    let a = get_timezone().unwrap();
    let b = get_timezone().unwrap();
    assert_eq!(a.zone, b.zone);
    assert_eq!(a.offset, b.offset);
}

#[test]
fn set_time_plan_accepts_a_plausible_instant() {
    // 2023-11-14T22:13:20Z, supplied in nanoseconds.
    let t = 1_700_000_000 * 1_000_000_000i64;
    let plan = validate_set_time(Some(t), true, false).unwrap();
    assert_eq!(
        plan,
        TimePlan::SetClock {
            secs: 1_700_000_000,
            nanos: 0
        }
    );
}

#[test]
fn set_time_plan_keeps_the_nanosecond_remainder() {
    let t = 1_700_000_000 * 1_000_000_000i64 + 123_456_789;
    let plan = validate_set_time(Some(t), true, false).unwrap();
    assert_eq!(
        plan,
        TimePlan::SetClock {
            secs: 1_700_000_000,
            nanos: 123_456_789
        }
    );
}

#[test]
fn set_time_rejects_seconds_overflowing_a_narrow_type() {
    // Seconds beyond i32::MAX: refused on a 32-bit seconds type ...
    let t = 3_000_000_000 * 1_000_000_000i64;
    let r = validate_set_time(Some(t), true, true);
    assert_eq!(r.unwrap_err(), AgentError::TimeTooLarge);
    // ... yet fine on a wide one: the year 2065 is still plausible.
    let plan = validate_set_time(Some(t), true, false).unwrap();
    assert_eq!(
        plan,
        TimePlan::SetClock {
            secs: 3_000_000_000,
            nanos: 0
        }
    );
}

#[test]
fn set_time_rejects_the_largest_timestamp() {
    let r = validate_set_time(Some(i64::MAX), true, true);
    assert_eq!(r.unwrap_err(), AgentError::TimeTooLarge);
}

#[test]
fn set_time_rejects_years_outside_the_plausible_range() {
    // One nanosecond before the epoch: the year 1969.
    assert_eq!(
        validate_set_time(Some(-1), true, false).unwrap_err(),
        AgentError::InvalidTime
    );
    // 2070-01-01T00:00:00Z exactly: already out.
    let t2070 = 3_155_760_000 * 1_000_000_000i64;
    assert_eq!(
        validate_set_time(Some(t2070), true, false).unwrap_err(),
        AgentError::InvalidTime
    );
    // One second earlier: the last instant of 2069, still accepted.
    let plan = validate_set_time(Some(t2070 - 1_000_000_000), true, false).unwrap();
    assert_eq!(
        plan,
        TimePlan::SetClock {
            secs: 3_155_759_999,
            nanos: 0
        }
    );
}

#[test]
fn set_time_fails_first_on_a_missing_hwclock_utility() {
    assert_eq!(
        validate_set_time(None, false, false).unwrap_err(),
        AgentError::HwclockMissing
    );
    // The missing utility wins even over an implausible timestamp.
    assert_eq!(
        validate_set_time(Some(i64::MAX), false, true).unwrap_err(),
        AgentError::HwclockMissing
    );
}

#[test]
fn set_time_without_an_instant_syncs_from_the_hardware_clock() {
    let plan = validate_set_time(None, true, false).unwrap();
    assert_eq!(plan, TimePlan::SyncFromHwclock);
}

#[test]
fn plan_set_time_consults_the_year_it_is_given() {
    let t = 1_700_000_000 * 1_000_000_000i64;
    assert_eq!(
        plan_set_time(Some(t), true, false, Some(1969)).unwrap_err(),
        AgentError::InvalidTime
    );
    assert_eq!(
        plan_set_time(Some(t), true, false, None).unwrap_err(),
        AgentError::InvalidTime
    );
}

#[test]
fn set_time_rejects_a_pre_epoch_instant_without_touching_the_clock() {
    assert!(qga::datetime::set_time(Some(-1)).is_err());
}

#[test]
fn set_time_without_an_instant_never_writes_the_clock() {
    // Reads only the utility's availability; either answer is sound.
    match qga::datetime::set_time(None) {
        Ok(arg) => assert_eq!(arg, HwclockArg::Sync),
        Err(e) => assert_eq!(e, AgentError::HwclockMissing),
    }
}

#[test]
fn hwclock_flags_name_the_two_directions() {
    assert_eq!(HwclockArg::Write.flag(), "-w");
    assert_eq!(HwclockArg::Sync.flag(), "-s");
}

#[test]
fn hwclock_failure_exit_surfaces_as_failure() {
    assert_eq!(finish_hwclock(true), Ok(()));
    assert_eq!(finish_hwclock(false), Err(AgentError::HwclockFailed));
}

#[test]
fn vcpu_list_must_be_nonempty() {
    assert_eq!(build_vcpu_list(Vec::new()).unwrap_err(), AgentError::NoVcpus);
}

#[test]
fn vcpu_list_must_have_distinct_ids() {
    let raw = vec![vcpu(0, true), vcpu(1, true), vcpu(1, false)];
    assert_eq!(
        build_vcpu_list(raw).unwrap_err(),
        AgentError::DuplicateVcpu { logical_id: 1 }
    );
}

#[test]
fn vcpu_list_consistent_is_returned_unchanged() {
    let raw = vec![vcpu(0, true), vcpu(1, false)];
    let out = build_vcpu_list(raw.clone()).unwrap();
    assert_eq!(out, raw);
}

#[test]
fn vcpu_membership_is_by_identifier() {
    let cur = vec![vcpu(0, true), vcpu(3, false)];
    assert!(contains_vcpu(&cur, 3));
    assert!(!contains_vcpu(&cur, 1));
}

#[test]
fn set_vcpus_steps_through_known_ids() {
    let cur = vec![vcpu(0, true), vcpu(1, false)];
    let req = vec![
        VcpuRequest {
            logical_id: 1,
            online: true,
        },
        VcpuRequest {
            logical_id: 0,
            online: true,
        },
    ];
    assert_eq!(
        set_vcpus_next(&req, &cur, 0),
        SetVcpusAction::Transition {
            logical_id: 1,
            online: true
        }
    );
    assert_eq!(
        set_vcpus_next(&req, &cur, 2),
        SetVcpusAction::Done {
            outcome: SetVcpusOutcome {
                applied: 2,
                error: None
            }
        }
    );
}

#[test]
fn set_vcpus_unknown_id_stops_with_the_count_reached() {
    let cur = vec![vcpu(0, true), vcpu(1, false)];
    let req = vec![
        VcpuRequest {
            logical_id: 0,
            online: false,
        },
        VcpuRequest {
            logical_id: 7,
            online: true,
        },
        VcpuRequest {
            logical_id: 1,
            online: true,
        },
    ];
    let outcomes = vec![None, None, None];
    let out = set_vcpus_simulate(&req, &cur, &outcomes);
    assert_eq!(out.applied, 1);
    assert_eq!(out.error, Some(AgentError::UnknownVcpu { logical_id: 7 }));
}

#[test]
fn set_vcpus_reports_the_count_before_the_first_os_failure() {
    let cur = vec![vcpu(0, true), vcpu(1, false), vcpu(2, false)];
    let req = vec![
        VcpuRequest {
            logical_id: 0,
            online: false,
        },
        VcpuRequest {
            logical_id: 1,
            online: true,
        },
        VcpuRequest {
            logical_id: 2,
            online: true,
        },
    ];
    let outcomes = vec![None, Some(16), None];
    let out = set_vcpus_simulate(&req, &cur, &outcomes);
    assert_eq!(out.applied, 1);
    assert_eq!(out.error, Some(AgentError::VcpuTransitionFailed { errno: 16 }));
}

#[test]
fn set_vcpus_applies_everything_when_nothing_fails() {
    let cur = vec![vcpu(0, true), vcpu(1, false)];
    let req = vec![
        VcpuRequest {
            logical_id: 1,
            online: true,
        },
        VcpuRequest {
            logical_id: 0,
            online: true,
        },
    ];
    let outcomes = vec![None, None];
    let out = set_vcpus_simulate(&req, &cur, &outcomes);
    assert_eq!(
        out,
        SetVcpusOutcome {
            applied: 2,
            error: None
        }
    );
}

#[test]
fn set_vcpus_os_failure_keeps_the_errno() {
    let out = set_vcpus_os_failure(4, 13);
    assert_eq!(out.applied, 4);
    assert_eq!(out.error, Some(AgentError::VcpuTransitionFailed { errno: 13 }));
}

#[test]
fn filetime_of_the_epoch_is_the_windows_epoch_difference() {
    let ft = unix_time_to_file_time(0).unwrap();
    assert_eq!(ft.low, 0xD53E_8000);
    assert_eq!(ft.high, 0x019D_B1DE);
}

#[test]
fn filetime_counts_whole_100ns_intervals() {
    let ft = unix_time_to_file_time(250).unwrap();
    assert_eq!(ft.low, 0xD53E_8002);
    assert_eq!(ft.high, 0x019D_B1DE);
}

#[test]
fn privilege_acquisition_fails_at_the_first_failing_step() {
    let r = acquire_privilege_outcome(false, true, true);
    assert_eq!(r.result, Err(AgentError::PrivilegeOpenFailed));
    assert!(!r.token_acquired && !r.token_released);

    let r = acquire_privilege_outcome(true, false, true);
    assert_eq!(r.result, Err(AgentError::PrivilegeLookupFailed));
    assert!(r.token_acquired && r.token_released);

    let r = acquire_privilege_outcome(true, true, false);
    assert_eq!(r.result, Err(AgentError::PrivilegeAdjustFailed));
    assert!(r.token_acquired && r.token_released);

    let r = acquire_privilege_outcome(true, true, true);
    assert_eq!(r.result, Ok(()));
    assert!(r.token_acquired && r.token_released);
}

#[test]
fn resync_without_connectivity_is_a_failure() {
    assert_eq!(resync_outcome(true, true), Ok(()));
    assert_eq!(resync_outcome(false, true), Err(AgentError::ResyncFailed));
    assert_eq!(resync_outcome(true, false), Err(AgentError::NoConnectivity));
}

#[test]
fn boundary_error_slot_is_set_exactly_on_failure() {
    assert_eq!(boundary_reply(Ok(42i64), -1), (42, None));
    assert_eq!(
        boundary_reply(Err::<i64, AgentError>(AgentError::HwclockFailed), -1),
        (-1, Some(AgentError::HwclockFailed))
    );
}

#[test]
fn log_text_is_nul_terminated() {
    let r = log_c_bytes(&vec![104, 105]).unwrap();
    assert_eq!(r, vec![104, 105, 0]);
    assert_eq!(log_c_bytes(&Vec::new()).unwrap(), vec![0]);
}

#[test]
fn log_text_with_interior_nul_cannot_cross() {
    assert_eq!(log_c_bytes(&vec![104, 0, 105]), None);
}
