//! The get-vcpus and set-vcpus operations.
//!
//! Enumeration and the online/offline writes themselves are OS work done by
//! the unverified shell; what is verified here is the logic around them: the
//! consistency check on an enumerated list, and the step-by-step decision
//! rule of a set request, including its partial-failure accounting.

use vstd::prelude::*;

use crate::error::AgentError;

verus! {

/// One logical processor as enumerated from the guest OS.
#[derive(Clone, Copy, Debug, PartialEq, Eq)]
pub struct GuestLogicalProcessor {
    /// The identifier the guest OS exposes for this logical processor.
    pub logical_id: u64,
    /// Whether the processor is currently online.
    pub online: bool,
    /// Whether the OS allows taking it offline, where the platform says.
    pub can_offline: Option<bool>,
}

/// One requested online/offline transition of a set-vcpus request.
#[derive(Clone, Copy, Debug, PartialEq, Eq, Structural)]
pub struct VcpuRequest {
    pub logical_id: u64,
    pub online: bool,
}

/// Whether all identifiers in an enumerated list are distinct.
pub open spec fn distinct_ids(s: Seq<GuestLogicalProcessor>) -> bool {
    forall|i: int, j: int| 0 <= i < j < s.len() ==> s[i].logical_id != s[j].logical_id
}

/// Whether an enumerated list holds a processor with this identifier.
pub open spec fn contains_id(s: Seq<GuestLogicalProcessor>, id: u64) -> bool {
    exists|i: int| 0 <= i < s.len() && s[i].logical_id == id
}

/// Whether an enumerated list holds a processor with this identifier.
pub fn contains_vcpu(current: &Vec<GuestLogicalProcessor>, id: u64) -> (r: bool)
    ensures
        r == contains_id(current@, id),
{
    let mut i: usize = 0;
    while i < current.len()
        invariant
            0 <= i <= current@.len(),
            forall|k: int| 0 <= k < i ==> current@[k].logical_id != id,
        decreases current@.len() - i,
    {
        if current[i].logical_id == id {
            return true;
        }
        i = i + 1;
    }
    false
}

/// Check an enumerated processor list for consistency: it must be non-empty
/// and its identifiers distinct; a consistent list is returned exactly as
/// enumerated.
pub fn build_vcpu_list(raw: Vec<GuestLogicalProcessor>) -> (r: Result<
    Vec<GuestLogicalProcessor>,
    AgentError,
>)
    ensures
        raw@.len() == 0 ==> r == Err::<Vec<GuestLogicalProcessor>, AgentError>(AgentError::NoVcpus),
        raw@.len() > 0 && distinct_ids(raw@) ==> (match r {
            Ok(v) => v@ == raw@,
            Err(_) => false,
        }),
        raw@.len() > 0 && !distinct_ids(raw@) ==> (match r {
            Ok(_) => false,
            Err(e) => match e {
                AgentError::DuplicateVcpu { logical_id } => exists|p: int, q: int|
                    0 <= p < q < raw@.len() && raw@[p].logical_id == logical_id
                        && raw@[q].logical_id == logical_id,
                _ => false,
            },
        }),
{
    if raw.len() == 0 {
        return Err(AgentError::NoVcpus);
    }
    let mut i: usize = 1;
    while i < raw.len()
        invariant
            1 <= i <= raw@.len(),
            forall|p: int, q: int| 0 <= p < q < i ==> raw@[p].logical_id != raw@[q].logical_id,
        decreases raw@.len() - i,
    {
        let mut j: usize = 0;
        while j < i
            invariant
                0 <= j <= i < raw@.len(),
                forall|p: int, q: int| 0 <= p < q < i ==> raw@[p].logical_id != raw@[q].logical_id,
                forall|k: int| 0 <= k < j ==> raw@[k].logical_id != raw@[i as int].logical_id,
            decreases i - j,
        {
            if raw[j].logical_id == raw[i].logical_id {
                proof {
                    let wi = i as int;
                    let wj = j as int;
                    assert(0 <= wj < wi < raw@.len() && raw@[wj].logical_id == raw@[wi].logical_id);
                    assert(!distinct_ids(raw@));
                }
                return Err(AgentError::DuplicateVcpu { logical_id: raw[i].logical_id });
            }
            j = j + 1;
        }
        i = i + 1;
    }
    proof {
        assert(distinct_ids(raw@));
    }
    Ok(raw)
}

/// What a set-vcpus run reports back: how many transitions were applied
/// before it stopped, and what stopped it, if anything did.
#[derive(Clone, Copy, Debug, PartialEq, Eq)]
pub struct SetVcpusOutcome {
    pub applied: i64,
    pub error: Option<AgentError>,
}

/// The next thing a set-vcpus run must do.
#[derive(Clone, Copy, Debug, PartialEq, Eq)]
pub enum SetVcpusAction {
    /// Ask the OS to move this processor to this online state.
    Transition { logical_id: u64, online: bool },
    /// The run is over; report this outcome.
    Done { outcome: SetVcpusOutcome },
}

/// The outcome of a set-vcpus run, from request entry `i` on, where
/// `outcomes[j]` is `None` when the OS applies transition `j` and the OS
/// error code when it refuses it.  The run stops at the first entry that is
/// unknown or refused; the entries before it count as applied.
pub open spec fn spec_set_vcpus_from(
    request: Seq<VcpuRequest>,
    current: Seq<GuestLogicalProcessor>,
    outcomes: Seq<Option<i32>>,
    i: int,
) -> SetVcpusOutcome
    decreases request.len() - i,
{
    if i < 0 || i >= request.len() {
        SetVcpusOutcome { applied: request.len() as i64, error: None }
    } else if !contains_id(current, request[i].logical_id) {
        SetVcpusOutcome {
            applied: i as i64,
            error: Some(AgentError::UnknownVcpu { logical_id: request[i].logical_id }),
        }
    } else {
        match outcomes[i] {
            Some(errno) => SetVcpusOutcome {
                applied: i as i64,
                error: Some(AgentError::VcpuTransitionFailed { errno }),
            },
            None => spec_set_vcpus_from(request, current, outcomes, i + 1),
        }
    }
}

/// The outcome of a whole set-vcpus run.
pub open spec fn spec_set_vcpus(
    request: Seq<VcpuRequest>,
    current: Seq<GuestLogicalProcessor>,
    outcomes: Seq<Option<i32>>,
) -> SetVcpusOutcome {
    spec_set_vcpus_from(request, current, outcomes, 0)
}

/// Decide the next step of a set-vcpus run, `applied` transitions in: done
/// with success at the end of the request; a failure naming the identifier,
/// and the count reached, at an entry no enumerated processor matches; the
/// requested transition otherwise.
pub fn set_vcpus_next(
    request: &Vec<VcpuRequest>,
    current: &Vec<GuestLogicalProcessor>,
    applied: usize,
) -> (r: SetVcpusAction)
    requires
        applied <= request@.len(),
        request@.len() <= 0x7fff_ffff_ffff_ffff,
    ensures
        applied == request@.len() ==> r == (SetVcpusAction::Done {
            outcome: SetVcpusOutcome { applied: applied as i64, error: None },
        }),
        applied < request@.len() ==> (if contains_id(
            current@,
            request@[applied as int].logical_id,
        ) {
            r == (SetVcpusAction::Transition {
                logical_id: request@[applied as int].logical_id,
                online: request@[applied as int].online,
            })
        } else {
            r == (SetVcpusAction::Done {
                outcome: SetVcpusOutcome {
                    applied: applied as i64,
                    error: Some(
                        AgentError::UnknownVcpu {
                            logical_id: request@[applied as int].logical_id,
                        },
                    ),
                },
            })
        }),
{
    if applied == request.len() {
        SetVcpusAction::Done { outcome: SetVcpusOutcome { applied: applied as i64, error: None } }
    } else {
        let req = request[applied];
        if contains_vcpu(current, req.logical_id) {
            SetVcpusAction::Transition { logical_id: req.logical_id, online: req.online }
        } else {
            SetVcpusAction::Done {
                outcome: SetVcpusOutcome {
                    applied: applied as i64,
                    error: Some(AgentError::UnknownVcpu { logical_id: req.logical_id }),
                },
            }
        }
    }
}

/// The outcome reported when the OS refuses a transition, `applied`
/// transitions in: the count reached, and the OS error code.
pub fn set_vcpus_os_failure(applied: usize, errno: i32) -> (r: SetVcpusOutcome)
    requires
        applied <= 0x7fff_ffff_ffff_ffff,
    ensures
        r == (SetVcpusOutcome {
            applied: applied as i64,
            error: Some(AgentError::VcpuTransitionFailed { errno }),
        }),
{
    SetVcpusOutcome {
        applied: applied as i64,
        error: Some(AgentError::VcpuTransitionFailed { errno }),
    }
}

/// Run a whole set-vcpus request against a given sequence of OS answers:
/// the executable form of `spec_set_vcpus`.
pub fn set_vcpus_simulate(
    request: &Vec<VcpuRequest>,
    current: &Vec<GuestLogicalProcessor>,
    outcomes: &Vec<Option<i32>>,
) -> (r: SetVcpusOutcome)
    requires
        outcomes@.len() == request@.len(),
        request@.len() <= 0x7fff_ffff_ffff_ffff,
    ensures
        r == spec_set_vcpus(request@, current@, outcomes@),
{
    let n: usize = request.len();
    let mut i: usize = 0;
    loop
        invariant
            n == request@.len(),
            0 <= i <= request@.len(),
            outcomes@.len() == request@.len(),
            request@.len() <= 0x7fff_ffff_ffff_ffff,
            spec_set_vcpus(request@, current@, outcomes@) == spec_set_vcpus_from(
                request@,
                current@,
                outcomes@,
                i as int,
            ),
        decreases request@.len() - i,
    {
        match set_vcpus_next(request, current, i) {
            SetVcpusAction::Done { outcome } => {
                return outcome;
            },
            SetVcpusAction::Transition { logical_id: _, online: _ } => {
                match outcomes[i] {
                    Some(errno) => {
                        return set_vcpus_os_failure(i, errno);
                    },
                    None => {
                        proof {
                            assert(i < request@.len());
                        }
                        i = i + 1;
                    },
                }
            },
        }
    }
}

/// The run from `i` equals the run from `k` when every entry in between is
/// known and applied by the OS.
proof fn lemma_run_advances(
    request: Seq<VcpuRequest>,
    current: Seq<GuestLogicalProcessor>,
    outcomes: Seq<Option<i32>>,
    i: int,
    k: int,
)
    requires
        0 <= i <= k <= request.len(),
        outcomes.len() == request.len(),
        forall|j: int|
            i <= j < k ==> contains_id(current, request[j].logical_id) && outcomes[j] is None,
    ensures
        spec_set_vcpus_from(request, current, outcomes, i) == spec_set_vcpus_from(
            request,
            current,
            outcomes,
            k,
        ),
    decreases k - i,
{
    if i < k {
        lemma_run_advances(request, current, outcomes, i + 1, k);
    }
}

/// Law: a set-vcpus run whose every transition is known and applied by the
/// OS reports the whole request applied, with no error.
pub proof fn lemma_set_vcpus_all_applied(
    request: Seq<VcpuRequest>,
    current: Seq<GuestLogicalProcessor>,
    outcomes: Seq<Option<i32>>,
)
    requires
        outcomes.len() == request.len(),
        request.len() <= 0x7fff_ffff_ffff_ffff,
        forall|j: int|
            0 <= j < request.len() ==> contains_id(current, request[j].logical_id) && outcomes[j]
                is None,
    ensures
        spec_set_vcpus(request, current, outcomes) == (SetVcpusOutcome {
            applied: request.len() as i64,
            error: None,
        }),
{
    lemma_run_advances(request, current, outcomes, 0, request.len() as int);
}

/// Law: a set-vcpus run stops at the first entry that is unknown or that
/// the OS refuses.  Exactly the transitions before that entry count as
/// applied, and the reported failure names what stopped the run: the unknown
/// identifier, or the OS error code of the refused transition.
pub proof fn lemma_set_vcpus_stops_at_first_failure(
    request: Seq<VcpuRequest>,
    current: Seq<GuestLogicalProcessor>,
    outcomes: Seq<Option<i32>>,
    k: int,
)
    requires
        0 <= k < request.len(),
        outcomes.len() == request.len(),
        request.len() <= 0x7fff_ffff_ffff_ffff,
        forall|j: int|
            0 <= j < k ==> contains_id(current, request[j].logical_id) && outcomes[j] is None,
        !contains_id(current, request[k].logical_id) || outcomes[k] is Some,
    ensures
        spec_set_vcpus(request, current, outcomes).applied == k,
        !contains_id(current, request[k].logical_id) ==> spec_set_vcpus(
            request,
            current,
            outcomes,
        ).error == Some(AgentError::UnknownVcpu { logical_id: request[k].logical_id }),
        match outcomes[k] {
            Some(errno) => contains_id(current, request[k].logical_id) ==> spec_set_vcpus(
                request,
                current,
                outcomes,
            ).error == Some(AgentError::VcpuTransitionFailed { errno }),
            None => true,
        },
{
    lemma_run_advances(request, current, outcomes, 0, k);
}

} // verus!
