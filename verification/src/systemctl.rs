//! The decision core of the init-system client: unit-name normalization,
//! the asynchronous job-completion correlation protocol, the two-level
//! classification of job results, and the mapping from a unit's activity
//! state to the lifecycle state exposed to callers.
//!
//! Issuing a unit start or stop is a two-phase call: the bus returns an
//! opaque job handle at once, and completion arrives later on an event
//! stream shared by every job on that bus. The surrounding (unverified)
//! transport subscribes to the stream before issuing the call, then feeds
//! each arriving event through [`job_event_matches`] or [`correlate`] and
//! the matched result through [`classify_job_result`] / [`job_verdict`].

use crate::text::{spec_ends_with, str_concat, str_ends_with, str_eq};
use vstd::prelude::*;
use vstd::string::StringExecFns;

verus! {

/// Which bus the init system is reached on.
#[derive(Clone, Copy, Debug, PartialEq, Eq, Structural)]
pub enum SessionType {
    /// The per-user session bus.
    Session,
    /// The system-wide bus.
    System,
}

/// Lifecycle state of the supervised unit, always derived live from a bus
/// query and never cached across operations.
#[derive(Clone, Copy, Debug, PartialEq, Eq, Structural)]
pub enum State {
    Running,
    Stopped,
    Failed,
}

impl State {
    /// The wire spelling of this state.
    pub fn as_static_str(self) -> (r: &'static str)
        ensures
            self == State::Running ==> r@ == "running"@,
            self == State::Stopped ==> r@ == "stopped"@,
            self == State::Failed ==> r@ == "failed"@,
    {
        match self {
            State::Running => "running",
            State::Stopped => "stopped",
            State::Failed => "failed",
        }
    }
}

/// The activity attribute an init-system unit reports, as this library
/// models it (the bus client hands over the variant it decoded).
#[derive(Clone, Copy, Debug, PartialEq, Eq, Structural)]
pub enum ActiveState {
    Active,
    Reloading,
    Inactive,
    Failed,
    Activating,
    Deactivating,
    Maintenance,
}

/// How a unit activity state folds into the three lifecycle states.
pub open spec fn spec_state_of_active(a: ActiveState) -> State {
    match a {
        ActiveState::Active => State::Running,
        ActiveState::Reloading => State::Running,
        ActiveState::Failed => State::Failed,
        _ => State::Stopped,
    }
}

/// Folds a unit activity state into the lifecycle state shown to callers.
pub fn state_of_active(a: ActiveState) -> (s: State)
    ensures
        s == spec_state_of_active(a),
{
    match a {
        ActiveState::Active => State::Running,
        ActiveState::Reloading => State::Running,
        ActiveState::Inactive => State::Stopped,
        ActiveState::Failed => State::Failed,
        ActiveState::Activating => State::Stopped,
        ActiveState::Deactivating => State::Stopped,
        ActiveState::Maintenance => State::Stopped,
    }
}

/// The state query never fails for an absent unit: looking the unit up and
/// finding nothing reports `Failed`, anything found reports its activity
/// state folded down.
pub fn classify_unit_lookup(lookup: Option<ActiveState>) -> (s: State)
    ensures
        lookup is None ==> s == State::Failed,
        lookup matches Some(a) ==> s == spec_state_of_active(a),
{
    match lookup {
        None => State::Failed,
        Some(a) => state_of_active(a),
    }
}

/// Appends the init system's service-unit suffix when the given name does
/// not already carry it.
pub fn with_service_suffix(unit: &str) -> (r: String)
    ensures
        spec_ends_with(unit@, ".service"@) ==> r@ == unit@,
        !spec_ends_with(unit@, ".service"@) ==> r@ == unit@ + ".service"@,
        spec_ends_with(r@, ".service"@),
{
    proof {
        reveal_strlit(".service");
    }
    if str_ends_with(unit, ".service") {
        String::from_str(unit)
    } else {
        let r = str_concat(unit, ".service");
        proof {
            assert(r@.subrange(r@.len() - ".service"@.len(), r@.len() as int) =~= ".service"@);
        }
        r
    }
}

/// One completion notification from the shared, bus-wide event stream.
/// Every job on the bus reports here, not only the caller's own.
pub struct JobEvent {
    /// Opaque object path identifying the job the event belongs to.
    pub job_path: String,
    /// The unit the job operated on.
    pub unit: String,
    /// The job's raw result code.
    pub result: String,
}

/// Whether a stream event belongs to the job a caller is waiting on.
pub fn job_event_matches(awaited: &str, ev: &JobEvent) -> (m: bool)
    ensures
        m == (ev.job_path@ == awaited@),
{
    str_eq(ev.job_path.as_str(), awaited)
}

/// The index of the first event on the stream that belongs to the awaited
/// job, if any arrived.
pub open spec fn spec_first_match(events: Seq<JobEvent>, awaited: Seq<char>) -> Option<int>
    decreases events.len(),
{
    if events.len() == 0 {
        None
    } else if events[0].job_path@ == awaited {
        Some(0int)
    } else {
        match spec_first_match(events.skip(1), awaited) {
            None => None,
            Some(i) => Some(i + 1),
        }
    }
}

/// Scans a prefix of the shared event stream for the first event that
/// belongs to the awaited job, discarding every event of other jobs.
pub fn correlate(events: &Vec<JobEvent>, awaited: &str) -> (r: Option<usize>)
    ensures
        r == match spec_first_match(events@, awaited@) {
            None => None::<usize>,
            Some(i) => Some(i as usize),
        },
        r matches Some(i)
            ==> i < events@.len() && events@[i as int].job_path@ == awaited@
                && forall|j: int| 0 <= j < i ==> events@[j].job_path@ != awaited@,
        r is None ==> forall|j: int|
            0 <= j < events@.len() ==> events@[j].job_path@ != awaited@,
{
    let n = events.len();
    let mut k: usize = 0;
    proof {
        assert(events@.skip(0) =~= events@);
    }
    while k < n
        invariant
            n == events@.len(),
            k <= n,
            forall|j: int| 0 <= j < k ==> events@[j].job_path@ != awaited@,
            spec_first_match(events@, awaited@) == match spec_first_match(
                events@.skip(k as int),
                awaited@,
            ) {
                None => None::<int>,
                Some(i) => Some(i + k),
            },
        decreases n - k,
    {
        proof {
            assert(events@.skip(k as int)[0] == events@[k as int]);
        }
        if job_event_matches(awaited, &events[k]) {
            return Some(k);
        }
        proof {
            assert(events@.skip(k as int).skip(1) =~= events@.skip(k as int + 1));
        }
        k = k + 1;
    }
    None
}

/// A completion event for one job never satisfies a caller waiting on a
/// different job: whatever the first matched index for job `a` is, the
/// event there cannot carry job `b`'s handle.
pub proof fn lemma_no_cross_job_correlation(
    events: Seq<JobEvent>,
    a: Seq<char>,
    b: Seq<char>,
    i: int,
)
    requires
        a != b,
        spec_first_match(events, a) == Some(i),
    ensures
        0 <= i < events.len(),
        events[i].job_path@ == a,
        events[i].job_path@ != b,
    decreases events.len(),
{
    if events.len() > 0 && events[0].job_path@ != a {
        lemma_no_cross_job_correlation(events.skip(1), a, b, i - 1);
        assert(events.skip(1)[i - 1] == events[i]);
    }
}

/// First-level classification of a job's raw result code.
#[derive(Clone, Copy, Debug, PartialEq, Eq, Structural)]
pub enum JobOutcome {
    /// The job definitely succeeded.
    Success,
    /// The job definitely failed.
    Failure,
    /// Ambiguous: the job-level code alone does not tell whether the
    /// underlying program ran successfully; the unit's own last-execution
    /// result must be consulted.
    CheckUnit,
}

/// The result codes that mean definite job success.
pub open spec fn spec_job_success_code(r: Seq<char>) -> bool {
    r == "done"@ || r == "skipped"@
}

/// The result codes that mean definite, terminal job failure.
pub open spec fn spec_job_failure_code(r: Seq<char>) -> bool {
    ||| r == "canceled"@
    ||| r == "timeout"@
    ||| r == "dependency"@
    ||| r == "invalid"@
    ||| r == "assert"@
    ||| r == "unsupported"@
    ||| r == "collected"@
    ||| r == "once"@
    ||| r == "frozen"@
    ||| r == "concurrency"@
}

/// The three-bucket classification: definite success, definite failure,
/// and the ambiguous bucket — a result naming a service unit, whose real
/// outcome only the unit's own result attribute can settle. Any other
/// unrecognized code is a hard failure.
pub open spec fn spec_classify_job_result(r: Seq<char>) -> JobOutcome {
    if spec_job_success_code(r) {
        JobOutcome::Success
    } else if spec_job_failure_code(r) {
        JobOutcome::Failure
    } else if spec_ends_with(r, ".service"@) {
        JobOutcome::CheckUnit
    } else {
        JobOutcome::Failure
    }
}

/// Classifies a job's raw result code into the three buckets.
pub fn classify_job_result(result: &str) -> (o: JobOutcome)
    ensures
        o == spec_classify_job_result(result@),
{
    if str_eq(result, "done") || str_eq(result, "skipped") {
        JobOutcome::Success
    } else if str_eq(result, "canceled") || str_eq(result, "timeout") || str_eq(
        result,
        "dependency",
    ) || str_eq(result, "invalid") || str_eq(result, "assert") || str_eq(result, "unsupported")
        || str_eq(result, "collected") || str_eq(result, "once") || str_eq(result, "frozen")
        || str_eq(result, "concurrency") {
        JobOutcome::Failure
    } else if str_ends_with(result, ".service") {
        JobOutcome::CheckUnit
    } else {
        JobOutcome::Failure
    }
}

/// The final verdict on a completed job, after the two-level
/// disambiguation: an ambiguous job-level result counts as success exactly
/// when the unit's own last-execution result reports success.
pub open spec fn spec_job_verdict(r: Seq<char>, unit_result: Seq<char>) -> bool {
    match spec_classify_job_result(r) {
        JobOutcome::Success => true,
        JobOutcome::Failure => false,
        JobOutcome::CheckUnit => unit_result == "success"@,
    }
}

/// Decides whether a completed job succeeded, given its raw result code
/// and — for the ambiguous bucket — the unit's own last-execution result.
pub fn job_verdict(result: &str, unit_result: &str) -> (ok: bool)
    ensures
        ok == spec_job_verdict(result@, unit_result@),
{
    match classify_job_result(result) {
        JobOutcome::Success => true,
        JobOutcome::Failure => false,
        JobOutcome::CheckUnit => str_eq(unit_result, "success"),
    }
}

/// A job reporting an ambiguous "done"-like result whose underlying unit
/// result is not success classifies as failure, never as success.
pub proof fn lemma_ambiguous_result_needs_unit_success(r: Seq<char>, unit_result: Seq<char>)
    requires
        spec_classify_job_result(r) == JobOutcome::CheckUnit,
        unit_result != "success"@,
    ensures
        !spec_job_verdict(r, unit_result),
{
}

} // verus!
