//! What holds of the record of runs, whatever is asked of the coordinator.

use vstd::prelude::*;
use crate::coordinator::{
    start_range_outcome, CoordinatorState, NoRunError, StartError, StartRangeScrapeRequest,
    StartScrapeRequest, MAX_RANGE_ITEMS,
};
use crate::crawl::Counters;
use crate::model::{RunId, ScrapePlan, ScrapeStatus};
use crate::source::{lowercase, Source};

verus! {

/// One thing asked of the coordinator.
#[allow(inconsistent_fields)]
pub enum CoordinatorOp {
    Admit { run_id: RunId, request: StartScrapeRequest, now: i64 },
    AdmitRange { run_id: RunId, request: StartRangeScrapeRequest, now: i64 },
    Cancel { now: i64 },
    Progress { run_id: RunId, counters: Counters },
    Complete { run_id: RunId, status: ScrapeStatus, error: Option<String>, now: i64 },
}

/// The record after one request.
pub open spec fn apply(state: CoordinatorState, op: CoordinatorOp) -> CoordinatorState {
    match op {
        CoordinatorOp::Admit { run_id, request, now } => state.admit_request(run_id, request, now).0,
        CoordinatorOp::AdmitRange { run_id, request, now } => state.admit_range_request(
            run_id,
            request,
            now,
        ).0,
        CoordinatorOp::Cancel { now } => state.cancel_current(now).0,
        CoordinatorOp::Progress { run_id, counters } => state.progressed(run_id, counters),
        CoordinatorOp::Complete { run_id, status, error, now } => state.completed(
            run_id,
            status,
            error,
            now,
        ),
    }
}

/// The record after the requests, taken in order.
pub open spec fn apply_all(state: CoordinatorState, ops: Seq<CoordinatorOp>) -> CoordinatorState
    decreases ops.len(),
{
    if ops.len() == 0 {
        state
    } else {
        apply(apply_all(state, ops.drop_last()), ops.last())
    }
}

/// A record on which no run but the latest is alive has at most one run
/// alive, and `running` is that run.
pub proof fn lemma_running_is_unique(state: CoordinatorState)
    requires
        state.wf(),
    ensures
        state.single_flight(),
        forall|i: int|
            0 <= i < state.runs.len() && (#[trigger] state.runs[i]).status == ScrapeStatus::Running
                ==> state.running() == Some(state.runs[i]),
{
}

/// Every request keeps the record such that no run but the latest is alive.
pub proof fn lemma_apply_keeps_wf(state: CoordinatorState, op: CoordinatorOp)
    requires
        state.wf(),
    ensures
        apply(state, op).wf(),
{
}

/// Single flight: after any sequence of requests to a coordinator that began
/// with no run on record, at most one run is alive.
pub proof fn lemma_single_flight(ops: Seq<CoordinatorOp>)
    ensures
        apply_all(CoordinatorState::empty(), ops).wf(),
        apply_all(CoordinatorState::empty(), ops).single_flight(),
    decreases ops.len(),
{
    if ops.len() > 0 {
        lemma_single_flight(ops.drop_last());
        lemma_apply_keeps_wf(apply_all(CoordinatorState::empty(), ops.drop_last()), ops.last());
    }
    lemma_running_is_unique(apply_all(CoordinatorState::empty(), ops));
}

/// While a run is alive, a request to crawl a source that is known is refused
/// with that run's id, and the record stays as it was.
pub proof fn lemma_second_admit_is_refused(
    state: CoordinatorState,
    run_id: RunId,
    request: StartScrapeRequest,
    now: i64,
)
    requires
        state.wf(),
        state.running() is Some,
        Source::named(lowercase(request.source@)) is Some,
    ensures
        state.admit_request(run_id, request, now).0 == state,
        state.admit_request(run_id, request, now).1 == Err::<ScrapePlan, StartError>(
            StartError::AlreadyRunning { run_id: state.running()->0.id },
        ),
{
}

/// While a run is alive, a request to crawl a range that would be admitted
/// otherwise is refused with that run's id, and the record stays as it was.
pub proof fn lemma_second_range_admit_is_refused(
    state: CoordinatorState,
    run_id: RunId,
    request: StartRangeScrapeRequest,
    now: i64,
)
    requires
        state.wf(),
        state.running() is Some,
        start_range_outcome(request, None) is Ok,
    ensures
        state.admit_range_request(run_id, request, now).0 == state,
        state.admit_range_request(run_id, request, now).1 == Err::<ScrapePlan, StartError>(
            StartError::AlreadyRunning { run_id: state.running()->0.id },
        ),
{
}

/// A range of more than `MAX_RANGE_ITEMS` identifiers is refused, whatever
/// else the request says and whether or not a run is alive, and no run is put
/// on record. Where the request names AIBase, the refusal says that the range
/// is too large.
pub proof fn lemma_oversized_range_is_refused(
    state: CoordinatorState,
    run_id: RunId,
    request: StartRangeScrapeRequest,
    now: i64,
)
    requires
        request.end_id - request.start_id + 1 > MAX_RANGE_ITEMS,
    ensures
        state.admit_range_request(run_id, request, now).1 is Err,
        state.admit_range_request(run_id, request, now).0 == state,
        Source::named(lowercase(request.source@)) == Some(Source::AIBase)
            ==> state.admit_range_request(run_id, request, now).1 == Err::<ScrapePlan, StartError>(
            StartError::RangeTooLarge,
        ),
{
}

/// Cancellation: a request to stop while a run is alive marks that run
/// `Cancelled` on record at once, names it by the token, and leaves no run
/// alive.
pub proof fn lemma_cancel_marks_run(state: CoordinatorState, now: i64)
    requires
        state.wf(),
        state.running() is Some,
    ensures
        ({
            let (after, told) = state.cancel_current(now);
            let run = state.running()->0;
            &&& told == Ok::<RunId, NoRunError>(run.id)
            &&& after.cancel == Some(run.id)
            &&& after.runs.len() == state.runs.len()
            &&& after.runs.last().status == ScrapeStatus::Cancelled
            &&& after.runs.last().id == run.id
            &&& after.running() is None
            &&& forall|i: int|
                0 <= i < after.runs.len() ==> (#[trigger] after.runs[i]).status
                    != ScrapeStatus::Running
        }),
{
}

} // verus!
