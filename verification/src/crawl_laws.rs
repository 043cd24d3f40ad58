//! What holds of every run loop, whatever it is fed.

use vstd::prelude::*;
use crate::crawl::{
    bump, clamp_u32, crawl_next, range_len, Counters, CrawlEvent, CrawlState, Outcome, Phase,
    Request, ScrapeError,
};
use crate::model::{Candidate, CrawlStrategy, RunId, ScrapeStatus};
use crate::progress::{ProgressType, ScrapeProgress};
use crate::source::Source;

verus! {

/// One input of a run loop: the cancellation token as it stood, and the event.
pub struct CrawlInput {
    pub token: Option<RunId>,
    pub event: CrawlEvent,
}

/// The state after one input. An event that was not expected changes nothing.
pub open spec fn crawl_after(state: CrawlState, input: CrawlInput) -> CrawlState {
    match crawl_next(state, input.token, input.event) {
        Some((next, _)) => next,
        None => state,
    }
}

/// The event that one input has the loop publish, if any.
pub open spec fn crawl_says(state: CrawlState, input: CrawlInput) -> Option<ScrapeProgress> {
    match crawl_next(state, input.token, input.event) {
        Some((_, step)) => step.publish,
        None => None,
    }
}

/// The state after the inputs, taken in order.
pub open spec fn crawl_run(state: CrawlState, inputs: Seq<CrawlInput>) -> CrawlState
    decreases inputs.len(),
{
    if inputs.len() == 0 {
        state
    } else {
        crawl_after(crawl_run(state, inputs.drop_last()), inputs.last())
    }
}

/// The events published over the inputs, in the order of publishing.
pub open spec fn crawl_published(state: CrawlState, inputs: Seq<CrawlInput>) -> Seq<ScrapeProgress>
    decreases inputs.len(),
{
    if inputs.len() == 0 {
        Seq::empty()
    } else {
        let earlier = crawl_published(state, inputs.drop_last());
        match crawl_says(crawl_run(state, inputs.drop_last()), inputs.last()) {
            Some(progress) => earlier.push(progress),
            None => earlier,
        }
    }
}

/// What `progress` reports of processed, new and failed items does not exceed `c`.
pub open spec fn reported_within(progress: ScrapeProgress, c: Counters) -> bool {
    &&& progress.pages_scraped <= c.processed
    &&& progress.articles_new <= c.new
    &&& progress.articles_failed <= c.failed
}

/// `later` reports no less than `earlier` did.
pub open spec fn reports_no_less(earlier: ScrapeProgress, later: ScrapeProgress) -> bool {
    &&& earlier.pages_scraped <= later.pages_scraped
    &&& earlier.articles_new <= later.articles_new
    &&& earlier.articles_failed <= later.articles_failed
}

/// The counters of processed, new and failed items before a step, in what the
/// step publishes and after the step, in this order, never decrease.
pub proof fn lemma_step_counts_up(state: CrawlState, token: Option<RunId>, event: CrawlEvent)
    requires
        crawl_next(state, token, event) is Some,
    ensures
        ({
            let (next, step) = crawl_next(state, token, event)->0;
            &&& state.counters.processed <= next.counters.processed
            &&& state.counters.new <= next.counters.new
            &&& state.counters.failed <= next.counters.failed
            &&& state.counters.skipped <= next.counters.skipped
            &&& step.publish matches Some(progress) ==> {
                &&& state.counters.processed <= progress.pages_scraped
                &&& state.counters.new <= progress.articles_new
                &&& state.counters.failed <= progress.articles_failed
                &&& reported_within(progress, next.counters)
            }
        }),
{
}

/// Every event published over the inputs reports no more than the counters
/// hold after them.
proof fn lemma_published_within(state: CrawlState, inputs: Seq<CrawlInput>)
    ensures
        state.counters.processed <= crawl_run(state, inputs).counters.processed,
        state.counters.new <= crawl_run(state, inputs).counters.new,
        state.counters.failed <= crawl_run(state, inputs).counters.failed,
        forall|k: int|
            0 <= k < crawl_published(state, inputs).len() ==> reported_within(
                #[trigger] crawl_published(state, inputs)[k],
                crawl_run(state, inputs).counters,
            ),
    decreases inputs.len(),
{
    if inputs.len() > 0 {
        let before = crawl_run(state, inputs.drop_last());
        let last = inputs.last();
        let earlier = crawl_published(state, inputs.drop_last());
        lemma_published_within(state, inputs.drop_last());
        if crawl_next(before, last.token, last.event) is Some {
            lemma_step_counts_up(before, last.token, last.event);
        }
        assert forall|k: int| 0 <= k < crawl_published(state, inputs).len() implies reported_within(
            #[trigger] crawl_published(state, inputs)[k],
            crawl_run(state, inputs).counters,
        ) by {
            if k < earlier.len() {
                assert(reported_within(earlier[k], before.counters));
            }
        }
    }
}

/// Monotonic counters: over any inputs, from any state, an event published
/// later reports no fewer processed, new and failed items than one published
/// earlier.
pub proof fn lemma_counters_monotonic(state: CrawlState, inputs: Seq<CrawlInput>, i: int, j: int)
    requires
        0 <= i <= j < crawl_published(state, inputs).len(),
    ensures
        reports_no_less(crawl_published(state, inputs)[i], crawl_published(state, inputs)[j]),
    decreases inputs.len(),
{
    if inputs.len() > 0 {
        let before = crawl_run(state, inputs.drop_last());
        let earlier = crawl_published(state, inputs.drop_last());
        let last = inputs.last();
        if j < earlier.len() {
            lemma_counters_monotonic(state, inputs.drop_last(), i, j);
        } else if i < earlier.len() {
            lemma_published_within(state, inputs.drop_last());
            lemma_step_counts_up(before, last.token, last.event);
        }
    }
}

/// Not-found classification: a candidate whose scrape fails with a not-found
/// signal counts as skipped and not as failed; any other failure counts as
/// failed and not as skipped.
pub proof fn lemma_not_found_is_skipped(state: CrawlState, token: Option<RunId>, error: ScrapeError)
    requires
        state.phase is AwaitScrape,
    ensures
        crawl_next(state, token, CrawlEvent::ScrapeFailed(error)) is Some,
        ({
            let (next, _) = crawl_next(state, token, CrawlEvent::ScrapeFailed(error))->0;
            if error.not_found() {
                &&& next.counters.skipped == bump(state.counters.skipped)
                &&& next.counters.failed == state.counters.failed
            } else {
                &&& next.counters.failed == bump(state.counters.failed)
                &&& next.counters.skipped == state.counters.skipped
            }
        }),
{
}

/// While the token names the run, no step takes up a candidate or asks for a
/// listing page: the loop polls the token before either.
pub proof fn lemma_token_is_polled(state: CrawlState, token: Option<RunId>, event: CrawlEvent)
    requires
        state.cancelled_by(token),
        crawl_next(state, token, event) is Some,
    ensures
        ({
            let (_, step) = crawl_next(state, token, event)->0;
            &&& !(step.request is CheckExists)
            &&& !(step.request is FetchListing)
        }),
{
}

/// A loop that has seen the token stays stopped: whatever it is fed next, it
/// publishes nothing but the `Cancelled` event that ends the run.
pub proof fn lemma_quiet_once_cancelled(state: CrawlState, token: Option<RunId>, event: CrawlEvent)
    requires
        state.cancel_observed(),
    ensures
        crawl_after(state, CrawlInput { token, event }).cancel_observed(),
        crawl_says(state, CrawlInput { token, event }) matches Some(progress)
            ==> progress.progress_type == ProgressType::Cancelled,
        crawl_next(state, token, event) matches Some((_, step)) ==> step.request == (
        Request::Finish { status: None, error: state.error }),
{
}

/// Cancellation: over any inputs from a state in which the loop has seen the
/// token, no event with phase `Progress` is published.
pub proof fn lemma_no_progress_after_cancel(state: CrawlState, inputs: Seq<CrawlInput>, k: int)
    requires
        state.cancel_observed(),
        0 <= k < crawl_published(state, inputs).len(),
    ensures
        crawl_run(state, inputs).cancel_observed(),
        crawl_published(state, inputs)[k].progress_type == ProgressType::Cancelled,
    decreases inputs.len(),
{
    if inputs.len() > 0 {
        let last = inputs.last();
        lemma_stays_cancelled(state, inputs.drop_last());
        lemma_quiet_once_cancelled(crawl_run(state, inputs.drop_last()), last.token, last.event);
        if k < crawl_published(state, inputs.drop_last()).len() {
            lemma_no_progress_after_cancel(state, inputs.drop_last(), k);
        }
    }
}

proof fn lemma_stays_cancelled(state: CrawlState, inputs: Seq<CrawlInput>)
    requires
        state.cancel_observed(),
    ensures
        crawl_run(state, inputs).cancel_observed(),
    decreases inputs.len(),
{
    if inputs.len() > 0 {
        let last = inputs.last();
        lemma_stays_cancelled(state, inputs.drop_last());
        lemma_quiet_once_cancelled(crawl_run(state, inputs.drop_last()), last.token, last.event);
    }
}

/// The first `2 + answered` inputs of a crawl whose first listing page holds
/// `listed` and whose store has every candidate of it: the start, the page,
/// then one `Exists(true)` for each candidate. `tokens[i]` is the token at
/// input `i`.
pub open spec fn known_page_inputs(
    tokens: Seq<Option<RunId>>,
    listed: Vec<Candidate>,
    answered: nat,
) -> Seq<CrawlInput> {
    Seq::new(
        2 + answered,
        |i: int|
            CrawlInput {
                token: tokens[i],
                event: if i == 0 {
                    CrawlEvent::Begin
                } else if i == 1 {
                    CrawlEvent::Listing(listed)
                } else {
                    CrawlEvent::Exists(true)
                },
            },
    )
}

/// The one event in `published` reports the start of a run.
pub open spec fn only_started(published: Seq<ScrapeProgress>) -> bool {
    published.len() == 1 && published[0].progress_type == ProgressType::Started
}

/// While candidates of the known page are left, the loop is asking about the
/// next of them and has met nothing new.
proof fn lemma_known_page_in_progress(
    run_id: RunId,
    source: Source,
    max_pages: u32,
    tokens: Seq<Option<RunId>>,
    listed: Vec<Candidate>,
    answered: nat,
)
    requires
        max_pages >= 1,
        answered < listed@.len(),
        tokens.len() >= 2 + listed@.len(),
        forall|i: int| 0 <= i < tokens.len() ==> tokens[i] != Some(run_id),
    ensures
        ({
            let start = CrawlState::initial(
                run_id,
                source,
                CrawlStrategy::Paginated { max_pages, incremental: true },
                false,
            );
            let now = crawl_run(start, known_page_inputs(tokens, listed, answered));
            &&& now.phase == Phase::AwaitExists
            &&& now.index == answered
            &&& now.items == listed@
            &&& now.all_existing
            &&& now.page == 1
            &&& now.counters == Counters {
                processed: 0,
                found: clamp_u32(answered + 1),
                new: 0,
                failed: 0,
                skipped: 0,
            }
            &&& only_started(crawl_published(start, known_page_inputs(tokens, listed, answered)))
            &&& now.error == None::<String>
            &&& now.run_id == run_id
            &&& now.force_rescrape == false
            &&& now.strategy == CrawlStrategy::Paginated { max_pages, incremental: true }
        }),
    decreases answered,
{
    let start = CrawlState::initial(
        run_id,
        source,
        CrawlStrategy::Paginated { max_pages, incremental: true },
        false,
    );
    let inputs = known_page_inputs(tokens, listed, answered);
    assert(listed@.len() == listed.len());
    if answered == 0 {
        // The start asks for page 1; the page asks about its first candidate.
        let first = inputs.drop_last();
        assert(crawl_run(start, first.drop_last()) == start);
        let fetching = crawl_run(start, first);
        assert(fetching.phase == Phase::AwaitListing && fetching.page == 1);
        assert(crawl_run(start, inputs) == crawl_after(fetching, inputs.last()));
        assert(crawl_published(start, first.drop_last()) =~= Seq::empty());
        assert(only_started(crawl_published(start, first)));
    } else {
        lemma_known_page_in_progress(
            run_id,
            source,
            max_pages,
            tokens,
            listed,
            (answered - 1) as nat,
        );
        // One more candidate is known: the loop asks about the next.
        assert(inputs.drop_last() =~= known_page_inputs(tokens, listed, (answered - 1) as nat));
        let asking = crawl_run(start, inputs.drop_last());
        assert(crawl_run(start, inputs) == crawl_after(asking, inputs.last()));
    }
}

/// Incremental early stop: a paginated crawl in incremental mode without
/// forced refresh, whose first page lists at least one candidate and only
/// candidates that are stored already, leaves the loop after that page. It
/// has then counted one page and its candidates and nothing else, has
/// published its start and no progress, asks for no second page but for one
/// write of these counters, and completes once they are flushed.
pub proof fn lemma_incremental_stops_after_known_page(
    run_id: RunId,
    source: Source,
    max_pages: u32,
    tokens: Seq<Option<RunId>>,
    listed: Vec<Candidate>,
)
    requires
        max_pages >= 1,
        listed@.len() >= 1,
        tokens.len() == 3 + listed@.len(),
        forall|i: int| 0 <= i < tokens.len() ==> tokens[i] != Some(run_id),
    ensures
        ({
            let start = CrawlState::initial(
                run_id,
                source,
                CrawlStrategy::Paginated { max_pages, incremental: true },
                false,
            );
            let end = crawl_run(start, known_page_inputs(tokens, listed, listed@.len()));
            &&& end.phase == Phase::AwaitFinalFlush { outcome: Outcome::Completed }
            &&& end.page == 1
            &&& end.counters == Counters {
                processed: 1,
                found: clamp_u32(listed@.len()),
                new: 0,
                failed: 0,
                skipped: 0,
            }
            &&& only_started(
                crawl_published(start, known_page_inputs(tokens, listed, listed@.len())),
            )
            &&& crawl_next(
                crawl_run(
                    start,
                    known_page_inputs(tokens, listed, (listed@.len() - 1) as nat),
                ),
                tokens[listed@.len() as int + 1],
                CrawlEvent::Exists(true),
            ) matches Some((_, last)) && last.request == Request::Flush { counters: end.counters }
            &&& crawl_next(end, tokens.last(), CrawlEvent::Flushed) matches Some((done, step)) && {
                &&& done.phase == Phase::Done { outcome: Outcome::Completed }
                &&& step.request == Request::Finish {
                    status: Some(ScrapeStatus::Completed),
                    error: None,
                }
                &&& step.publish matches Some(progress) && progress.pages_scraped == 1
                    && progress.progress_type == ProgressType::Completed
            }
        }),
{
    let start = CrawlState::initial(
        run_id,
        source,
        CrawlStrategy::Paginated { max_pages, incremental: true },
        false,
    );
    let answered = listed@.len();
    let inputs = known_page_inputs(tokens, listed, answered);
    assert(listed@.len() == listed.len());
    lemma_known_page_in_progress(run_id, source, max_pages, tokens, listed, (answered - 1) as nat);
    assert(inputs.drop_last() =~= known_page_inputs(tokens, listed, (answered - 1) as nat));
    // The last candidate is known too: the page is done, and nothing on it was new.
    let asking = crawl_run(start, inputs.drop_last());
    assert(crawl_run(start, inputs) == asking.advanced().page_done().0);
}

/// Only the run that the token names sees a cancellation: a step taken while
/// the token is clear or names another run does not stop the loop as
/// cancelled.
pub proof fn lemma_only_named_run_is_cancelled(
    state: CrawlState,
    token: Option<RunId>,
    event: CrawlEvent,
)
    requires
        !state.cancelled_by(token),
        !state.cancel_observed(),
    ensures
        !crawl_after(state, CrawlInput { token, event }).cancel_observed(),
{
}

/// The loop ends only out of its last flush: a step that ends the loop was
/// taken while the answer to the last flush was awaited, and a step that
/// begins to await it asks for a flush of the counters as they stand.
pub proof fn lemma_last_flush_precedes_end(state: CrawlState, token: Option<RunId>, event: CrawlEvent)
    requires
        crawl_next(state, token, event) is Some,
    ensures
        ({
            let (next, step) = crawl_next(state, token, event)->0;
            &&& next.phase is Done ==> state.phase is AwaitFinalFlush && step.request is Finish
            &&& step.request is Finish ==> next.phase is Done
            &&& next.phase is AwaitFinalFlush ==> step.request == (Request::Flush {
                counters: next.counters,
            })
        }),
{
}

/// A crawl of an identifier range takes its identifiers up one by one in
/// ascending order: each step either stays with the identifier it is on or
/// moves on to the next, and what it asks the store about is the identifier
/// it is on.
pub proof fn lemma_range_goes_up_one_by_one(
    state: CrawlState,
    token: Option<RunId>,
    event: CrawlEvent,
)
    requires
        state.wf(),
        state.strategy is IdRange,
        crawl_next(state, token, event) is Some,
    ensures
        ({
            let (next, step) = crawl_next(state, token, event)->0;
            &&& next.wf()
            &&& next.strategy == state.strategy
            &&& next.index == state.index || next.index == state.index + 1
            &&& step.request matches Request::CheckExists { external_id } ==> next.has_current()
                && external_id == next.current()
        }),
{
}

/// A crawl of an identifier range never stops early: where a step takes it
/// out of its loop as completed, no identifier of the range is left.
pub proof fn lemma_range_completes_at_its_end(
    state: CrawlState,
    token: Option<RunId>,
    event: CrawlEvent,
)
    requires
        state.wf(),
        state.strategy is IdRange,
        !(state.phase is AwaitFinalFlush),
        crawl_next(state, token, event) is Some,
    ensures
        ({
            let (next, _) = crawl_next(state, token, event)->0;
            next.phase == (Phase::AwaitFinalFlush { outcome: Outcome::Completed })
                ==> !next.has_current()
        }),
{
}


/// Every step keeps the loop as it should be: with its position within its
/// candidates, its run and its plan unchanged.
pub proof fn lemma_step_keeps_wf(state: CrawlState, token: Option<RunId>, event: CrawlEvent)
    requires
        state.wf(),
    ensures
        ({
            let next = crawl_after(state, CrawlInput { token, event });
            &&& next.wf()
            &&& next.run_id == state.run_id
            &&& next.source == state.source
            &&& next.strategy == state.strategy
            &&& next.force_rescrape == state.force_rescrape
        }),
{
}

/// The loop stays as it should be over any inputs.
pub proof fn lemma_run_keeps_wf(state: CrawlState, inputs: Seq<CrawlInput>)
    requires
        state.wf(),
    ensures
        crawl_run(state, inputs).wf(),
        crawl_run(state, inputs).run_id == state.run_id,
        crawl_run(state, inputs).strategy == state.strategy,
        crawl_run(state, inputs).force_rescrape == state.force_rescrape,
    decreases inputs.len(),
{
    if inputs.len() > 0 {
        lemma_run_keeps_wf(state, inputs.drop_last());
        lemma_step_keeps_wf(
            crawl_run(state, inputs.drop_last()),
            inputs.last().token,
            inputs.last().event,
        );
    }
}

/// In a crawl of listing pages or of a range, the count of articles found
/// never goes down: not from one state to the next, and not in what a step
/// publishes in between.
pub proof fn lemma_step_finds_more(state: CrawlState, token: Option<RunId>, event: CrawlEvent)
    requires
        state.wf(),
        !(state.strategy is Archive),
        crawl_next(state, token, event) is Some,
    ensures
        ({
            let (next, step) = crawl_next(state, token, event)->0;
            &&& state.counters.found <= next.counters.found
            &&& step.publish matches Some(progress) ==> state.counters.found
                <= progress.articles_found <= next.counters.found
        }),
{
}

proof fn lemma_found_within(state: CrawlState, inputs: Seq<CrawlInput>)
    requires
        state.wf(),
        !(state.strategy is Archive),
    ensures
        state.counters.found <= crawl_run(state, inputs).counters.found,
        forall|k: int|
            0 <= k < crawl_published(state, inputs).len() ==> (#[trigger] crawl_published(
                state,
                inputs,
            )[k]).articles_found <= crawl_run(state, inputs).counters.found,
    decreases inputs.len(),
{
    if inputs.len() > 0 {
        let before = crawl_run(state, inputs.drop_last());
        let last = inputs.last();
        let earlier = crawl_published(state, inputs.drop_last());
        lemma_found_within(state, inputs.drop_last());
        lemma_run_keeps_wf(state, inputs.drop_last());
        if crawl_next(before, last.token, last.event) is Some {
            lemma_step_finds_more(before, last.token, last.event);
        }
        assert forall|k: int| 0 <= k < crawl_published(state, inputs).len() implies (
        #[trigger] crawl_published(state, inputs)[k]).articles_found <= crawl_run(
            state,
            inputs,
        ).counters.found by {
            if k < earlier.len() {
                assert(earlier[k].articles_found <= before.counters.found);
            }
        }
    }
}

/// Over any inputs to a crawl of listing pages or of a range, an event
/// published later reports no fewer articles found than one published
/// earlier.
pub proof fn lemma_found_is_monotonic(state: CrawlState, inputs: Seq<CrawlInput>, i: int, j: int)
    requires
        state.wf(),
        !(state.strategy is Archive),
        0 <= i <= j < crawl_published(state, inputs).len(),
    ensures
        crawl_published(state, inputs)[i].articles_found <= crawl_published(
            state,
            inputs,
        )[j].articles_found,
    decreases inputs.len(),
{
    if inputs.len() > 0 {
        let before = crawl_run(state, inputs.drop_last());
        let earlier = crawl_published(state, inputs.drop_last());
        let last = inputs.last();
        if j < earlier.len() {
            lemma_found_is_monotonic(state, inputs.drop_last(), i, j);
        } else if i < earlier.len() {
            lemma_found_within(state, inputs.drop_last());
            lemma_run_keeps_wf(state, inputs.drop_last());
            lemma_step_finds_more(before, last.token, last.event);
        }
    }
}

/// How the counters of a crawl of a range stand to its position: every
/// identifier before the position was taken up and came out as found, failed
/// or skipped; the one at the position is taken up while an answer about it
/// is awaited; and no more articles are new than were found.
pub open spec fn range_counts(state: CrawlState) -> bool {
    let c = state.counters;
    let settled = c.found + c.failed + c.skipped;
    &&& c.new <= c.found
    &&& match state.phase {
        Phase::Created => c.processed == 0 && settled == 0 && state.index == 0,
        Phase::AwaitListing => true,
        Phase::AwaitExists => c.processed == state.index + 1 && settled == state.index,
        Phase::AwaitScrape { .. } => c.processed == state.index + 1 && settled == state.index,
        Phase::AwaitStore { .. } => c.processed == state.index + 1 && settled == state.index + 1
            && c.new < c.found,
        Phase::AwaitFlush => c.processed == state.index && settled == state.index,
        Phase::AwaitFinalFlush { .. } | Phase::Done { .. } => settled <= c.processed
            <= state.index + 1 && (c.processed == state.index + 1 ==> state.has_current()),
    }
}

/// The size of the range of a crawl; 0 for a crawl of another kind.
pub open spec fn range_size(state: CrawlState) -> nat {
    match state.strategy {
        CrawlStrategy::IdRange { start_id, end_id } => range_len(start_id, end_id),
        _ => 0,
    }
}

/// A step of a crawl of a range keeps its counters in step with its
/// position, and never lets the count of articles found go down.
pub proof fn lemma_range_counts_are_kept(state: CrawlState, token: Option<RunId>, event: CrawlEvent)
    requires
        state.wf(),
        state.strategy is IdRange,
        range_size(state) <= u32::MAX,
        range_counts(state),
    ensures
        ({
            let next = crawl_after(state, CrawlInput { token, event });
            &&& range_counts(next)
            &&& state.counters.found <= next.counters.found
        }),
{
}

/// The counters of a crawl of a range are bounded: over any inputs from its
/// start, no more articles are new than were found, found, failed and
/// skipped together are no more than were processed, and no more were
/// processed than the range holds. No counter is held back at its largest
/// value. This is for a range of fewer than 2^32 identifiers.
pub proof fn lemma_range_counters_are_bounded(
    run_id: RunId,
    source: Source,
    start_id: u32,
    end_id: u32,
    force_rescrape: bool,
    inputs: Seq<CrawlInput>,
)
    requires
        range_len(start_id, end_id) <= u32::MAX,
    ensures
        ({
            let start = CrawlState::initial(
                run_id,
                source,
                CrawlStrategy::IdRange { start_id, end_id },
                force_rescrape,
            );
            let now = crawl_run(start, inputs);
            &&& now.wf()
            &&& range_counts(now)
            &&& now.counters.new <= now.counters.found
            &&& now.counters.found + now.counters.failed + now.counters.skipped
                <= now.counters.processed
            &&& now.counters.processed <= range_len(start_id, end_id)
        }),
    decreases inputs.len(),
{
    let start = CrawlState::initial(
        run_id,
        source,
        CrawlStrategy::IdRange { start_id, end_id },
        force_rescrape,
    );
    if inputs.len() > 0 {
        lemma_range_counters_are_bounded(
            run_id,
            source,
            start_id,
            end_id,
            force_rescrape,
            inputs.drop_last(),
        );
        lemma_run_keeps_wf(start, inputs.drop_last());
        lemma_range_counts_are_kept(
            crawl_run(start, inputs.drop_last()),
            inputs.last().token,
            inputs.last().event,
        );
        lemma_run_keeps_wf(start, inputs);
    }
}

/// A crawl of an archive reads the archive once: it asks for the archive in
/// answer to its start and never again, asks for no listing page, and fails,
/// with the reason it was given, where the archive could not be had.
pub proof fn lemma_archive_is_read_once(state: CrawlState, token: Option<RunId>, event: CrawlEvent)
    requires
        state.wf(),
        state.strategy is Archive,
        crawl_next(state, token, event) is Some,
    ensures
        ({
            let (next, step) = crawl_next(state, token, event)->0;
            &&& step.request is DiscoverArchive <==> state.phase is Created
            &&& next.phase is AwaitListing <==> state.phase is Created
            &&& !(step.request is FetchListing)
            &&& state.phase is AwaitListing ==> (event matches CrawlEvent::ListingFailed {
                detail,
            } ==> next.phase == (Phase::AwaitFinalFlush { outcome: Outcome::Failed })
                && next.error == Some(detail))
        }),
{
}

} // verus!
