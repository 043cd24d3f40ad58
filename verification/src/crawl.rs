//! The run loop of a crawl, as a state machine.
//!
//! The loop itself does no I/O. It is handed what the outside world answered
//! (`CrawlEvent`) and says what to publish and what to ask for next
//! (`CrawlStep`). Whoever drives it performs the request and comes back with
//! the answer, until the request is `Finish`.

use vstd::prelude::*;
use crate::fetch::FetchError;
use crate::model::{Candidate, CrawlStrategy, ExternalId, NewArticle, RunId, ScrapeStatus};
use crate::progress::{ProgressMessage, ProgressType, ScrapeProgress};
use crate::source::Source;
use crate::text::copy_opt_string;

verus! {

/// A crawl of an identifier range flushes its counters after every so many
/// candidates.
pub const RANGE_FLUSH_EVERY: u32 = 50;

/// A crawl of an identifier range reports skipped candidates once in so many.
pub const RANGE_SKIP_NOTICE_EVERY: u32 = 100;

/// A crawl of an archive flushes its counters after every so many candidates.
pub const ARCHIVE_FLUSH_EVERY: u32 = 20;

/// What to do with a candidate.
#[derive(Clone, Copy, Debug, PartialEq, Eq, Structural)]
pub enum Verdict {
    /// Stored already, and no refresh was asked for.
    Skip,
    /// Not stored yet.
    Insert,
    /// Stored already, to be overwritten.
    Update,
}

/// The verdict for a candidate, given whether the store holds it.
pub open spec fn verdict_of(exists: bool, force_rescrape: bool) -> Verdict {
    if !exists {
        Verdict::Insert
    } else if force_rescrape {
        Verdict::Update
    } else {
        Verdict::Skip
    }
}

/// Decides what to do with a candidate, given whether the store holds it:
/// skip what is stored unless a refresh is forced, update what is stored when
/// it is, insert what is not stored.
pub fn classify(exists: bool, force_rescrape: bool) -> (v: Verdict)
    ensures
        v == verdict_of(exists, force_rescrape),
{
    if !exists {
        Verdict::Insert
    } else if force_rescrape {
        Verdict::Update
    } else {
        Verdict::Skip
    }
}

/// Why a candidate could not be scraped.
#[derive(Clone, Debug)]
pub enum ScrapeError {
    Fetch(FetchError),
    Extraction { detail: String },
}

impl ScrapeError {
    /// The failure says that the candidate does not exist at the source.
    pub open spec fn not_found(self) -> bool {
        self matches ScrapeError::Fetch(e) && e.not_found()
    }

    pub fn is_not_found(&self) -> (r: bool)
        ensures
            r == self.not_found(),
    {
        match self {
            ScrapeError::Fetch(e) => e.is_not_found(),
            ScrapeError::Extraction { .. } => false,
        }
    }
}

/// The counters of a run. Each saturates at `u32::MAX`.
#[derive(Clone, Copy, Debug, PartialEq, Eq, Structural)]
pub struct Counters {
    /// Pages (paginated crawl) or candidates (otherwise) gone through.
    pub processed: u32,
    pub found: u32,
    pub new: u32,
    pub failed: u32,
    pub skipped: u32,
}

/// How a run loop ended.
#[derive(Clone, Copy, Debug, PartialEq, Eq, Structural)]
pub enum Outcome {
    Completed,
    Failed,
    Cancelled,
}

/// Where the loop stands: what answer it is waiting for.
#[derive(Clone, Copy, Debug, PartialEq, Eq, Structural)]
pub enum Phase {
    Created,
    AwaitListing,
    AwaitExists,
    AwaitScrape { exists: bool },
    AwaitStore { inserting: bool },
    AwaitFlush,
    AwaitFinalFlush { outcome: Outcome },
    Done { outcome: Outcome },
}

/// What the outside world answered.
#[derive(Clone, Debug)]
pub enum CrawlEvent {
    /// The run was admitted; the loop may start.
    Begin,
    /// The candidates of the listing page or archive that was asked for.
    Listing(Vec<Candidate>),
    /// The listing page or archive could not be had.
    ListingFailed { detail: String },
    /// Whether the store holds the candidate that was asked about.
    Exists(bool),
    /// The candidate's article.
    Scraped(NewArticle),
    /// The candidate could not be fetched or extracted.
    ScrapeFailed(ScrapeError),
    /// The article was written.
    Stored,
    /// The counters were written.
    Flushed,
    /// The store failed on the last request.
    StoreFailed { detail: String },
}

/// What the loop asks for next.
#[derive(Clone, Debug)]
pub enum Request {
    FetchListing { page: u32 },
    DiscoverArchive { max_count: Option<u32> },
    CheckExists { external_id: ExternalId },
    Scrape { external_id: ExternalId },
    Insert { article: NewArticle },
    Update { external_id: ExternalId, article: NewArticle },
    Flush { counters: Counters },
    /// The loop is over. `status` is the status to store, if any: none after
    /// a cancellation, which stored its own.
    Finish { status: Option<ScrapeStatus>, error: Option<String> },
}

/// One step of the loop: an event to publish, if any, then a request.
#[derive(Clone, Debug)]
pub struct CrawlStep {
    pub publish: Option<ScrapeProgress>,
    pub request: Request,
}

/// The event did not answer the request that was pending. Nothing changed.
#[derive(Clone, Copy, Debug, PartialEq, Eq, Structural)]
pub struct UnexpectedEvent;

/// `c + 1`, held at `u32::MAX`.
pub open spec fn bump(c: u32) -> u32 {
    if c < u32::MAX {
        (c + 1) as u32
    } else {
        c
    }
}

/// How many identifiers `start_id ..= end_id` holds.
pub open spec fn range_len(start_id: u32, end_id: u32) -> nat {
    if start_id <= end_id {
        (end_id - start_id + 1) as nat
    } else {
        0
    }
}

/// `n`, held at `u32::MAX`.
pub open spec fn clamp_u32(n: nat) -> u32 {
    if n <= u32::MAX {
        n as u32
    } else {
        u32::MAX
    }
}

/// The status that a finished loop writes to the store. A cancelled run was
/// marked when cancellation was requested and is not written again.
pub open spec fn status_to_store(outcome: Outcome) -> Option<ScrapeStatus> {
    match outcome {
        Outcome::Completed => Some(ScrapeStatus::Completed),
        Outcome::Failed => Some(ScrapeStatus::Failed),
        Outcome::Cancelled => None,
    }
}

/// The status that a loop's outcome stands for.
pub open spec fn status_of(outcome: Outcome) -> ScrapeStatus {
    match outcome {
        Outcome::Completed => ScrapeStatus::Completed,
        Outcome::Failed => ScrapeStatus::Failed,
        Outcome::Cancelled => ScrapeStatus::Cancelled,
    }
}

/// The phase of the event that reports a loop's outcome.
pub open spec fn terminal_type(outcome: Outcome) -> ProgressType {
    match outcome {
        Outcome::Completed => ProgressType::Completed,
        Outcome::Failed => ProgressType::Failed,
        Outcome::Cancelled => ProgressType::Cancelled,
    }
}

/// The state of a run loop.
pub struct CrawlState {
    pub run_id: RunId,
    pub source: Source,
    pub strategy: CrawlStrategy,
    pub force_rescrape: bool,
    pub counters: Counters,
    /// The total that events report, once known.
    pub total: Option<u32>,
    /// The listing page being gone through; 0 before the first.
    pub page: u32,
    /// The candidates of the current page, or of the archive.
    pub items: Seq<Candidate>,
    /// Position of the current candidate, in `items` or in the range.
    pub index: u64,
    /// Every candidate of the page so far was stored already and left alone.
    pub all_existing: bool,
    pub phase: Phase,
    /// The failure that ended the loop, if one did.
    pub error: Option<String>,
}

impl CrawlState {
    /// The state of a run that has not begun.
    pub open spec fn initial(
        run_id: RunId,
        source: Source,
        strategy: CrawlStrategy,
        force_rescrape: bool,
    ) -> CrawlState {
        CrawlState {
            run_id,
            source,
            strategy,
            force_rescrape,
            counters: Counters { processed: 0, found: 0, new: 0, failed: 0, skipped: 0 },
            total: match strategy {
                CrawlStrategy::Paginated { max_pages, .. } => Some(max_pages),
                CrawlStrategy::IdRange { start_id, end_id } => Some(
                    clamp_u32(range_len(start_id, end_id)),
                ),
                CrawlStrategy::Archive { .. } => None,
            },
            page: 0,
            items: Seq::empty(),
            index: 0,
            all_existing: true,
            phase: Phase::Created,
            error: None,
        }
    }

    /// There is a candidate at `index`.
    pub open spec fn has_current(self) -> bool {
        match self.strategy {
            CrawlStrategy::IdRange { start_id, end_id } => self.index < range_len(start_id, end_id),
            _ => self.index < self.items.len(),
        }
    }

    /// The candidate at `index`.
    pub open spec fn current(self) -> ExternalId {
        match self.strategy {
            CrawlStrategy::IdRange { start_id, .. } => ExternalId::Number(
                (start_id + self.index) as u32,
            ),
            _ => self.items[self.index as int].external_id,
        }
    }

    /// The position is within the candidates, or just past the last.
    pub open spec fn in_bounds(self) -> bool {
        match self.strategy {
            CrawlStrategy::IdRange { start_id, end_id } => self.index <= range_len(start_id, end_id),
            _ => self.index <= self.items.len(),
        }
    }

    /// The position is within the candidates, and on a candidate while an
    /// answer about one is awaited; a crawl of a range awaits no listing.
    pub open spec fn wf(self) -> bool {
        &&& self.in_bounds()
        &&& (self.phase is AwaitExists || self.phase is AwaitScrape || self.phase is AwaitStore)
            ==> self.has_current()
        &&& self.strategy is IdRange ==> !(self.phase is AwaitListing)
    }

    /// The loop has seen the cancellation token name its run.
    pub open spec fn cancel_observed(self) -> bool {
        self.phase == (Phase::AwaitFinalFlush { outcome: Outcome::Cancelled }) || self.phase == (
        Phase::Done { outcome: Outcome::Cancelled })
    }

    /// The token asks this run to stop.
    pub open spec fn cancelled_by(self, token: Option<RunId>) -> bool {
        token == Some(self.run_id)
    }

    /// An event of the given phase with the counters as they stand.
    pub open spec fn event(
        self,
        progress_type: ProgressType,
        current: Option<ExternalId>,
        message: Option<ProgressMessage>,
    ) -> ScrapeProgress {
        ScrapeProgress {
            run_id: self.run_id,
            progress_type,
            pages_scraped: self.counters.processed,
            total_pages: self.total,
            articles_found: self.counters.found,
            articles_new: self.counters.new,
            articles_failed: self.counters.failed,
            current_article: current,
            message,
        }
    }

    /// Leave the loop: flush the counters one last time.
    pub open spec fn stop(self, outcome: Outcome) -> (CrawlState, CrawlStep) {
        (
            CrawlState { phase: Phase::AwaitFinalFlush { outcome }, ..self },
            CrawlStep { publish: None, request: Request::Flush { counters: self.counters } },
        )
    }

    /// Leave the loop on a failure that no candidate can be blamed for.
    pub open spec fn fail(self, detail: String) -> (CrawlState, CrawlStep) {
        (CrawlState { error: Some(detail), ..self }).stop(Outcome::Failed)
    }

    /// Take up the candidate at `index`.
    pub open spec fn visit(self) -> (CrawlState, CrawlStep) {
        let counters = if self.strategy is Paginated {
            Counters { found: bump(self.counters.found), ..self.counters }
        } else {
            Counters { processed: bump(self.counters.processed), ..self.counters }
        };
        (
            CrawlState { counters, phase: Phase::AwaitExists, ..self },
            CrawlStep {
                publish: None,
                request: Request::CheckExists { external_id: self.current() },
            },
        )
    }

    /// A paginated crawl ends with the page it has just gone through.
    pub open spec fn last_page(self) -> bool {
        match self.strategy {
            CrawlStrategy::Paginated { max_pages, incremental } => (self.all_existing
                && incremental) || self.page >= max_pages,
            _ => true,
        }
    }

    /// The page is gone through: count it, then stop or flush.
    pub open spec fn page_done(self) -> (CrawlState, CrawlStep) {
        let counted = CrawlState {
            counters: Counters { processed: bump(self.counters.processed), ..self.counters },
            ..self
        };
        if counted.last_page() {
            counted.stop(Outcome::Completed)
        } else {
            (
                CrawlState { phase: Phase::AwaitFlush, ..counted },
                CrawlStep {
                    publish: None,
                    request: Request::Flush { counters: counted.counters },
                },
            )
        }
    }

    /// Go on to the candidate at `index`, polling the token before taking it
    /// up; or, where there is none, end the page or the run.
    pub open spec fn next_candidate(self, token: Option<RunId>) -> (CrawlState, CrawlStep) {
        if self.has_current() {
            if self.cancelled_by(token) {
                self.stop(Outcome::Cancelled)
            } else {
                self.visit()
            }
        } else if self.strategy is Paginated {
            self.page_done()
        } else {
            self.stop(Outcome::Completed)
        }
    }

    /// Go on to the next listing page, polling the token before asking for it.
    pub open spec fn next_page(self, token: Option<RunId>) -> (CrawlState, CrawlStep) {
        match self.strategy {
            CrawlStrategy::Paginated { max_pages, .. } => {
                if self.page < max_pages {
                    if self.cancelled_by(token) {
                        self.stop(Outcome::Cancelled)
                    } else {
                        (
                            CrawlState {
                                page: (self.page + 1) as u32,
                                items: Seq::empty(),
                                index: 0,
                                phase: Phase::AwaitListing,
                                ..self
                            },
                            CrawlStep {
                                publish: None,
                                request: Request::FetchListing { page: (self.page + 1) as u32 },
                            },
                        )
                    }
                } else {
                    self.stop(Outcome::Completed)
                }
            },
            _ => self.stop(Outcome::Completed),
        }
    }

    /// The counters are due for a periodic flush.
    pub open spec fn flush_due(self) -> bool {
        match self.strategy {
            CrawlStrategy::IdRange { .. } => self.counters.processed % RANGE_FLUSH_EVERY == 0,
            CrawlStrategy::Archive { .. } => self.counters.processed % ARCHIVE_FLUSH_EVERY == 0,
            CrawlStrategy::Paginated { .. } => false,
        }
    }

    /// A candidate is dealt with and `index` is past it: flush if due, else go
    /// on.
    pub open spec fn after_candidate(self, token: Option<RunId>) -> (CrawlState, CrawlStep) {
        if self.flush_due() {
            (
                CrawlState { phase: Phase::AwaitFlush, ..self },
                CrawlStep { publish: None, request: Request::Flush { counters: self.counters } },
            )
        } else {
            self.next_candidate(token)
        }
    }

    /// `index` moved past the current candidate.
    pub open spec fn advanced(self) -> CrawlState {
        CrawlState { index: (self.index + 1) as u64, ..self }
    }

    pub open spec fn on_begin(self, token: Option<RunId>) -> (CrawlState, CrawlStep) {
        match self.strategy {
            CrawlStrategy::Paginated { .. } => with_publish(
                self.next_page(token),
                Some(
                    self.event(
                        ProgressType::Started,
                        None,
                        Some(ProgressMessage::Starting { source: self.source }),
                    ),
                ),
            ),
            CrawlStrategy::IdRange { start_id, end_id } => with_publish(
                self.next_candidate(token),
                Some(
                    self.event(
                        ProgressType::Started,
                        None,
                        Some(ProgressMessage::StartingRange { start_id, end_id }),
                    ),
                ),
            ),
            CrawlStrategy::Archive { max_count, .. } => (
                CrawlState { phase: Phase::AwaitListing, ..self },
                CrawlStep {
                    publish: Some(
                        self.event(
                            ProgressType::Started,
                            None,
                            Some(ProgressMessage::Starting { source: self.source }),
                        ),
                    ),
                    request: Request::DiscoverArchive { max_count },
                },
            ),
        }
    }

    pub open spec fn on_listing(self, token: Option<RunId>, listed: Seq<Candidate>) -> (
        CrawlState,
        CrawlStep,
    ) {
        if self.strategy is Paginated {
            if listed.len() == 0 {
                self.stop(Outcome::Completed)
            } else {
                (CrawlState { items: listed, index: 0, all_existing: true, ..self }).next_candidate(
                    token,
                )
            }
        } else {
            let count = clamp_u32(listed.len());
            let loaded = CrawlState {
                items: listed,
                index: 0,
                counters: Counters { found: count, ..self.counters },
                total: Some(count),
                ..self
            };
            with_publish(
                loaded.next_candidate(token),
                Some(
                    loaded.event(
                        ProgressType::Progress,
                        None,
                        Some(ProgressMessage::Discovered { count }),
                    ),
                ),
            )
        }
    }

    pub open spec fn on_listing_failed(self, token: Option<RunId>, detail: String) -> (
        CrawlState,
        CrawlStep,
    ) {
        if self.strategy is Paginated {
            self.next_page(token)
        } else {
            self.fail(detail)
        }
    }

    pub open spec fn on_exists(self, token: Option<RunId>, exists: bool) -> (
        CrawlState,
        CrawlStep,
    ) {
        if verdict_of(exists, self.force_rescrape) == Verdict::Skip {
            match self.strategy {
                CrawlStrategy::IdRange { .. } => {
                    let skipped = CrawlState {
                        counters: Counters {
                            skipped: bump(self.counters.skipped),
                            ..self.counters
                        },
                        ..self
                    };
                    let notice = if self.counters.processed % RANGE_SKIP_NOTICE_EVERY == 0 {
                        Some(
                            skipped.event(
                                ProgressType::Progress,
                                Some(self.current()),
                                Some(ProgressMessage::Skipped { count: skipped.counters.skipped }),
                            ),
                        )
                    } else {
                        None
                    };
                    with_publish(skipped.advanced().after_candidate(token), notice)
                },
                CrawlStrategy::Paginated { .. } => self.advanced().after_candidate(token),
                CrawlStrategy::Archive { incremental, .. } => {
                    if incremental {
                        self.stop(Outcome::Completed)
                    } else {
                        self.advanced().after_candidate(token)
                    }
                },
            }
        } else {
            (
                CrawlState { all_existing: false, phase: Phase::AwaitScrape { exists }, ..self },
                CrawlStep {
                    publish: Some(self.event(ProgressType::Progress, Some(self.current()), None)),
                    request: Request::Scrape { external_id: self.current() },
                },
            )
        }
    }

    pub open spec fn on_scraped(self, exists: bool, article: NewArticle) -> (
        CrawlState,
        CrawlStep,
    ) {
        let counters = if self.strategy is IdRange {
            Counters { found: bump(self.counters.found), ..self.counters }
        } else {
            self.counters
        };
        (
            CrawlState { counters, phase: Phase::AwaitStore { inserting: !exists }, ..self },
            CrawlStep {
                publish: None,
                request: if exists {
                    Request::Update { external_id: self.current(), article }
                } else {
                    Request::Insert { article }
                },
            },
        )
    }

    pub open spec fn on_scrape_failed(self, token: Option<RunId>, error: ScrapeError) -> (
        CrawlState,
        CrawlStep,
    ) {
        let counters = if error.not_found() {
            Counters { skipped: bump(self.counters.skipped), ..self.counters }
        } else {
            Counters { failed: bump(self.counters.failed), ..self.counters }
        };
        (CrawlState { counters, ..self }).advanced().after_candidate(token)
    }

    pub open spec fn on_stored(self, token: Option<RunId>, inserting: bool) -> (
        CrawlState,
        CrawlStep,
    ) {
        let counters = if inserting {
            Counters { new: bump(self.counters.new), ..self.counters }
        } else {
            self.counters
        };
        (CrawlState { counters, ..self }).advanced().after_candidate(token)
    }

    pub open spec fn on_flushed(self, token: Option<RunId>) -> (CrawlState, CrawlStep) {
        if self.strategy is Paginated {
            self.next_page(token)
        } else {
            self.next_candidate(token)
        }
    }

    /// The last flush is over: report the outcome and say what to store.
    pub open spec fn finish(self, outcome: Outcome) -> (CrawlState, CrawlStep) {
        (
            CrawlState { phase: Phase::Done { outcome }, ..self },
            CrawlStep {
                publish: Some(
                    self.event(
                        terminal_type(outcome),
                        None,
                        Some(
                            ProgressMessage::Ended {
                                source: self.source,
                                range: self.strategy is IdRange,
                                status: status_of(outcome),
                            },
                        ),
                    ),
                ),
                request: Request::Finish { status: status_to_store(outcome), error: self.error },
            },
        )
    }

    /// The last flush failed. A run that was about to complete fails on it;
    /// a run that failed or was cancelled stays so.
    pub open spec fn finish_unflushed(self, outcome: Outcome, detail: String) -> (
        CrawlState,
        CrawlStep,
    ) {
        if outcome == Outcome::Completed {
            (CrawlState { error: Some(detail), ..self }).finish(Outcome::Failed)
        } else {
            self.finish(outcome)
        }
    }
}

/// The step `r` with `publish` as the event to publish.
pub open spec fn with_publish(r: (CrawlState, CrawlStep), publish: Option<ScrapeProgress>) -> (
    CrawlState,
    CrawlStep,
) {
    (r.0, CrawlStep { publish, request: r.1.request })
}

/// The transition of the run loop: the state after `event` and the step it
/// calls for, or `None` where `event` does not answer the pending request.
pub open spec fn crawl_next(state: CrawlState, token: Option<RunId>, event: CrawlEvent) -> Option<
    (CrawlState, CrawlStep),
> {
    match (state.phase, event) {
        (Phase::Created, CrawlEvent::Begin) => Some(state.on_begin(token)),
        (Phase::AwaitListing, CrawlEvent::Listing(listed)) => Some(state.on_listing(token, listed@)),
        (Phase::AwaitListing, CrawlEvent::ListingFailed { detail }) => Some(
            state.on_listing_failed(token, detail),
        ),
        (Phase::AwaitExists, CrawlEvent::Exists(exists)) => Some(state.on_exists(token, exists)),
        (Phase::AwaitScrape { exists }, CrawlEvent::Scraped(article)) => Some(
            state.on_scraped(exists, article),
        ),
        (Phase::AwaitScrape { .. }, CrawlEvent::ScrapeFailed(error)) => Some(
            state.on_scrape_failed(token, error),
        ),
        (Phase::AwaitStore { inserting }, CrawlEvent::Stored) => Some(
            state.on_stored(token, inserting),
        ),
        (Phase::AwaitFlush, CrawlEvent::Flushed) => Some(state.on_flushed(token)),
        (Phase::AwaitFinalFlush { outcome }, CrawlEvent::Flushed) => Some(state.finish(outcome)),
        (Phase::AwaitFinalFlush { outcome }, CrawlEvent::StoreFailed { detail }) => Some(
            state.finish_unflushed(outcome, detail),
        ),
        (Phase::AwaitExists, CrawlEvent::StoreFailed { detail }) => Some(state.fail(detail)),
        (Phase::AwaitStore { .. }, CrawlEvent::StoreFailed { detail }) => Some(state.fail(detail)),
        (Phase::AwaitFlush, CrawlEvent::StoreFailed { detail }) => Some(state.fail(detail)),
        _ => None,
    }
}

/// A run loop. Made by `Crawl::new`, driven by `Crawl::step`.
pub struct Crawl {
    run_id: RunId,
    source: Source,
    strategy: CrawlStrategy,
    force_rescrape: bool,
    counters: Counters,
    total: Option<u32>,
    page: u32,
    items: Vec<Candidate>,
    index: u64,
    all_existing: bool,
    phase: Phase,
    error: Option<String>,
}

fn bump_counter(c: u32) -> (r: u32)
    ensures
        r == bump(c),
{
    if c < u32::MAX {
        c + 1
    } else {
        c
    }
}

fn clamp_len(n: usize) -> (r: u32)
    ensures
        r == clamp_u32(n as nat),
{
    if n <= u32::MAX as usize {
        n as u32
    } else {
        u32::MAX
    }
}

impl Crawl {
    pub closed spec fn view(&self) -> CrawlState {
        CrawlState {
            run_id: self.run_id,
            source: self.source,
            strategy: self.strategy,
            force_rescrape: self.force_rescrape,
            counters: self.counters,
            total: self.total,
            page: self.page,
            items: self.items@,
            index: self.index,
            all_existing: self.all_existing,
            phase: self.phase,
            error: self.error,
        }
    }

    /// The invariant of a run loop: the position is within the candidates,
    /// and on a candidate while an answer about one is awaited.
    pub open spec fn wf(&self) -> bool {
        self@.wf()
    }

    /// A run loop that has not begun.
    pub fn new(run_id: RunId, source: Source, strategy: CrawlStrategy, force_rescrape: bool) -> (crawl:
        Crawl)
        ensures
            crawl.wf(),
            crawl@ == CrawlState::initial(run_id, source, strategy, force_rescrape),
    {
        let total = match strategy {
            CrawlStrategy::Paginated { max_pages, .. } => Some(max_pages),
            CrawlStrategy::IdRange { start_id, end_id } => {
                if start_id > end_id {
                    Some(0)
                } else if end_id - start_id == u32::MAX {
                    Some(u32::MAX)
                } else {
                    Some(end_id - start_id + 1)
                }
            },
            CrawlStrategy::Archive { .. } => None,
        };
        Crawl {
            run_id,
            source,
            strategy,
            force_rescrape,
            counters: Counters { processed: 0, found: 0, new: 0, failed: 0, skipped: 0 },
            total,
            page: 0,
            items: Vec::new(),
            index: 0,
            all_existing: true,
            phase: Phase::Created,
            error: None,
        }
    }

    pub fn run_id(&self) -> (r: RunId)
        ensures
            r == self@.run_id,
    {
        self.run_id
    }

    pub fn source(&self) -> (r: Source)
        ensures
            r == self@.source,
    {
        self.source
    }

    pub fn strategy(&self) -> (r: CrawlStrategy)
        ensures
            r == self@.strategy,
    {
        self.strategy
    }

    pub fn counters(&self) -> (r: Counters)
        ensures
            r == self@.counters,
    {
        self.counters
    }

    pub fn phase(&self) -> (r: Phase)
        ensures
            r == self@.phase,
    {
        self.phase
    }

    /// The loop is over: no event is expected any more.
    pub fn is_done(&self) -> (r: bool)
        ensures
            r == (self@.phase is Done),
    {
        match self.phase {
            Phase::Done { .. } => true,
            _ => false,
        }
    }

    fn cancelled_by(&self, token: Option<RunId>) -> (r: bool)
        ensures
            r == self@.cancelled_by(token),
    {
        match token {
            Some(id) => id.0 == self.run_id.0,
            None => false,
        }
    }

    fn has_current(&self) -> (r: bool)
        ensures
            r == self@.has_current(),
    {
        match self.strategy {
            CrawlStrategy::IdRange { start_id, end_id } => start_id <= end_id && self.index <= (
            end_id - start_id) as u64,
            _ => self.index < self.items.len() as u64,
        }
    }

    /// Moves past the current candidate.
    fn advance(&mut self)
        requires
            old(self)@.in_bounds(),
            old(self)@.has_current(),
        ensures
            final(self)@ == old(self)@.advanced(),
            final(self)@.in_bounds(),
    {
        let _ = self.items.len();
        self.index = self.index + 1;
    }

    fn current(&self) -> (r: ExternalId)
        requires
            self@.has_current(),
        ensures
            r == self@.current(),
    {
        let _ = self.items.len();
        match self.strategy {
            CrawlStrategy::IdRange { start_id, .. } => ExternalId::Number(
                start_id + self.index as u32,
            ),
            _ => self.items[self.index as usize].external_id.duplicate(),
        }
    }

    fn event(
        &self,
        progress_type: ProgressType,
        current: Option<ExternalId>,
        message: Option<ProgressMessage>,
    ) -> (r: ScrapeProgress)
        ensures
            r == self@.event(progress_type, current, message),
    {
        ScrapeProgress {
            run_id: self.run_id,
            progress_type,
            pages_scraped: self.counters.processed,
            total_pages: self.total,
            articles_found: self.counters.found,
            articles_new: self.counters.new,
            articles_failed: self.counters.failed,
            current_article: current,
            message,
        }
    }

    fn stop(&mut self, outcome: Outcome) -> (r: CrawlStep)
        requires
            old(self)@.in_bounds(),
        ensures
            final(self)@.wf(),
            (final(self)@, r) == old(self)@.stop(outcome),
    {
        self.phase = Phase::AwaitFinalFlush { outcome };
        CrawlStep { publish: None, request: Request::Flush { counters: self.counters } }
    }

    fn fail(&mut self, detail: String) -> (r: CrawlStep)
        requires
            old(self)@.in_bounds(),
        ensures
            final(self)@.wf(),
            (final(self)@, r) == old(self)@.fail(detail),
    {
        self.error = Some(detail);
        self.stop(Outcome::Failed)
    }

    fn visit(&mut self) -> (r: CrawlStep)
        requires
            old(self)@.in_bounds(),
            old(self)@.has_current(),
        ensures
            final(self)@.wf(),
            (final(self)@, r) == old(self)@.visit(),
    {
        let external_id = self.current();
        match self.strategy {
            CrawlStrategy::Paginated { .. } => {
                self.counters.found = bump_counter(self.counters.found);
            },
            _ => {
                self.counters.processed = bump_counter(self.counters.processed);
            },
        }
        self.phase = Phase::AwaitExists;
        CrawlStep { publish: None, request: Request::CheckExists { external_id } }
    }

    fn last_page(&self) -> (r: bool)
        ensures
            r == self@.last_page(),
    {
        match self.strategy {
            CrawlStrategy::Paginated { max_pages, incremental } => (self.all_existing
                && incremental) || self.page >= max_pages,
            _ => true,
        }
    }

    fn page_done(&mut self) -> (r: CrawlStep)
        requires
            old(self)@.in_bounds(),
        ensures
            final(self)@.wf(),
            (final(self)@, r) == old(self)@.page_done(),
    {
        self.counters.processed = bump_counter(self.counters.processed);
        if self.last_page() {
            self.stop(Outcome::Completed)
        } else {
            self.phase = Phase::AwaitFlush;
            CrawlStep { publish: None, request: Request::Flush { counters: self.counters } }
        }
    }

    fn next_candidate(&mut self, token: Option<RunId>) -> (r: CrawlStep)
        requires
            old(self)@.in_bounds(),
        ensures
            final(self)@.wf(),
            (final(self)@, r) == old(self)@.next_candidate(token),
    {
        if self.has_current() {
            if self.cancelled_by(token) {
                self.stop(Outcome::Cancelled)
            } else {
                self.visit()
            }
        } else {
            match self.strategy {
                CrawlStrategy::Paginated { .. } => self.page_done(),
                _ => self.stop(Outcome::Completed),
            }
        }
    }

    fn next_page(&mut self, token: Option<RunId>) -> (r: CrawlStep)
        requires
            old(self)@.in_bounds(),
        ensures
            final(self)@.wf(),
            (final(self)@, r) == old(self)@.next_page(token),
    {
        match self.strategy {
            CrawlStrategy::Paginated { max_pages, .. } => {
                if self.page < max_pages {
                    if self.cancelled_by(token) {
                        self.stop(Outcome::Cancelled)
                    } else {
                        self.page = self.page + 1;
                        self.items = Vec::new();
                        self.index = 0;
                        self.phase = Phase::AwaitListing;
                        CrawlStep {
                            publish: None,
                            request: Request::FetchListing { page: self.page },
                        }
                    }
                } else {
                    self.stop(Outcome::Completed)
                }
            },
            _ => self.stop(Outcome::Completed),
        }
    }

    fn flush_due(&self) -> (r: bool)
        ensures
            r == self@.flush_due(),
    {
        match self.strategy {
            CrawlStrategy::IdRange { .. } => self.counters.processed % RANGE_FLUSH_EVERY == 0,
            CrawlStrategy::Archive { .. } => self.counters.processed % ARCHIVE_FLUSH_EVERY == 0,
            CrawlStrategy::Paginated { .. } => false,
        }
    }

    fn after_candidate(&mut self, token: Option<RunId>) -> (r: CrawlStep)
        requires
            old(self)@.in_bounds(),
        ensures
            final(self)@.wf(),
            (final(self)@, r) == old(self)@.after_candidate(token),
    {
        if self.flush_due() {
            self.phase = Phase::AwaitFlush;
            CrawlStep { publish: None, request: Request::Flush { counters: self.counters } }
        } else {
            self.next_candidate(token)
        }
    }

    fn on_begin(&mut self, token: Option<RunId>) -> (r: CrawlStep)
        requires
            old(self)@.in_bounds(),
        ensures
            final(self)@.wf(),
            (final(self)@, r) == old(self)@.on_begin(token),
    {
        match self.strategy {
            CrawlStrategy::Paginated { .. } => {
                let started = self.event(
                    ProgressType::Started,
                    None,
                    Some(ProgressMessage::Starting { source: self.source }),
                );
                let mut step = self.next_page(token);
                step.publish = Some(started);
                step
            },
            CrawlStrategy::IdRange { start_id, end_id } => {
                let started = self.event(
                    ProgressType::Started,
                    None,
                    Some(ProgressMessage::StartingRange { start_id, end_id }),
                );
                let mut step = self.next_candidate(token);
                step.publish = Some(started);
                step
            },
            CrawlStrategy::Archive { max_count, .. } => {
                let started = self.event(
                    ProgressType::Started,
                    None,
                    Some(ProgressMessage::Starting { source: self.source }),
                );
                self.phase = Phase::AwaitListing;
                CrawlStep {
                    publish: Some(started),
                    request: Request::DiscoverArchive { max_count },
                }
            },
        }
    }

    fn on_listing(&mut self, token: Option<RunId>, listed: Vec<Candidate>) -> (r: CrawlStep)
        requires
            old(self)@.in_bounds(),
        ensures
            final(self)@.wf(),
            (final(self)@, r) == old(self)@.on_listing(token, listed@),
    {
        match self.strategy {
            CrawlStrategy::Paginated { .. } => {
                if listed.len() == 0 {
                    self.stop(Outcome::Completed)
                } else {
                    self.items = listed;
                    self.index = 0;
                    self.all_existing = true;
                    self.next_candidate(token)
                }
            },
            _ => {
                let count = clamp_len(listed.len());
                self.items = listed;
                self.index = 0;
                self.counters.found = count;
                self.total = Some(count);
                let discovered = self.event(
                    ProgressType::Progress,
                    None,
                    Some(ProgressMessage::Discovered { count }),
                );
                let mut step = self.next_candidate(token);
                step.publish = Some(discovered);
                step
            },
        }
    }

    fn on_listing_failed(&mut self, token: Option<RunId>, detail: String) -> (r: CrawlStep)
        requires
            old(self)@.in_bounds(),
        ensures
            final(self)@.wf(),
            (final(self)@, r) == old(self)@.on_listing_failed(token, detail),
    {
        match self.strategy {
            CrawlStrategy::Paginated { .. } => self.next_page(token),
            _ => self.fail(detail),
        }
    }

    fn on_exists(&mut self, token: Option<RunId>, exists: bool) -> (r: CrawlStep)
        requires
            old(self)@.in_bounds(),
            old(self)@.has_current(),
        ensures
            final(self)@.wf(),
            (final(self)@, r) == old(self)@.on_exists(token, exists),
    {
        match classify(exists, self.force_rescrape) {
            Verdict::Skip => {
                match self.strategy {
                    CrawlStrategy::IdRange { .. } => {
                        let external_id = self.current();
                        self.counters.skipped = bump_counter(self.counters.skipped);
                        let notice = if self.counters.processed % RANGE_SKIP_NOTICE_EVERY == 0 {
                            Some(
                                self.event(
                                    ProgressType::Progress,
                                    Some(external_id),
                                    Some(ProgressMessage::Skipped { count: self.counters.skipped }),
                                ),
                            )
                        } else {
                            None
                        };
                        self.advance();
                        let mut step = self.after_candidate(token);
                        step.publish = notice;
                        step
                    },
                    CrawlStrategy::Paginated { .. } => {
                        self.advance();
                        self.after_candidate(token)
                    },
                    CrawlStrategy::Archive { incremental, .. } => {
                        if incremental {
                            self.stop(Outcome::Completed)
                        } else {
                            self.advance();
                            self.after_candidate(token)
                        }
                    },
                }
            },
            _ => {
                let progress = self.event(ProgressType::Progress, Some(self.current()), None);
                let external_id = self.current();
                self.all_existing = false;
                self.phase = Phase::AwaitScrape { exists };
                CrawlStep { publish: Some(progress), request: Request::Scrape { external_id } }
            },
        }
    }

    fn on_scraped(&mut self, exists: bool, article: NewArticle) -> (r: CrawlStep)
        requires
            old(self)@.in_bounds(),
            old(self)@.has_current(),
        ensures
            final(self)@.wf(),
            (final(self)@, r) == old(self)@.on_scraped(exists, article),
    {
        let request = if exists {
            Request::Update { external_id: self.current(), article }
        } else {
            Request::Insert { article }
        };
        match self.strategy {
            CrawlStrategy::IdRange { .. } => {
                self.counters.found = bump_counter(self.counters.found);
            },
            _ => {},
        }
        self.phase = Phase::AwaitStore { inserting: !exists };
        CrawlStep { publish: None, request }
    }

    fn on_scrape_failed(&mut self, token: Option<RunId>, error: ScrapeError) -> (r: CrawlStep)
        requires
            old(self)@.in_bounds(),
            old(self)@.has_current(),
        ensures
            final(self)@.wf(),
            (final(self)@, r) == old(self)@.on_scrape_failed(token, error),
    {
        if error.is_not_found() {
            self.counters.skipped = bump_counter(self.counters.skipped);
        } else {
            self.counters.failed = bump_counter(self.counters.failed);
        }
        self.advance();
        self.after_candidate(token)
    }

    fn on_stored(&mut self, token: Option<RunId>, inserting: bool) -> (r: CrawlStep)
        requires
            old(self)@.in_bounds(),
            old(self)@.has_current(),
        ensures
            final(self)@.wf(),
            (final(self)@, r) == old(self)@.on_stored(token, inserting),
    {
        if inserting {
            self.counters.new = bump_counter(self.counters.new);
        }
        self.advance();
        self.after_candidate(token)
    }

    fn on_flushed(&mut self, token: Option<RunId>) -> (r: CrawlStep)
        requires
            old(self)@.in_bounds(),
        ensures
            final(self)@.wf(),
            (final(self)@, r) == old(self)@.on_flushed(token),
    {
        match self.strategy {
            CrawlStrategy::Paginated { .. } => self.next_page(token),
            _ => self.next_candidate(token),
        }
    }

    fn finish(&mut self, outcome: Outcome) -> (r: CrawlStep)
        requires
            old(self)@.in_bounds(),
        ensures
            final(self)@.wf(),
            (final(self)@, r) == old(self)@.finish(outcome),
    {
        let (progress_type, status, status_to_store) = match outcome {
            Outcome::Completed => (
                ProgressType::Completed,
                ScrapeStatus::Completed,
                Some(ScrapeStatus::Completed),
            ),
            Outcome::Failed => (ProgressType::Failed, ScrapeStatus::Failed, Some(ScrapeStatus::Failed)),
            Outcome::Cancelled => (ProgressType::Cancelled, ScrapeStatus::Cancelled, None),
        };
        let range = match self.strategy {
            CrawlStrategy::IdRange { .. } => true,
            _ => false,
        };
        let ended = self.event(
            progress_type,
            None,
            Some(ProgressMessage::Ended { source: self.source, range, status }),
        );
        self.phase = Phase::Done { outcome };
        CrawlStep {
            publish: Some(ended),
            request: Request::Finish { status: status_to_store, error: copy_opt_string(&self.error) },
        }
    }

    fn finish_unflushed(&mut self, outcome: Outcome, detail: String) -> (r: CrawlStep)
        requires
            old(self)@.in_bounds(),
        ensures
            final(self)@.wf(),
            (final(self)@, r) == old(self)@.finish_unflushed(outcome, detail),
    {
        match outcome {
            Outcome::Completed => {
                self.error = Some(detail);
                self.finish(Outcome::Failed)
            },
            _ => self.finish(outcome),
        }
    }

    /// Takes the answer to the pending request and says what comes next.
    ///
    /// `token` is the cancellation token as it stands now. The loop looks at
    /// it before it takes up a candidate or asks for a listing page, and
    /// nowhere else.
    pub fn step(&mut self, token: Option<RunId>, event: CrawlEvent) -> (r: Result<
        CrawlStep,
        UnexpectedEvent,
    >)
        requires
            old(self).wf(),
        ensures
            final(self).wf(),
            match crawl_next(old(self)@, token, event) {
                Some((state, step)) => r == Ok::<CrawlStep, UnexpectedEvent>(step) && final(self)@
                    == state,
                None => r == Err::<CrawlStep, UnexpectedEvent>(UnexpectedEvent) && final(self)@
                    == old(self)@,
            },
    {
        match (self.phase, event) {
            (Phase::Created, CrawlEvent::Begin) => Ok(self.on_begin(token)),
            (Phase::AwaitListing, CrawlEvent::Listing(listed)) => Ok(self.on_listing(token, listed)),
            (Phase::AwaitListing, CrawlEvent::ListingFailed { detail }) => Ok(
                self.on_listing_failed(token, detail),
            ),
            (Phase::AwaitExists, CrawlEvent::Exists(exists)) => Ok(self.on_exists(token, exists)),
            (Phase::AwaitScrape { exists }, CrawlEvent::Scraped(article)) => Ok(
                self.on_scraped(exists, article),
            ),
            (Phase::AwaitScrape { .. }, CrawlEvent::ScrapeFailed(error)) => Ok(
                self.on_scrape_failed(token, error),
            ),
            (Phase::AwaitStore { inserting }, CrawlEvent::Stored) => Ok(
                self.on_stored(token, inserting),
            ),
            (Phase::AwaitFlush, CrawlEvent::Flushed) => Ok(self.on_flushed(token)),
            (Phase::AwaitFinalFlush { outcome }, CrawlEvent::Flushed) => Ok(self.finish(outcome)),
            (Phase::AwaitFinalFlush { outcome }, CrawlEvent::StoreFailed { detail }) => Ok(
                self.finish_unflushed(outcome, detail),
            ),
            (Phase::AwaitExists, CrawlEvent::StoreFailed { detail }) => Ok(self.fail(detail)),
            (Phase::AwaitStore { .. }, CrawlEvent::StoreFailed { detail }) => Ok(self.fail(detail)),
            (Phase::AwaitFlush, CrawlEvent::StoreFailed { detail }) => Ok(self.fail(detail)),
            _ => Err(UnexpectedEvent),
        }
    }
}

} // verus!
