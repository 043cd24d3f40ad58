//! Admission, cancellation and bookkeeping of runs: at most one run is alive
//! at a time.

use vstd::prelude::*;
use crate::crawl::Counters;
use crate::model::{CrawlStrategy, RunId, ScrapePlan, ScrapeRun, ScrapeStatus, ScrapeType};
use crate::source::{lowercase, Source};

verus! {

/// The most identifiers one run over a range may hold.
pub const MAX_RANGE_ITEMS: u32 = 50000;

/// The page cap of a crawl whose request names none.
pub const DEFAULT_MAX_PAGES: u32 = 100;

/// The kind of crawl that a request may ask for.
#[derive(Clone, Copy, Debug, PartialEq, Eq, Structural)]
pub enum ScrapeTypeInput {
    Full,
    Incremental,
}

impl Default for ScrapeTypeInput {
    fn default() -> (r: ScrapeTypeInput)
        ensures
            r == ScrapeTypeInput::Incremental,
    {
        ScrapeTypeInput::Incremental
    }
}

/// A request to crawl a source.
#[derive(Clone, Debug)]
pub struct StartScrapeRequest {
    pub scrape_type: ScrapeTypeInput,
    pub max_pages: Option<u32>,
    pub force_rescrape: bool,
    pub source: String,
}

/// A request to crawl a range of identifiers.
#[derive(Clone, Debug)]
pub struct StartRangeScrapeRequest {
    pub start_id: u32,
    pub end_id: u32,
    pub force_rescrape: bool,
    pub source: String,
}

/// The source of a request that names none.
pub fn default_source() -> (r: String)
    ensures
        r@ == "aibase"@,
{
    String::from_str("aibase")
}

/// Why a run was not admitted.
#[derive(Clone, Debug)]
pub enum StartError {
    /// The request names no source that is known.
    UnknownSource { name: String },
    /// The source has no numbered articles to go through.
    RangeNotSupported,
    /// The range does not start below its end.
    InvalidRange,
    /// The range holds more than `MAX_RANGE_ITEMS` identifiers.
    RangeTooLarge,
    /// Another run is alive.
    AlreadyRunning { run_id: RunId },
}

/// No run is alive.
#[derive(Clone, Copy, Debug, PartialEq, Eq, Structural)]
pub struct NoRunError;

/// Whether a run is alive, and which.
#[derive(Clone, Debug)]
pub struct ScrapeStatusResponse {
    pub running: bool,
    pub current_run: Option<ScrapeRun>,
}

/// The plan of a crawl of `source`: listing pages for AIBase, the archive for
/// smol.ai; incremental unless a full crawl is asked for.
pub open spec fn scrape_plan(
    source: Source,
    scrape_type: ScrapeTypeInput,
    max_pages: Option<u32>,
    force_rescrape: bool,
) -> ScrapePlan {
    let cap = match max_pages {
        Some(n) => n,
        None => DEFAULT_MAX_PAGES,
    };
    let incremental = scrape_type == ScrapeTypeInput::Incremental;
    ScrapePlan {
        source,
        scrape_type: if incremental {
            ScrapeType::Incremental
        } else {
            ScrapeType::Full
        },
        strategy: match source {
            Source::AIBase => CrawlStrategy::Paginated { max_pages: cap, incremental },
            Source::SmolAI => CrawlStrategy::Archive { max_count: Some(cap), incremental },
        },
        force_rescrape,
    }
}

/// Whether a crawl of `source` is admitted while `running` is the run alive.
pub open spec fn admission(
    source: Source,
    scrape_type: ScrapeTypeInput,
    max_pages: Option<u32>,
    force_rescrape: bool,
    running: Option<RunId>,
) -> Result<ScrapePlan, StartError> {
    match running {
        Some(run_id) => Err(StartError::AlreadyRunning { run_id }),
        None => Ok(scrape_plan(source, scrape_type, max_pages, force_rescrape)),
    }
}

/// Whether a crawl of the identifiers `start_id ..= end_id` of `source` is
/// admitted while `running` is the run alive. The range is judged first.
pub open spec fn range_admission(
    source: Source,
    start_id: u32,
    end_id: u32,
    force_rescrape: bool,
    running: Option<RunId>,
) -> Result<ScrapePlan, StartError> {
    if source != Source::AIBase {
        Err(StartError::RangeNotSupported)
    } else if start_id >= end_id {
        Err(StartError::InvalidRange)
    } else if end_id - start_id + 1 > MAX_RANGE_ITEMS {
        Err(StartError::RangeTooLarge)
    } else {
        match running {
            Some(run_id) => Err(StartError::AlreadyRunning { run_id }),
            None => Ok(
                ScrapePlan {
                    source,
                    scrape_type: ScrapeType::Full,
                    strategy: CrawlStrategy::IdRange { start_id, end_id },
                    force_rescrape,
                },
            ),
        }
    }
}

/// What becomes of a request to crawl a source.
pub open spec fn start_scrape_outcome(request: StartScrapeRequest, running: Option<RunId>) -> Result<
    ScrapePlan,
    StartError,
> {
    match Source::named(lowercase(request.source@)) {
        None => Err(StartError::UnknownSource { name: request.source }),
        Some(source) => admission(
            source,
            request.scrape_type,
            request.max_pages,
            request.force_rescrape,
            running,
        ),
    }
}

/// What becomes of a request to crawl a range.
pub open spec fn start_range_outcome(
    request: StartRangeScrapeRequest,
    running: Option<RunId>,
) -> Result<ScrapePlan, StartError> {
    match Source::named(lowercase(request.source@)) {
        None => Err(StartError::UnknownSource { name: request.source }),
        Some(source) => range_admission(
            source,
            request.start_id,
            request.end_id,
            request.force_rescrape,
            running,
        ),
    }
}

/// Decides on a crawl of `source`.
pub fn admit_scrape(
    source: Source,
    scrape_type: ScrapeTypeInput,
    max_pages: Option<u32>,
    force_rescrape: bool,
    running: Option<RunId>,
) -> (r: Result<ScrapePlan, StartError>)
    ensures
        r == admission(source, scrape_type, max_pages, force_rescrape, running),
{
    match running {
        Some(run_id) => Err(StartError::AlreadyRunning { run_id }),
        None => {
            let cap = match max_pages {
                Some(n) => n,
                None => DEFAULT_MAX_PAGES,
            };
            let incremental = match scrape_type {
                ScrapeTypeInput::Incremental => true,
                ScrapeTypeInput::Full => false,
            };
            Ok(
                ScrapePlan {
                    source,
                    scrape_type: if incremental {
                        ScrapeType::Incremental
                    } else {
                        ScrapeType::Full
                    },
                    strategy: match source {
                        Source::AIBase => CrawlStrategy::Paginated { max_pages: cap, incremental },
                        Source::SmolAI => CrawlStrategy::Archive {
                            max_count: Some(cap),
                            incremental,
                        },
                    },
                    force_rescrape,
                },
            )
        },
    }
}

/// Decides on a crawl of the identifiers `start_id ..= end_id` of `source`.
pub fn admit_range(
    source: Source,
    start_id: u32,
    end_id: u32,
    force_rescrape: bool,
    running: Option<RunId>,
) -> (r: Result<ScrapePlan, StartError>)
    ensures
        r == range_admission(source, start_id, end_id, force_rescrape, running),
{
    match source {
        Source::AIBase => {},
        _ => {
            return Err(StartError::RangeNotSupported);
        },
    }
    if start_id >= end_id {
        return Err(StartError::InvalidRange);
    }
    if end_id - start_id >= MAX_RANGE_ITEMS {
        return Err(StartError::RangeTooLarge);
    }
    match running {
        Some(run_id) => Err(StartError::AlreadyRunning { run_id }),
        None => Ok(
            ScrapePlan {
                source,
                scrape_type: ScrapeType::Full,
                strategy: CrawlStrategy::IdRange { start_id, end_id },
                force_rescrape,
            },
        ),
    }
}

/// Decides on a request to crawl a source, given the run that is alive.
pub fn start_scrape(request: &StartScrapeRequest, running: Option<RunId>) -> (r: Result<
    ScrapePlan,
    StartError,
>)
    ensures
        r == start_scrape_outcome(*request, running),
{
    match Source::from_str(request.source.as_str()) {
        None => Err(StartError::UnknownSource { name: request.source.clone() }),
        Some(source) => admit_scrape(
            source,
            request.scrape_type,
            request.max_pages,
            request.force_rescrape,
            running,
        ),
    }
}

/// Decides on a request to crawl a range, given the run that is alive.
pub fn start_range_scrape(request: &StartRangeScrapeRequest, running: Option<RunId>) -> (r: Result<
    ScrapePlan,
    StartError,
>)
    ensures
        r == start_range_outcome(*request, running),
{
    match Source::from_str(request.source.as_str()) {
        None => Err(StartError::UnknownSource { name: request.source.clone() }),
        Some(source) => admit_range(
            source,
            request.start_id,
            request.end_id,
            request.force_rescrape,
            running,
        ),
    }
}

/// Decides on a request to stop: the run to cancel, if one is alive.
pub fn stop_scrape(running: Option<RunId>) -> (r: Result<RunId, NoRunError>)
    ensures
        r == match running {
            Some(run_id) => Ok::<RunId, NoRunError>(run_id),
            None => Err::<RunId, NoRunError>(NoRunError),
        },
{
    match running {
        Some(run_id) => Ok(run_id),
        None => Err(NoRunError),
    }
}

/// Says whether a run is alive, given the run that the store reports.
pub fn get_status(run: Option<ScrapeRun>) -> (r: ScrapeStatusResponse)
    ensures
        r.running == run is Some,
        r.current_run == run,
{
    ScrapeStatusResponse { running: run.is_some(), current_run: run }
}

/// The runs on record, oldest first, and the cancellation token.
pub struct CoordinatorState {
    pub runs: Seq<ScrapeRun>,
    /// The run that was asked to stop, if any was since the last admission.
    pub cancel: Option<RunId>,
}

/// The record of a run that has just been admitted.
pub open spec fn new_run(run_id: RunId, plan: ScrapePlan, now: i64) -> ScrapeRun {
    ScrapeRun {
        id: run_id,
        scrape_type: plan.scrape_type,
        status: ScrapeStatus::Running,
        total_pages: None,
        pages_scraped: 0,
        articles_found: 0,
        articles_new: 0,
        articles_failed: 0,
        started_at: now,
        completed_at: None,
        last_error: None,
        config: plan,
    }
}

/// `run` with its counters as of a flush.
pub open spec fn with_progress(run: ScrapeRun, counters: Counters) -> ScrapeRun {
    ScrapeRun {
        pages_scraped: counters.processed,
        articles_found: counters.found,
        articles_new: counters.new,
        articles_failed: counters.failed,
        ..run
    }
}

/// `run` ended in `status` at `now`. An `error` replaces the one on record.
pub open spec fn with_status(
    run: ScrapeRun,
    status: ScrapeStatus,
    error: Option<String>,
    now: i64,
) -> ScrapeRun {
    ScrapeRun {
        status,
        completed_at: Some(now),
        last_error: if error is Some {
            error
        } else {
            run.last_error
        },
        ..run
    }
}

impl CoordinatorState {
    pub open spec fn empty() -> CoordinatorState {
        CoordinatorState { runs: Seq::empty(), cancel: None }
    }

    /// No run but the latest is alive.
    pub open spec fn wf(self) -> bool {
        forall|i: int| 0 <= i < self.runs.len() - 1 ==> (#[trigger] self.runs[i]).status
            != ScrapeStatus::Running
    }

    /// At most one run is alive.
    pub open spec fn single_flight(self) -> bool {
        forall|i: int, j: int|
            0 <= i < self.runs.len() && 0 <= j < self.runs.len() && (#[trigger] self.runs[i]).status
                == ScrapeStatus::Running && (#[trigger] self.runs[j]).status
                == ScrapeStatus::Running ==> i == j
    }

    /// The run that is alive, if one is.
    pub open spec fn running(self) -> Option<ScrapeRun> {
        if self.runs.len() > 0 && self.runs.last().status == ScrapeStatus::Running {
            Some(self.runs.last())
        } else {
            None
        }
    }

    /// The id of the run that is alive, if one is.
    pub open spec fn running_id(self) -> Option<RunId> {
        match self.running() {
            Some(run) => Some(run.id),
            None => None,
        }
    }

    /// Some run on record has this id.
    pub open spec fn knows(self, run_id: RunId) -> bool {
        exists|i: int| 0 <= i < self.runs.len() && (#[trigger] self.runs[i]).id == run_id
    }

    /// A run was admitted: it is on record as alive, and the token is clear.
    pub open spec fn admitted(self, run_id: RunId, plan: ScrapePlan, now: i64) -> CoordinatorState {
        CoordinatorState { runs: self.runs.push(new_run(run_id, plan, now)), cancel: None }
    }

    /// What a request to crawl a source leaves behind, and what it is told.
    pub open spec fn admit_request(self, run_id: RunId, request: StartScrapeRequest, now: i64) -> (
        CoordinatorState,
        Result<ScrapePlan, StartError>,
    ) {
        match start_scrape_outcome(request, self.running_id()) {
            Ok(plan) => (self.admitted(run_id, plan, now), Ok(plan)),
            Err(e) => (self, Err(e)),
        }
    }

    /// What a request to crawl a range leaves behind, and what it is told.
    pub open spec fn admit_range_request(
        self,
        run_id: RunId,
        request: StartRangeScrapeRequest,
        now: i64,
    ) -> (CoordinatorState, Result<ScrapePlan, StartError>) {
        match start_range_outcome(request, self.running_id()) {
            Ok(plan) => (self.admitted(run_id, plan, now), Ok(plan)),
            Err(e) => (self, Err(e)),
        }
    }

    /// What a request to stop leaves behind, and what it is told: the run
    /// alive is marked `Cancelled` at once and named by the token.
    pub open spec fn cancel_current(self, now: i64) -> (CoordinatorState, Result<RunId, NoRunError>) {
        match self.running() {
            Some(run) => (
                CoordinatorState {
                    runs: self.runs.update(
                        self.runs.len() - 1,
                        with_status(run, ScrapeStatus::Cancelled, None, now),
                    ),
                    cancel: Some(run.id),
                },
                Ok(run.id),
            ),
            None => (self, Err(NoRunError)),
        }
    }

    /// The counters of every run with this id are as of the flush.
    pub open spec fn progressed(self, run_id: RunId, counters: Counters) -> CoordinatorState {
        CoordinatorState {
            runs: Seq::new(
                self.runs.len(),
                |i: int|
                    if self.runs[i].id == run_id {
                        with_progress(self.runs[i], counters)
                    } else {
                        self.runs[i]
                    },
            ),
            ..self
        }
    }

    /// Every run with this id has ended in `status`. `Running` is no end:
    /// nothing changes then.
    pub open spec fn completed(
        self,
        run_id: RunId,
        status: ScrapeStatus,
        error: Option<String>,
        now: i64,
    ) -> CoordinatorState {
        if !status.is_terminal() {
            self
        } else {
            CoordinatorState {
                runs: Seq::new(
                    self.runs.len(),
                    |i: int|
                        if self.runs[i].id == run_id {
                            with_status(self.runs[i], status, error, now)
                        } else {
                            self.runs[i]
                        },
                ),
                ..self
            }
        }
    }
}

/// Keeps the record of runs and the cancellation token, and admits a run only
/// while none is alive.
pub struct RunCoordinator {
    runs: Vec<ScrapeRun>,
    cancel: Option<RunId>,
}

impl RunCoordinator {
    pub closed spec fn view(&self) -> CoordinatorState {
        CoordinatorState { runs: self.runs@, cancel: self.cancel }
    }

    /// The invariant of the record: no run but the latest is alive.
    pub open spec fn wf(&self) -> bool {
        self@.wf()
    }

    /// A coordinator with no run on record.
    pub fn new() -> (r: RunCoordinator)
        ensures
            r.wf(),
            r@ == CoordinatorState::empty(),
    {
        RunCoordinator { runs: Vec::new(), cancel: None }
    }

    /// The id of the run that is alive, if one is.
    pub fn running_id(&self) -> (r: Option<RunId>)
        ensures
            r == self@.running_id(),
    {
        let n = self.runs.len();
        if n > 0 {
            match self.runs[n - 1].status {
                ScrapeStatus::Running => Some(self.runs[n - 1].id),
                _ => None,
            }
        } else {
            None
        }
    }

    /// The run that is alive, if one is.
    pub fn current_run_status(&self) -> (r: Option<ScrapeRun>)
        ensures
            r == self@.running(),
    {
        let n = self.runs.len();
        if n > 0 {
            match self.runs[n - 1].status {
                ScrapeStatus::Running => Some(self.runs[n - 1].duplicate()),
                _ => None,
            }
        } else {
            None
        }
    }

    /// Whether a run is alive, and which.
    pub fn get_status(&self) -> (r: ScrapeStatusResponse)
        ensures
            r.running == self@.running() is Some,
            r.current_run == self@.running(),
    {
        get_status(self.current_run_status())
    }

    /// The run that was asked to stop, if any was since the last admission.
    pub fn cancel_token(&self) -> (r: Option<RunId>)
        ensures
            r == self@.cancel,
    {
        self.cancel
    }

    /// How many runs are on record.
    pub fn run_count(&self) -> (r: usize)
        ensures
            r == self@.runs.len(),
    {
        self.runs.len()
    }

    /// The run on record at `index`, oldest first.
    pub fn run_at(&self, index: usize) -> (r: Option<ScrapeRun>)
        ensures
            r == if index < self@.runs.len() {
                Some(self@.runs[index as int])
            } else {
                None
            },
    {
        if index < self.runs.len() {
            Some(self.runs[index].duplicate())
        } else {
            None
        }
    }

    fn register(&mut self, run_id: RunId, plan: ScrapePlan, now: i64)
        requires
            old(self).wf(),
            old(self)@.running() is None,
        ensures
            final(self).wf(),
            final(self)@ == old(self)@.admitted(run_id, plan, now),
    {
        self.runs.push(
            ScrapeRun {
                id: run_id,
                scrape_type: plan.scrape_type,
                status: ScrapeStatus::Running,
                total_pages: None,
                pages_scraped: 0,
                articles_found: 0,
                articles_new: 0,
                articles_failed: 0,
                started_at: now,
                completed_at: None,
                last_error: None,
                config: plan,
            },
        );
        self.cancel = None;
    }

    /// Admits a crawl of a source under `run_id`, unless the request is
    /// refused or a run is alive. A refusal changes nothing.
    pub fn admit_run(&mut self, run_id: RunId, request: &StartScrapeRequest, now: i64) -> (r: Result<
        ScrapePlan,
        StartError,
    >)
        requires
            old(self).wf(),
        ensures
            final(self).wf(),
            (final(self)@, r) == old(self)@.admit_request(run_id, *request, now),
    {
        match start_scrape(request, self.running_id()) {
            Ok(plan) => {
                self.register(run_id, plan, now);
                Ok(plan)
            },
            Err(e) => Err(e),
        }
    }

    /// Admits a crawl of a range under `run_id`, unless the request is refused
    /// or a run is alive. A refusal changes nothing.
    pub fn admit_range_run(
        &mut self,
        run_id: RunId,
        request: &StartRangeScrapeRequest,
        now: i64,
    ) -> (r: Result<ScrapePlan, StartError>)
        requires
            old(self).wf(),
        ensures
            final(self).wf(),
            (final(self)@, r) == old(self)@.admit_range_request(run_id, *request, now),
    {
        match start_range_scrape(request, self.running_id()) {
            Ok(plan) => {
                self.register(run_id, plan, now);
                Ok(plan)
            },
            Err(e) => Err(e),
        }
    }

    /// Asks the run alive to stop: marks it `Cancelled` at once and sets the
    /// token to its id. Without a run alive nothing changes.
    pub fn cancel_current_run(&mut self, now: i64) -> (r: Result<RunId, NoRunError>)
        requires
            old(self).wf(),
        ensures
            final(self).wf(),
            (final(self)@, r) == old(self)@.cancel_current(now),
    {
        match self.running_id() {
            Some(run_id) => {
                let last = self.runs.len() - 1;
                let mut run = self.runs[last].duplicate();
                run.status = ScrapeStatus::Cancelled;
                run.completed_at = Some(now);
                self.runs.set(last, run);
                self.cancel = Some(run_id);
                Ok(run_id)
            },
            None => Err(NoRunError),
        }
    }

    /// Writes a flush of counters to every run with this id. Says whether
    /// there was one.
    pub fn update_run_progress(&mut self, run_id: RunId, counters: Counters) -> (r: bool)
        requires
            old(self).wf(),
        ensures
            final(self).wf(),
            final(self)@ == old(self)@.progressed(run_id, counters),
            r == old(self)@.knows(run_id),
    {
        let mut found = false;
        let mut i: usize = 0;
        while i < self.runs.len()
            invariant
                i <= self.runs.len(),
                self.runs.len() == old(self).runs.len(),
                self.cancel == old(self).cancel,
                forall|k: int|
                    0 <= k < i ==> self.runs[k] == old(self)@.progressed(run_id, counters).runs[k],
                forall|k: int| i <= k < self.runs.len() ==> self.runs[k] == old(self).runs[k],
                found == exists|k: int| 0 <= k < i && (#[trigger] old(self).runs[k]).id == run_id,
            decreases self.runs.len() - i,
        {
            if self.runs[i].id.0 == run_id.0 {
                let mut run = self.runs[i].duplicate();
                run.pages_scraped = counters.processed;
                run.articles_found = counters.found;
                run.articles_new = counters.new;
                run.articles_failed = counters.failed;
                self.runs.set(i, run);
                found = true;
            }
            i = i + 1;
        }
        assert(self@.runs =~= old(self)@.progressed(run_id, counters).runs);
        found
    }

    /// Ends every run with this id in `status`. `Running` is no end: it is
    /// refused and nothing changes. Says whether a run was ended.
    pub fn complete_run(
        &mut self,
        run_id: RunId,
        status: ScrapeStatus,
        error: Option<String>,
        now: i64,
    ) -> (r: bool)
        requires
            old(self).wf(),
        ensures
            final(self).wf(),
            final(self)@ == old(self)@.completed(run_id, status, error, now),
            r == (status != ScrapeStatus::Running && old(self)@.knows(run_id)),
    {
        match status {
            ScrapeStatus::Running => {
                return false;
            },
            _ => {},
        }
        let mut found = false;
        let mut i: usize = 0;
        while i < self.runs.len()
            invariant
                status != ScrapeStatus::Running,
                i <= self.runs.len(),
                self.runs.len() == old(self).runs.len(),
                self.cancel == old(self).cancel,
                forall|k: int|
                    0 <= k < i ==> self.runs[k] == old(self)@.completed(
                        run_id,
                        status,
                        error,
                        now,
                    ).runs[k],
                forall|k: int| i <= k < self.runs.len() ==> self.runs[k] == old(self).runs[k],
                found == exists|k: int| 0 <= k < i && (#[trigger] old(self).runs[k]).id == run_id,
            decreases self.runs.len() - i,
        {
            if self.runs[i].id.0 == run_id.0 {
                let mut run = self.runs[i].duplicate();
                run.status = status;
                run.completed_at = Some(now);
                match &error {
                    Some(detail) => {
                        run.last_error = Some(detail.clone());
                    },
                    None => {},
                }
                self.runs.set(i, run);
                found = true;
            }
            i = i + 1;
        }
        assert(self@.runs =~= old(self)@.completed(run_id, status, error, now).runs);
        found
    }
}

impl StartError {
    /// The HTTP status that answers a refused request: 409 while a run is
    /// alive, 400 otherwise.
    pub fn status_code(&self) -> (r: u16)
        ensures
            r == if *self is AlreadyRunning {
                409u16
            } else {
                400u16
            },
    {
        match self {
            StartError::AlreadyRunning { .. } => 409,
            _ => 400,
        }
    }
}

/// The words of a refusal, but for the run's id that follows them while a run
/// is alive.
pub open spec fn refusal_text(error: StartError) -> Seq<char> {
    match error {
        StartError::UnknownSource { name } => "Unknown source: "@ + name@,
        StartError::RangeNotSupported => "Range scraping is only supported for AIBase"@,
        StartError::InvalidRange => "start_id must be less than end_id"@,
        StartError::RangeTooLarge => "Range too large. Maximum 50,000 articles per run."@,
        StartError::AlreadyRunning { .. } => "Scrape already running: "@,
    }
}

impl StartError {
    /// Writes the words of the refusal. While a run is alive, the caller
    /// adds the run's id in its own form.
    pub fn message(&self) -> (r: String)
        ensures
            r@ == refusal_text(*self),
    {
        match self {
            StartError::UnknownSource { name } => crate::text::concat2(
                "Unknown source: ",
                name.as_str(),
            ),
            StartError::RangeNotSupported => String::from_str(
                "Range scraping is only supported for AIBase",
            ),
            StartError::InvalidRange => String::from_str("start_id must be less than end_id"),
            StartError::RangeTooLarge => String::from_str(
                "Range too large. Maximum 50,000 articles per run.",
            ),
            StartError::AlreadyRunning { .. } => String::from_str("Scrape already running: "),
        }
    }
}

/// What a client is told when its run was admitted.
pub open spec fn welcome_text(plan: ScrapePlan) -> Seq<char> {
    match plan.strategy {
        CrawlStrategy::IdRange { start_id, end_id } => "AIBase range scrape started: "@
            + crate::text::decimal_digits(start_id as nat) + " to "@ + crate::text::decimal_digits(
            end_id as nat,
        ) + " ("@ + crate::text::decimal_digits(crate::crawl::range_len(start_id, end_id))
            + " articles)"@,
        _ => plan.source.spec_display_name() + " scrape started"@,
    }
}

/// What a client is told when its run was admitted.
#[derive(Clone, Debug)]
pub struct ScrapeStartResponse {
    pub run_id: RunId,
    pub message: String,
}

/// The answer to a request whose run was admitted as `run_id`.
pub fn start_response(run_id: RunId, plan: &ScrapePlan) -> (r: ScrapeStartResponse)
    ensures
        r.run_id == run_id,
        r.message@ == welcome_text(*plan),
{
    ScrapeStartResponse { run_id, message: start_message(plan) }
}

/// Writes what a client is told when its run was admitted.
pub fn start_message(plan: &ScrapePlan) -> (r: String)
    ensures
        r@ == welcome_text(*plan),
{
    match plan.strategy {
        CrawlStrategy::IdRange { start_id, end_id } => {
            let count: u64 = if start_id <= end_id {
                (end_id - start_id) as u64 + 1
            } else {
                0
            };
            let from = crate::text::format_decimal(start_id as u64);
            let to = crate::text::format_decimal(end_id as u64);
            let many = crate::text::format_decimal(count);
            let mut out = crate::text::concat3(
                "AIBase range scrape started: ",
                from.as_str(),
                " to ",
            );
            out.append(to.as_str());
            out.append(" (");
            out.append(many.as_str());
            out.append(" articles)");
            out
        },
        _ => crate::text::concat2(plan.source.display_name(), " scrape started"),
    }
}

} // verus!
