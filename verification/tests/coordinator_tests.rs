use aibase_scraper::coordinator::{
    admit_range, admit_scrape, default_source, get_status, start_message, start_range_scrape,
    start_response, start_scrape,
    stop_scrape, NoRunError, RunCoordinator, ScrapeTypeInput, StartError, StartRangeScrapeRequest,
    StartScrapeRequest, DEFAULT_MAX_PAGES, MAX_RANGE_ITEMS,
};
use aibase_scraper::crawl::Counters;
use aibase_scraper::model::{CrawlStrategy, RunId, ScrapePlan, ScrapeStatus, ScrapeType};
use aibase_scraper::source::Source;

fn request(source: &str) -> StartScrapeRequest {
    StartScrapeRequest {
        scrape_type: ScrapeTypeInput::default(),
        max_pages: None,
        force_rescrape: false,
        source: source.to_string(),
    }
}

fn range_request(start_id: u32, end_id: u32) -> StartRangeScrapeRequest {
    StartRangeScrapeRequest { start_id, end_id, force_rescrape: false, source: default_source() }
}

fn is_already_running(r: &Result<ScrapePlan, StartError>, id: RunId) -> bool {
    matches!(r, Err(StartError::AlreadyRunning { run_id }) if *run_id == id)
}

#[test]
fn defaults_of_a_request() {
    assert_eq!(default_source(), "aibase");
    assert_eq!(ScrapeTypeInput::default(), ScrapeTypeInput::Incremental);
    assert_eq!(DEFAULT_MAX_PAGES, 100);
    assert_eq!(MAX_RANGE_ITEMS, 50000);
}

#[test]
fn aibase_is_crawled_by_listing_pages() {
    let plan = start_scrape(&request("AIBase"), None).unwrap();
    assert_eq!(
        plan,
        ScrapePlan {
            source: Source::AIBase,
            scrape_type: ScrapeType::Incremental,
            strategy: CrawlStrategy::Paginated { max_pages: 100, incremental: true },
            force_rescrape: false,
        }
    );
}

#[test]
fn smolai_is_crawled_by_its_archive() {
    let mut r = request("smol.ai");
    r.scrape_type = ScrapeTypeInput::Full;
    r.max_pages = Some(7);
    r.force_rescrape = true;
    let plan = start_scrape(&r, None).unwrap();
    assert_eq!(
        plan,
        ScrapePlan {
            source: Source::SmolAI,
            scrape_type: ScrapeType::Full,
            strategy: CrawlStrategy::Archive { max_count: Some(7), incremental: false },
            force_rescrape: true,
        }
    );
    assert_eq!(
        admit_scrape(Source::SmolAI, ScrapeTypeInput::Full, Some(7), true, None).unwrap(),
        plan
    );
}

#[test]
fn unknown_source_is_refused() {
    match start_scrape(&request("reddit"), None) {
        Err(StartError::UnknownSource { name }) => assert_eq!(name, "reddit"),
        other => panic!("unexpected {:?}", other),
    }
    match start_range_scrape(
        &StartRangeScrapeRequest {
            start_id: 1,
            end_id: 2,
            force_rescrape: false,
            source: "".to_string(),
        },
        Some(RunId(1)),
    ) {
        Err(StartError::UnknownSource { name }) => assert_eq!(name, ""),
        other => panic!("unexpected {:?}", other),
    }
}

#[test]
fn second_request_is_refused_while_a_run_is_alive() {
    let r = start_scrape(&request("aibase"), Some(RunId(42)));
    assert!(is_already_running(&r, RunId(42)));
    let r = start_range_scrape(&range_request(1, 10), Some(RunId(42)));
    assert!(is_already_running(&r, RunId(42)));
}

#[test]
fn range_of_fifty_thousand_is_admitted() {
    let plan = start_range_scrape(&range_request(1, 50000), None).unwrap();
    assert_eq!(
        plan,
        ScrapePlan {
            source: Source::AIBase,
            scrape_type: ScrapeType::Full,
            strategy: CrawlStrategy::IdRange { start_id: 1, end_id: 50000 },
            force_rescrape: false,
        }
    );
    assert!(admit_range(Source::AIBase, 100, 101, true, None).is_ok());
}

#[test]
fn range_above_fifty_thousand_is_refused() {
    assert!(matches!(
        start_range_scrape(&range_request(1, 50001), None),
        Err(StartError::RangeTooLarge)
    ));
    assert!(matches!(
        start_range_scrape(&range_request(0, u32::MAX), None),
        Err(StartError::RangeTooLarge)
    ));
    // The range is judged before the run that is alive.
    assert!(matches!(
        start_range_scrape(&range_request(1, 50001), Some(RunId(3))),
        Err(StartError::RangeTooLarge)
    ));
}

#[test]
fn range_must_start_below_its_end() {
    assert!(matches!(
        start_range_scrape(&range_request(5, 5), None),
        Err(StartError::InvalidRange)
    ));
    assert!(matches!(
        start_range_scrape(&range_request(6, 5), None),
        Err(StartError::InvalidRange)
    ));
}

#[test]
fn range_is_for_aibase_only() {
    let r = StartRangeScrapeRequest {
        start_id: 9,
        end_id: 1,
        force_rescrape: false,
        source: "smol".to_string(),
    };
    assert!(matches!(start_range_scrape(&r, None), Err(StartError::RangeNotSupported)));
    assert!(matches!(
        admit_range(Source::SmolAI, 1, 2, false, None),
        Err(StartError::RangeNotSupported)
    ));
}

#[test]
fn stop_names_the_run_alive() {
    assert_eq!(stop_scrape(Some(RunId(5))), Ok(RunId(5)));
    assert_eq!(stop_scrape(None), Err(NoRunError));
}

#[test]
fn status_without_a_run() {
    let s = get_status(None);
    assert!(!s.running);
    assert!(s.current_run.is_none());
}

#[test]
fn coordinator_admits_one_run_at_a_time() {
    let mut c = RunCoordinator::new();
    assert_eq!(c.running_id(), None);
    assert!(c.admit_run(RunId(1), &request("aibase"), 1000).is_ok());
    assert_eq!(c.running_id(), Some(RunId(1)));
    let second = c.admit_run(RunId(2), &request("smolai"), 1001);
    assert!(is_already_running(&second, RunId(1)));
    let third = c.admit_range_run(RunId(3), &range_request(1, 10), 1002);
    assert!(is_already_running(&third, RunId(1)));
    assert_eq!(c.run_count(), 1);
    assert_eq!(c.running_id(), Some(RunId(1)));

    assert!(c.complete_run(RunId(1), ScrapeStatus::Completed, None, 2000));
    assert_eq!(c.running_id(), None);
    assert!(c.admit_range_run(RunId(4), &range_request(1, 10), 2001).is_ok());
    assert_eq!(c.running_id(), Some(RunId(4)));
    assert_eq!(c.run_count(), 2);
    let mut alive = 0;
    for i in 0..c.run_count() {
        if c.run_at(i).unwrap().status == ScrapeStatus::Running {
            alive += 1;
        }
    }
    assert_eq!(alive, 1);
    assert!(c.run_at(2).is_none());
}

#[test]
fn refused_range_creates_no_run() {
    let mut c = RunCoordinator::new();
    assert!(matches!(
        c.admit_range_run(RunId(1), &range_request(1, 50001), 5),
        Err(StartError::RangeTooLarge)
    ));
    assert_eq!(c.run_count(), 0);
    assert_eq!(c.running_id(), None);
    assert!(matches!(
        c.admit_run(RunId(1), &request("nowhere"), 5),
        Err(StartError::UnknownSource { .. })
    ));
    assert_eq!(c.run_count(), 0);
}

#[test]
fn admitted_run_is_on_record_as_running() {
    let mut c = RunCoordinator::new();
    let plan = c.admit_run(RunId(9), &request("aibase"), 1234).unwrap();
    let run = c.current_run_status().unwrap();
    assert_eq!(run.id, RunId(9));
    assert_eq!(run.status, ScrapeStatus::Running);
    assert_eq!(run.scrape_type, ScrapeType::Incremental);
    assert_eq!(run.started_at, 1234);
    assert_eq!(run.completed_at, None);
    assert_eq!(run.last_error, None);
    assert_eq!(run.config, plan);
    assert_eq!(
        (run.pages_scraped, run.articles_found, run.articles_new, run.articles_failed),
        (0, 0, 0, 0)
    );
    let status = c.get_status();
    assert!(status.running);
    assert_eq!(status.current_run.unwrap().id, RunId(9));
}

#[test]
fn cancellation_marks_the_run_at_once() {
    let mut c = RunCoordinator::new();
    c.admit_run(RunId(1), &request("aibase"), 10).unwrap();
    assert_eq!(c.cancel_token(), None);
    assert_eq!(c.cancel_current_run(20), Ok(RunId(1)));
    assert_eq!(c.cancel_token(), Some(RunId(1)));
    let run = c.run_at(0).unwrap();
    assert_eq!(run.status, ScrapeStatus::Cancelled);
    assert_eq!(run.completed_at, Some(20));
    assert_eq!(c.running_id(), None);
    assert!(!c.get_status().running);
    // Nothing is left to cancel.
    assert_eq!(c.cancel_current_run(21), Err(NoRunError));
    assert_eq!(c.cancel_token(), Some(RunId(1)));
}

#[test]
fn admission_clears_the_token() {
    let mut c = RunCoordinator::new();
    c.admit_run(RunId(1), &request("aibase"), 10).unwrap();
    c.cancel_current_run(20).unwrap();
    assert_eq!(c.cancel_token(), Some(RunId(1)));
    // A refusal leaves the token alone.
    assert!(c.admit_run(RunId(2), &request("?"), 30).is_err());
    assert_eq!(c.cancel_token(), Some(RunId(1)));
    c.admit_run(RunId(2), &request("aibase"), 30).unwrap();
    assert_eq!(c.cancel_token(), None);
    assert_eq!(c.running_id(), Some(RunId(2)));
}

#[test]
fn cancel_without_a_run_changes_nothing() {
    let mut c = RunCoordinator::new();
    assert_eq!(c.cancel_current_run(1), Err(NoRunError));
    assert_eq!(c.cancel_token(), None);
    assert_eq!(c.run_count(), 0);
}

#[test]
fn progress_is_written_to_the_run() {
    let mut c = RunCoordinator::new();
    c.admit_run(RunId(1), &request("aibase"), 10).unwrap();
    let counters = Counters { processed: 3, found: 30, new: 12, failed: 2, skipped: 16 };
    assert!(c.update_run_progress(RunId(1), counters));
    assert!(!c.update_run_progress(RunId(2), counters));
    let run = c.current_run_status().unwrap();
    assert_eq!(
        (run.pages_scraped, run.articles_found, run.articles_new, run.articles_failed),
        (3, 30, 12, 2)
    );
    assert_eq!(run.status, ScrapeStatus::Running);
}

#[test]
fn completion_sets_status_time_and_error() {
    let mut c = RunCoordinator::new();
    c.admit_run(RunId(1), &request("aibase"), 10).unwrap();
    assert!(!c.complete_run(RunId(1), ScrapeStatus::Running, None, 11));
    assert_eq!(c.run_at(0).unwrap().completed_at, None);
    assert!(!c.complete_run(RunId(2), ScrapeStatus::Failed, None, 11));
    assert!(c.complete_run(RunId(1), ScrapeStatus::Failed, Some("store gone".to_string()), 12));
    let run = c.run_at(0).unwrap();
    assert_eq!(run.status, ScrapeStatus::Failed);
    assert_eq!(run.completed_at, Some(12));
    assert_eq!(run.last_error, Some("store gone".to_string()));
    assert_eq!(c.running_id(), None);
    assert_eq!(ScrapeStatus::Failed.name(), "failed");
    assert_eq!(ScrapeStatus::Running.name(), "running");
    assert_eq!(ScrapeStatus::Completed.name(), "completed");
    assert_eq!(ScrapeStatus::Cancelled.name(), "cancelled");
}

#[test]
fn refusals_are_worded_and_numbered() {
    let unknown = StartError::UnknownSource { name: "reddit".to_string() };
    assert_eq!(unknown.message(), "Unknown source: reddit");
    assert_eq!(unknown.status_code(), 400);
    assert_eq!(
        StartError::RangeNotSupported.message(),
        "Range scraping is only supported for AIBase"
    );
    assert_eq!(StartError::InvalidRange.message(), "start_id must be less than end_id");
    assert_eq!(
        StartError::RangeTooLarge.message(),
        "Range too large. Maximum 50,000 articles per run."
    );
    assert_eq!(StartError::RangeTooLarge.status_code(), 400);
    let busy = StartError::AlreadyRunning { run_id: RunId(1) };
    assert_eq!(busy.message(), "Scrape already running: ");
    assert_eq!(busy.status_code(), 409);

    let plan = start_range_scrape(&range_request(100, 2050), None).unwrap();
    assert_eq!(start_message(&plan), "AIBase range scrape started: 100 to 2050 (1951 articles)");
    let plan = start_scrape(&request("smol"), None).unwrap();
    assert_eq!(start_message(&plan), "smol.ai scrape started");
    let plan = start_scrape(&request("aibase"), None).unwrap();
    assert_eq!(start_message(&plan), "AIBase scrape started");
    let told = start_response(RunId(77), &plan);
    assert_eq!(told.run_id, RunId(77));
    assert_eq!(told.message, "AIBase scrape started");
}
