use aibase_scraper::crawl::{
    classify, Counters, Crawl, CrawlEvent, CrawlStep, Outcome, Phase, Request, ScrapeError,
    UnexpectedEvent, Verdict,
};
use aibase_scraper::fetch::FetchError;
use aibase_scraper::model::{
    Candidate, CrawlStrategy, ExternalId, NewArticle, RunId, ScrapeStatus,
};
use aibase_scraper::progress::{ProgressMessage, ProgressType, ScrapeProgress};
use aibase_scraper::source::Source;

fn article(id: &str) -> NewArticle {
    NewArticle {
        external_id: id.to_string(),
        url: format!("https://news.aibase.com/news/{}", id),
        title: format!("Article {}", id),
        content: "text".to_string(),
        excerpt: None,
        author: None,
        source: Some("AIBase".to_string()),
        published_at: None,
        view_count: None,
        read_time_minutes: Some(1),
        thumbnail_url: None,
        content_hash: "00".to_string(),
        tags: vec![],
    }
}

fn candidates(ids: &[&str]) -> Vec<Candidate> {
    let mut out = Vec::new();
    for id in ids {
        out.push(Candidate { external_id: ExternalId::Text(id.to_string()), title: None });
    }
    out
}

fn not_found() -> ScrapeError {
    ScrapeError::Fetch(FetchError::Http { status: 404 })
}

fn server_error() -> ScrapeError {
    ScrapeError::Fetch(FetchError::Http { status: 500 })
}

fn step(crawl: &mut Crawl, token: Option<RunId>, event: CrawlEvent) -> CrawlStep {
    match crawl.step(token, event) {
        Ok(s) => s,
        Err(_) => panic!("event was not expected in phase {:?}", crawl.phase()),
    }
}

fn id_text(request: &Request) -> String {
    match request {
        Request::CheckExists { external_id } => external_id.to_text(),
        Request::Scrape { external_id } => external_id.to_text(),
        Request::Update { external_id, .. } => external_id.to_text(),
        other => panic!("no identifier in {:?}", other),
    }
}

/// Drives a crawl to its end against a store that holds `stored` and a source
/// on which the identifiers in `missing` answer 404 and those in `broken` 500.
/// Returns the requests made and the events published, in order.
fn drive(
    crawl: &mut Crawl,
    pages: &[Vec<&str>],
    stored: &[&str],
    missing: &[&str],
    broken: &[&str],
) -> (Vec<Request>, Vec<ScrapeProgress>) {
    let mut requests = Vec::new();
    let mut published = Vec::new();
    let mut next = step(crawl, None, CrawlEvent::Begin);
    let mut guard = 0;
    loop {
        guard += 1;
        assert!(guard < 100_000);
        if let Some(p) = next.publish.clone() {
            published.push(p);
        }
        requests.push(next.request.clone());
        let event = match &next.request {
            Request::FetchListing { page } => {
                let at = (*page as usize) - 1;
                if at < pages.len() {
                    CrawlEvent::Listing(candidates(&pages[at]))
                } else {
                    CrawlEvent::Listing(vec![])
                }
            }
            Request::DiscoverArchive { .. } => CrawlEvent::Listing(candidates(&pages[0])),
            Request::CheckExists { .. } => {
                let id = id_text(&next.request);
                CrawlEvent::Exists(stored.contains(&id.as_str()))
            }
            Request::Scrape { .. } => {
                let id = id_text(&next.request);
                if missing.contains(&id.as_str()) {
                    CrawlEvent::ScrapeFailed(not_found())
                } else if broken.contains(&id.as_str()) {
                    CrawlEvent::ScrapeFailed(server_error())
                } else {
                    CrawlEvent::Scraped(article(&id))
                }
            }
            Request::Insert { .. } | Request::Update { .. } => CrawlEvent::Stored,
            Request::Flush { .. } => CrawlEvent::Flushed,
            Request::Finish { .. } => break,
        };
        next = step(crawl, None, event);
    }
    (requests, published)
}

fn checked_ids(requests: &[Request]) -> Vec<String> {
    requests
        .iter()
        .filter(|r| matches!(r, Request::CheckExists { .. }))
        .map(id_text)
        .collect()
}

fn pages_asked(requests: &[Request]) -> Vec<u32> {
    let mut out = Vec::new();
    for r in requests {
        if let Request::FetchListing { page } = r {
            out.push(*page);
        }
    }
    out
}

fn flushes(requests: &[Request]) -> Vec<Counters> {
    let mut out = Vec::new();
    for r in requests {
        if let Request::Flush { counters } = r {
            out.push(*counters);
        }
    }
    out
}

fn range(start_id: u32, end_id: u32, force: bool) -> Crawl {
    Crawl::new(RunId(7), Source::AIBase, CrawlStrategy::IdRange { start_id, end_id }, force)
}

fn paginated(max_pages: u32, incremental: bool, force: bool) -> Crawl {
    Crawl::new(RunId(7), Source::AIBase, CrawlStrategy::Paginated { max_pages, incremental }, force)
}

fn archive(incremental: bool, force: bool) -> Crawl {
    Crawl::new(
        RunId(7),
        Source::SmolAI,
        CrawlStrategy::Archive { max_count: Some(100), incremental },
        force,
    )
}

#[test]
fn classify_skips_known_unless_forced() {
    assert_eq!(classify(true, false), Verdict::Skip);
    assert_eq!(classify(true, true), Verdict::Update);
    assert_eq!(classify(false, false), Verdict::Insert);
    assert_eq!(classify(false, true), Verdict::Insert);
}

#[test]
fn range_visits_every_id_in_ascending_order() {
    let mut crawl = range(10, 13, false);
    let (requests, published) = drive(&mut crawl, &[], &[], &[], &[]);
    assert_eq!(checked_ids(&requests), vec!["10", "11", "12", "13"]);
    assert_eq!(
        crawl.counters(),
        Counters { processed: 4, found: 4, new: 4, failed: 0, skipped: 0 }
    );
    assert_eq!(crawl.phase(), Phase::Done { outcome: Outcome::Completed });
    assert!(crawl.is_done());
    match requests.last() {
        Some(Request::Finish { status, error }) => {
            assert_eq!(*status, Some(ScrapeStatus::Completed));
            assert_eq!(*error, None);
        }
        other => panic!("unexpected last request {:?}", other),
    }
    assert_eq!(published[0].progress_type, ProgressType::Started);
    assert_eq!(published[0].total_pages, Some(4));
    assert_eq!(
        published[0].message,
        Some(ProgressMessage::StartingRange { start_id: 10, end_id: 13 })
    );
    let last = published.last().unwrap();
    assert_eq!(last.progress_type, ProgressType::Completed);
    assert_eq!(last.pages_scraped, 4);
    assert_eq!(last.articles_new, 4);
}

#[test]
fn range_does_not_stop_on_known_articles() {
    let mut crawl = range(1, 5, false);
    let (requests, _) = drive(&mut crawl, &[], &["1", "2", "3"], &[], &[]);
    assert_eq!(checked_ids(&requests), vec!["1", "2", "3", "4", "5"]);
    assert_eq!(
        crawl.counters(),
        Counters { processed: 5, found: 2, new: 2, failed: 0, skipped: 3 }
    );
    let inserted = requests.iter().filter(|r| matches!(r, Request::Insert { .. })).count();
    assert_eq!(inserted, 2);
}

#[test]
fn forced_refresh_updates_known_articles() {
    let mut crawl = range(1, 2, true);
    let (requests, _) = drive(&mut crawl, &[], &["1"], &[], &[]);
    let updated: Vec<String> = requests
        .iter()
        .filter(|r| matches!(r, Request::Update { .. }))
        .map(id_text)
        .collect();
    assert_eq!(updated, vec!["1"]);
    assert_eq!(
        crawl.counters(),
        Counters { processed: 2, found: 2, new: 1, failed: 0, skipped: 0 }
    );
}

#[test]
fn not_found_counts_as_skipped_not_failed() {
    let mut crawl = range(1, 3, false);
    let (_, _) = drive(&mut crawl, &[], &[], &["2"], &[]);
    assert_eq!(
        crawl.counters(),
        Counters { processed: 3, found: 2, new: 2, failed: 0, skipped: 1 }
    );
}

#[test]
fn other_failures_count_as_failed_and_the_run_goes_on() {
    let mut crawl = range(1, 3, false);
    let (requests, _) = drive(&mut crawl, &[], &[], &[], &["1", "2"]);
    assert_eq!(checked_ids(&requests), vec!["1", "2", "3"]);
    assert_eq!(
        crawl.counters(),
        Counters { processed: 3, found: 1, new: 1, failed: 2, skipped: 0 }
    );
    assert_eq!(crawl.phase(), Phase::Done { outcome: Outcome::Completed });
}

#[test]
fn extraction_failure_counts_as_failed() {
    let mut crawl = range(1, 1, false);
    step(&mut crawl, None, CrawlEvent::Begin);
    step(&mut crawl, None, CrawlEvent::Exists(false));
    step(
        &mut crawl,
        None,
        CrawlEvent::ScrapeFailed(ScrapeError::Extraction { detail: "no markup".to_string() }),
    );
    assert_eq!(crawl.counters().failed, 1);
    assert_eq!(crawl.counters().skipped, 0);
}

#[test]
fn range_flushes_every_fifty_and_once_at_the_end() {
    let mut crawl = range(1, 120, false);
    let (requests, _) = drive(&mut crawl, &[], &[], &[], &[]);
    let processed: Vec<u32> = flushes(&requests).iter().map(|c| c.processed).collect();
    assert_eq!(processed, vec![50, 100, 120]);
}

#[test]
fn range_reports_skips_once_in_a_hundred() {
    let stored: Vec<String> = (1..=250).map(|n: u32| n.to_string()).collect();
    let stored_refs: Vec<&str> = stored.iter().map(|s| s.as_str()).collect();
    let mut crawl = range(1, 250, false);
    let (_, published) = drive(&mut crawl, &[], &stored_refs, &[], &[]);
    let notices: Vec<&ScrapeProgress> = published
        .iter()
        .filter(|p| p.progress_type == ProgressType::Progress)
        .collect();
    assert_eq!(notices.len(), 2);
    assert_eq!(notices[0].pages_scraped, 100);
    assert_eq!(notices[0].message, Some(ProgressMessage::Skipped { count: 100 }));
    assert_eq!(notices[1].pages_scraped, 200);
    assert_eq!(notices[1].message, Some(ProgressMessage::Skipped { count: 200 }));
}

#[test]
fn incremental_listing_stops_after_a_page_of_known_articles() {
    let mut crawl = paginated(10, true, false);
    let pages = vec![vec!["5", "4", "3"], vec!["2", "1"]];
    let (requests, published) = drive(&mut crawl, &pages, &["5", "4", "3"], &[], &[]);
    assert_eq!(pages_asked(&requests), vec![1]);
    assert_eq!(crawl.counters().processed, 1);
    assert_eq!(crawl.counters().found, 3);
    assert_eq!(crawl.counters().new, 0);
    assert_eq!(crawl.phase(), Phase::Done { outcome: Outcome::Completed });
    assert_eq!(published.last().unwrap().pages_scraped, 1);
    assert!(requests.iter().all(|r| !matches!(r, Request::Scrape { .. })));
}

#[test]
fn incremental_listing_goes_on_while_something_is_new() {
    let mut crawl = paginated(10, true, false);
    let pages = vec![vec!["5", "4"], vec!["3", "2"], vec!["1"]];
    let (requests, _) = drive(&mut crawl, &pages, &["4", "3", "2"], &[], &[]);
    assert_eq!(pages_asked(&requests), vec![1, 2]);
    assert_eq!(
        crawl.counters(),
        Counters { processed: 2, found: 4, new: 1, failed: 0, skipped: 0 }
    );
}

#[test]
fn forced_incremental_listing_does_not_stop_early() {
    let mut crawl = paginated(2, true, true);
    let pages = vec![vec!["5", "4"], vec!["3"]];
    let (requests, _) = drive(&mut crawl, &pages, &["5", "4", "3"], &[], &[]);
    assert_eq!(pages_asked(&requests), vec![1, 2]);
    assert_eq!(requests.iter().filter(|r| matches!(r, Request::Update { .. })).count(), 3);
}

#[test]
fn full_listing_stops_at_the_page_cap() {
    let mut crawl = paginated(2, false, false);
    let pages = vec![vec!["5"], vec!["4"], vec!["3"]];
    let (requests, _) = drive(&mut crawl, &pages, &["5", "4", "3"], &[], &[]);
    assert_eq!(pages_asked(&requests), vec![1, 2]);
    assert_eq!(crawl.counters().processed, 2);
}

#[test]
fn listing_stops_at_an_empty_page() {
    let mut crawl = paginated(10, false, false);
    let pages = vec![vec!["5"], vec![]];
    let (requests, _) = drive(&mut crawl, &pages, &[], &[], &[]);
    assert_eq!(pages_asked(&requests), vec![1, 2]);
    assert_eq!(crawl.counters().processed, 1);
    assert_eq!(crawl.counters().new, 1);
}

#[test]
fn listing_with_no_pages_allowed_completes_at_once() {
    let mut crawl = paginated(0, true, false);
    let first = step(&mut crawl, None, CrawlEvent::Begin);
    assert!(matches!(first.request, Request::Flush { .. }));
    assert_eq!(first.publish.unwrap().progress_type, ProgressType::Started);
    let last = step(&mut crawl, None, CrawlEvent::Flushed);
    assert!(matches!(
        last.request,
        Request::Finish { status: Some(ScrapeStatus::Completed), error: None }
    ));
}

#[test]
fn a_listing_page_that_fails_is_passed_over() {
    let mut crawl = paginated(3, false, false);
    let first = step(&mut crawl, None, CrawlEvent::Begin);
    assert!(matches!(first.request, Request::FetchListing { page: 1 }));
    let second =
        step(&mut crawl, None, CrawlEvent::ListingFailed { detail: "timeout".to_string() });
    assert!(matches!(second.request, Request::FetchListing { page: 2 }));
    assert_eq!(crawl.counters().processed, 0);
    assert_eq!(crawl.counters().failed, 0);
}

#[test]
fn listing_flushes_after_each_page() {
    let mut crawl = paginated(5, false, false);
    let pages = vec![vec!["3", "2"], vec!["1"]];
    let (requests, _) = drive(&mut crawl, &pages, &[], &[], &[]);
    let seen: Vec<(u32, u32)> = flushes(&requests).iter().map(|c| (c.processed, c.new)).collect();
    assert_eq!(seen, vec![(1, 2), (2, 3), (2, 3)]);
}

#[test]
fn incremental_archive_stops_at_the_first_known_article() {
    let mut crawl = archive(true, false);
    let pages = vec![vec!["c", "b", "a"]];
    let (requests, published) = drive(&mut crawl, &pages, &["b", "a"], &[], &[]);
    assert_eq!(checked_ids(&requests), vec!["c", "b"]);
    assert_eq!(
        crawl.counters(),
        Counters { processed: 2, found: 3, new: 1, failed: 0, skipped: 0 }
    );
    assert!(matches!(requests[0], Request::DiscoverArchive { max_count: Some(100) }));
    assert_eq!(published[1].progress_type, ProgressType::Progress);
    assert_eq!(published[1].message, Some(ProgressMessage::Discovered { count: 3 }));
    assert_eq!(published[1].total_pages, Some(3));
    assert_eq!(published[1].articles_found, 3);
}

#[test]
fn full_archive_passes_over_known_articles() {
    let mut crawl = archive(false, false);
    let pages = vec![vec!["c", "b", "a"]];
    let (requests, _) = drive(&mut crawl, &pages, &["b"], &[], &[]);
    assert_eq!(checked_ids(&requests), vec!["c", "b", "a"]);
    assert_eq!(crawl.counters().new, 2);
    assert_eq!(crawl.counters().processed, 3);
}

#[test]
fn archive_flushes_every_twenty() {
    let ids: Vec<String> = (0..45).map(|n: u32| format!("24-01-01-issue-{}", n)).collect();
    let refs: Vec<&str> = ids.iter().map(|s| s.as_str()).collect();
    let mut crawl = archive(false, false);
    let (requests, _) = drive(&mut crawl, &[refs], &[], &[], &[]);
    let processed: Vec<u32> = flushes(&requests).iter().map(|c| c.processed).collect();
    assert_eq!(processed, vec![20, 40, 45]);
}

#[test]
fn archive_that_cannot_be_discovered_fails_the_run() {
    let mut crawl = archive(true, false);
    step(&mut crawl, None, CrawlEvent::Begin);
    let flush = step(&mut crawl, None, CrawlEvent::ListingFailed { detail: "down".to_string() });
    assert!(matches!(flush.request, Request::Flush { .. }));
    let end = step(&mut crawl, None, CrawlEvent::Flushed);
    match end.request {
        Request::Finish { status, error } => {
            assert_eq!(status, Some(ScrapeStatus::Failed));
            assert_eq!(error, Some("down".to_string()));
        }
        other => panic!("unexpected {:?}", other),
    }
    assert_eq!(end.publish.unwrap().progress_type, ProgressType::Failed);
}

#[test]
fn store_failure_fails_the_run_after_a_last_flush() {
    let mut crawl = range(1, 9, false);
    step(&mut crawl, None, CrawlEvent::Begin);
    let flush = step(&mut crawl, None, CrawlEvent::StoreFailed { detail: "gone".to_string() });
    assert!(matches!(flush.request, Request::Flush { .. }));
    assert_eq!(crawl.phase(), Phase::AwaitFinalFlush { outcome: Outcome::Failed });
    let end = step(&mut crawl, None, CrawlEvent::StoreFailed { detail: "still".to_string() });
    match end.request {
        Request::Finish { status, error } => {
            assert_eq!(status, Some(ScrapeStatus::Failed));
            assert_eq!(error, Some("gone".to_string()));
        }
        other => panic!("unexpected {:?}", other),
    }
}

#[test]
fn failed_last_flush_fails_a_run_that_was_complete() {
    let mut crawl = range(1, 1, false);
    let (_, _) = (
        step(&mut crawl, None, CrawlEvent::Begin),
        step(&mut crawl, None, CrawlEvent::Exists(true)),
    );
    assert_eq!(crawl.phase(), Phase::AwaitFinalFlush { outcome: Outcome::Completed });
    let end = step(&mut crawl, None, CrawlEvent::StoreFailed { detail: "late".to_string() });
    assert!(matches!(end.request, Request::Finish { status: Some(ScrapeStatus::Failed), .. }));
}

#[test]
fn cancellation_is_seen_before_the_next_candidate() {
    let mut crawl = range(1, 100, false);
    let token = Some(RunId(7));
    step(&mut crawl, None, CrawlEvent::Begin);
    // The candidate in flight is dealt with to its end.
    let scrape = step(&mut crawl, token, CrawlEvent::Exists(false));
    assert!(matches!(scrape.request, Request::Scrape { .. }));
    let insert = step(&mut crawl, token, CrawlEvent::Scraped(article("1")));
    assert!(matches!(insert.request, Request::Insert { .. }));
    // The next one is not taken up.
    let flush = step(&mut crawl, token, CrawlEvent::Stored);
    assert!(flush.publish.is_none());
    assert!(matches!(flush.request, Request::Flush { .. }));
    assert_eq!(crawl.phase(), Phase::AwaitFinalFlush { outcome: Outcome::Cancelled });
    let end = step(&mut crawl, token, CrawlEvent::Flushed);
    assert!(matches!(end.request, Request::Finish { status: None, error: None }));
    let said = end.publish.unwrap();
    assert_eq!(said.progress_type, ProgressType::Cancelled);
    assert_eq!(said.articles_new, 1);
    assert_eq!(crawl.counters().processed, 1);
}

#[test]
fn cancellation_of_another_run_is_not_seen() {
    let mut crawl = range(1, 2, false);
    let first = step(&mut crawl, Some(RunId(8)), CrawlEvent::Begin);
    assert!(matches!(first.request, Request::CheckExists { .. }));
}

#[test]
fn cancellation_is_seen_before_the_next_page() {
    let mut crawl = paginated(5, false, false);
    let first = step(&mut crawl, Some(RunId(7)), CrawlEvent::Begin);
    assert!(matches!(first.request, Request::Flush { .. }));
    assert_eq!(first.publish.unwrap().progress_type, ProgressType::Started);
    let end = step(&mut crawl, Some(RunId(7)), CrawlEvent::Flushed);
    assert_eq!(end.publish.unwrap().progress_type, ProgressType::Cancelled);
}

#[test]
fn unexpected_event_changes_nothing() {
    let mut crawl = range(1, 2, false);
    assert_eq!(crawl.step(None, CrawlEvent::Flushed).err(), Some(UnexpectedEvent));
    assert_eq!(crawl.phase(), Phase::Created);
    step(&mut crawl, None, CrawlEvent::Begin);
    assert_eq!(crawl.step(None, CrawlEvent::Begin).err(), Some(UnexpectedEvent));
    assert_eq!(crawl.step(None, CrawlEvent::Stored).err(), Some(UnexpectedEvent));
    assert_eq!(crawl.phase(), Phase::AwaitExists);
    assert_eq!(crawl.counters().processed, 1);
}

#[test]
fn nothing_is_expected_after_the_end() {
    let mut crawl = range(3, 2, false);
    let (requests, _) = drive(&mut crawl, &[], &[], &[], &[]);
    assert_eq!(requests.len(), 2);
    assert!(crawl.is_done());
    assert_eq!(crawl.step(None, CrawlEvent::Flushed).err(), Some(UnexpectedEvent));
    assert_eq!(crawl.step(None, CrawlEvent::Begin).err(), Some(UnexpectedEvent));
}

#[test]
fn published_counters_never_decrease() {
    let mut crawl = paginated(3, false, false);
    let pages = vec![vec!["9", "8", "7"], vec!["6", "5"], vec!["4"]];
    let (_, published) = drive(&mut crawl, &pages, &["8"], &["7"], &["5"]);
    assert!(published.len() > 4);
    for pair in published.windows(2) {
        assert!(pair[0].pages_scraped <= pair[1].pages_scraped);
        assert!(pair[0].articles_new <= pair[1].articles_new);
        assert!(pair[0].articles_failed <= pair[1].articles_failed);
    }
    let last = published.last().unwrap();
    assert_eq!(last.pages_scraped, 3);
    assert_eq!(last.articles_found, 6);
    assert_eq!(last.articles_new, 3);
    assert_eq!(last.articles_failed, 1);
}

#[test]
fn full_range_of_u32_reports_a_capped_total() {
    let crawl = range(0, u32::MAX, false);
    assert_eq!(crawl.counters().processed, 0);
    assert_eq!(crawl.strategy(), CrawlStrategy::IdRange { start_id: 0, end_id: u32::MAX });
    assert_eq!(crawl.run_id(), RunId(7));
    assert_eq!(crawl.source(), Source::AIBase);
    let mut crawl = crawl;
    let first = step(&mut crawl, None, CrawlEvent::Begin);
    assert_eq!(first.publish.unwrap().total_pages, Some(u32::MAX));
    assert_eq!(id_text(&first.request), "0");
}

#[test]
fn archive_with_nothing_listed_completes_with_nothing_processed() {
    let mut crawl = Crawl::new(
        RunId(7),
        Source::SmolAI,
        CrawlStrategy::Archive { max_count: Some(0), incremental: true },
        false,
    );
    let (requests, published) = drive(&mut crawl, &[vec![]], &[], &[], &[]);
    assert!(matches!(requests[0], Request::DiscoverArchive { max_count: Some(0) }));
    assert!(checked_ids(&requests).is_empty());
    assert_eq!(
        crawl.counters(),
        Counters { processed: 0, found: 0, new: 0, failed: 0, skipped: 0 }
    );
    assert_eq!(published[1].message, Some(ProgressMessage::Discovered { count: 0 }));
    assert_eq!(crawl.phase(), Phase::Done { outcome: Outcome::Completed });
}
