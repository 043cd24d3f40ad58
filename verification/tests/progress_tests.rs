use aibase_scraper::model::{ExternalId, RunId, ScrapeStatus};
use aibase_scraper::progress::{
    ProgressBus, ProgressMessage, ProgressType, ScrapeProgress, SubscriberId, DEFAULT_CAPACITY,
};
use aibase_scraper::source::Source;

fn event(n: u32) -> ScrapeProgress {
    ScrapeProgress {
        run_id: RunId(1),
        progress_type: ProgressType::Progress,
        pages_scraped: n,
        total_pages: Some(10),
        articles_found: n,
        articles_new: 0,
        articles_failed: 0,
        current_article: Some(ExternalId::Number(n)),
        message: None,
    }
}

fn received(bus: &mut ProgressBus, id: SubscriberId) -> Vec<u32> {
    let mut out = Vec::new();
    while let Some(e) = bus.receive(id) {
        out.push(e.pages_scraped);
    }
    out
}

#[test]
fn events_arrive_in_publish_order() {
    let mut bus = ProgressBus::new(DEFAULT_CAPACITY);
    let a = bus.subscribe().unwrap();
    for n in 1..=5 {
        assert_eq!(bus.publish(&event(n)), 1);
    }
    assert_eq!(bus.pending_count(a), Some(5));
    assert_eq!(received(&mut bus, a), vec![1, 2, 3, 4, 5]);
    assert_eq!(bus.pending_count(a), Some(0));
    assert!(bus.receive(a).is_none());
}

#[test]
fn nothing_published_before_subscribing_is_replayed() {
    let mut bus = ProgressBus::new(10);
    assert_eq!(bus.publish(&event(1)), 0);
    let a = bus.subscribe().unwrap();
    assert_eq!(bus.publish(&event(2)), 1);
    let b = bus.subscribe().unwrap();
    assert_eq!(bus.publish(&event(3)), 2);
    assert_ne!(a, b);
    assert_eq!(bus.subscriber_count(), 2);
    assert_eq!(received(&mut bus, a), vec![2, 3]);
    assert_eq!(received(&mut bus, b), vec![3]);
}

#[test]
fn event_is_lost_on_a_subscriber_without_room() {
    let mut bus = ProgressBus::new(2);
    let slow = bus.subscribe().unwrap();
    let fast = bus.subscribe().unwrap();
    assert_eq!(bus.publish(&event(1)), 2);
    assert_eq!(bus.receive(fast).unwrap().pages_scraped, 1);
    assert_eq!(bus.publish(&event(2)), 2);
    assert_eq!(bus.receive(fast).unwrap().pages_scraped, 2);
    // `slow` is full now: the next event reaches `fast` only.
    assert_eq!(bus.publish(&event(3)), 1);
    assert_eq!(bus.publish(&event(4)), 1);
    assert_eq!(received(&mut bus, fast), vec![3, 4]);
    assert_eq!(received(&mut bus, slow), vec![1, 2]);
    // With room again, it gets what is published from now on.
    assert_eq!(bus.publish(&event(5)), 2);
    assert_eq!(received(&mut bus, slow), vec![5]);
}

#[test]
fn bus_without_capacity_delivers_nothing() {
    let mut bus = ProgressBus::new(0);
    let a = bus.subscribe().unwrap();
    assert_eq!(bus.publish(&event(1)), 0);
    assert!(bus.receive(a).is_none());
}

#[test]
fn leaving_subscriber_gets_nothing_more() {
    let mut bus = ProgressBus::new(4);
    let a = bus.subscribe().unwrap();
    let b = bus.subscribe().unwrap();
    bus.publish(&event(1));
    assert!(bus.unsubscribe(a));
    assert!(!bus.unsubscribe(a));
    assert_eq!(bus.subscriber_count(), 1);
    assert_eq!(bus.publish(&event(2)), 1);
    assert!(bus.receive(a).is_none());
    assert_eq!(bus.pending_count(a), None);
    assert_eq!(received(&mut bus, b), vec![1, 2]);
}

#[test]
fn names_are_not_handed_out_twice() {
    let mut bus = ProgressBus::new(1);
    let a = bus.subscribe().unwrap();
    assert!(bus.unsubscribe(a));
    let b = bus.subscribe().unwrap();
    assert_ne!(a, b);
    assert_eq!(a, SubscriberId(0));
    assert_eq!(b, SubscriberId(1));
}

#[test]
fn received_event_is_the_published_one() {
    let mut bus = ProgressBus::new(1);
    let a = bus.subscribe().unwrap();
    let mut e = event(9);
    e.progress_type = ProgressType::Failed;
    e.current_article = Some(ExternalId::Text("24-01-02-slug".to_string()));
    e.message = Some(ProgressMessage::Ended {
        source: Source::SmolAI,
        range: false,
        status: ScrapeStatus::Failed,
    });
    bus.publish(&e);
    let got = bus.receive(a).unwrap();
    assert_eq!(format!("{:?}", got), format!("{:?}", e));
    assert_eq!(format!("{:?}", e.duplicate()), format!("{:?}", e));
}

#[test]
fn messages_are_spelled_out() {
    assert_eq!(
        ProgressMessage::Starting { source: Source::AIBase }.render(),
        "Starting AIBase scrape..."
    );
    assert_eq!(
        ProgressMessage::Starting { source: Source::SmolAI }.render(),
        "Starting smol.ai scrape..."
    );
    assert_eq!(
        ProgressMessage::StartingRange { start_id: 100, end_id: 2050 }.render(),
        "Starting AIBase range scrape: 100 to 2050"
    );
    assert_eq!(ProgressMessage::Skipped { count: 300 }.render(), "Skipped 300 existing");
    assert_eq!(ProgressMessage::Discovered { count: 0 }.render(), "Discovered 0 articles");
    assert_eq!(
        ProgressMessage::Ended {
            source: Source::AIBase,
            range: false,
            status: ScrapeStatus::Completed
        }
        .render(),
        "AIBase scrape Completed"
    );
    assert_eq!(
        ProgressMessage::Ended { source: Source::AIBase, range: true, status: ScrapeStatus::Failed }
            .render(),
        "Range scrape Failed"
    );
    assert_eq!(
        ProgressMessage::Ended {
            source: Source::SmolAI,
            range: false,
            status: ScrapeStatus::Cancelled
        }
        .render(),
        "smol.ai scrape Cancelled"
    );
}

#[test]
fn identifiers_are_spelled_in_decimal() {
    assert_eq!(ExternalId::Number(0).to_text(), "0");
    assert_eq!(ExternalId::Number(7).to_text(), "7");
    assert_eq!(ExternalId::Number(14040).to_text(), "14040");
    assert_eq!(ExternalId::Number(u32::MAX).to_text(), "4294967295");
    assert_eq!(ExternalId::Text("24-05-01-x".to_string()).to_text(), "24-05-01-x");
}
