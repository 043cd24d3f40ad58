//! Progress events and the bus that hands them to subscribers.

use vstd::prelude::*;
use crate::model::{ExternalId, RunId, ScrapeStatus};
use crate::source::Source;
use crate::text::{concat3, decimal_digits, format_decimal};

verus! {

/// The phase of a run that an event reports.
#[derive(Clone, Copy, Debug, PartialEq, Eq, Structural)]
pub enum ProgressType {
    Started,
    Progress,
    Completed,
    Failed,
    Cancelled,
}

/// What an event has to say besides its counters.
#[derive(Clone, Copy, Debug, PartialEq, Eq, Structural)]
pub enum ProgressMessage {
    /// A crawl of a source begins.
    Starting { source: Source },
    /// A crawl of the identifiers `start_id ..= end_id` begins.
    StartingRange { start_id: u32, end_id: u32 },
    /// So many candidates were already stored and left alone.
    Skipped { count: u32 },
    /// The archive listed so many candidates.
    Discovered { count: u32 },
    /// The run ended in `status`. `range` tells a crawl of an identifier
    /// range from a crawl of the source's listing.
    Ended { source: Source, range: bool, status: ScrapeStatus },
}

/// The status as an event's message spells it.
pub open spec fn status_word(status: ScrapeStatus) -> Seq<char> {
    match status {
        ScrapeStatus::Running => "Running"@,
        ScrapeStatus::Completed => "Completed"@,
        ScrapeStatus::Failed => "Failed"@,
        ScrapeStatus::Cancelled => "Cancelled"@,
    }
}

impl ProgressMessage {
    /// The message as text.
    pub open spec fn text(self) -> Seq<char> {
        match self {
            ProgressMessage::Starting { source } => "Starting "@ + source.spec_display_name()
                + " scrape..."@,
            ProgressMessage::StartingRange { start_id, end_id } => "Starting AIBase range scrape: "@
                + decimal_digits(start_id as nat) + " to "@ + decimal_digits(end_id as nat),
            ProgressMessage::Skipped { count } => "Skipped "@ + decimal_digits(count as nat)
                + " existing"@,
            ProgressMessage::Discovered { count } => "Discovered "@ + decimal_digits(count as nat)
                + " articles"@,
            ProgressMessage::Ended { source, range, status } => (if range {
                "Range"@
            } else {
                source.spec_display_name()
            }) + " scrape "@ + status_word(status),
        }
    }

    /// Writes the message out.
    pub fn render(&self) -> (r: String)
        ensures
            r@ == self.text(),
    {
        match self {
            ProgressMessage::Starting { source } => concat3(
                "Starting ",
                source.display_name(),
                " scrape...",
            ),
            ProgressMessage::StartingRange { start_id, end_id } => {
                let from = format_decimal(*start_id as u64);
                let to = format_decimal(*end_id as u64);
                let mut out = concat3("Starting AIBase range scrape: ", from.as_str(), " to ");
                out.append(to.as_str());
                out
            },
            ProgressMessage::Skipped { count } => {
                let n = format_decimal(*count as u64);
                concat3("Skipped ", n.as_str(), " existing")
            },
            ProgressMessage::Discovered { count } => {
                let n = format_decimal(*count as u64);
                concat3("Discovered ", n.as_str(), " articles")
            },
            ProgressMessage::Ended { source, range, status } => {
                let word = match status {
                    ScrapeStatus::Running => "Running",
                    ScrapeStatus::Completed => "Completed",
                    ScrapeStatus::Failed => "Failed",
                    ScrapeStatus::Cancelled => "Cancelled",
                };
                let subject = if *range {
                    "Range"
                } else {
                    source.display_name()
                };
                concat3(subject, " scrape ", word)
            },
        }
    }
}

/// One progress event. Counters mirror the run's record at the time of
/// publishing.
#[derive(Clone, Debug)]
pub struct ScrapeProgress {
    pub run_id: RunId,
    pub progress_type: ProgressType,
    pub pages_scraped: u32,
    pub total_pages: Option<u32>,
    pub articles_found: u32,
    pub articles_new: u32,
    pub articles_failed: u32,
    pub current_article: Option<ExternalId>,
    pub message: Option<ProgressMessage>,
}

impl ScrapeProgress {
    pub fn duplicate(&self) -> (r: ScrapeProgress)
        ensures
            r == *self,
    {
        ScrapeProgress {
            run_id: self.run_id,
            progress_type: self.progress_type,
            pages_scraped: self.pages_scraped,
            total_pages: self.total_pages,
            articles_found: self.articles_found,
            articles_new: self.articles_new,
            articles_failed: self.articles_failed,
            current_article: match &self.current_article {
                Some(id) => Some(id.duplicate()),
                None => None,
            },
            message: self.message,
        }
    }
}

/// How many events a subscriber may have waiting, unless set otherwise.
pub const DEFAULT_CAPACITY: usize = 100;

/// Names one subscriber of a bus.
#[derive(Clone, Copy, Debug, PartialEq, Eq, Hash, Structural)]
pub struct SubscriberId(pub u64);

/// One subscriber: its name, and the events published since it subscribed
/// that it has not received yet, oldest first.
pub struct Subscriber {
    pub id: SubscriberId,
    pub pending: Vec<ScrapeProgress>,
}

/// A subscriber as contracts see it.
pub struct SubscriberState {
    pub id: SubscriberId,
    pub pending: Seq<ScrapeProgress>,
}

/// A bus as contracts see it.
pub struct BusState {
    pub capacity: usize,
    pub next_id: u64,
    pub subscribers: Seq<SubscriberState>,
}

impl BusState {
    /// Where the subscriber `id` stands among the subscribers, if it is one.
    pub open spec fn position(self, id: SubscriberId) -> Option<int> {
        if exists|i: int| 0 <= i < self.subscribers.len() && self.subscribers[i].id == id {
            Some(choose|i: int| 0 <= i < self.subscribers.len() && self.subscribers[i].id == id)
        } else {
            None
        }
    }

    /// No two subscribers share a name, every name was handed out already,
    /// and nobody has more waiting than the capacity.
    pub open spec fn wf(self) -> bool {
        &&& forall|i: int, j: int|
            0 <= i < self.subscribers.len() && 0 <= j < self.subscribers.len() && (
            #[trigger] self.subscribers[i]).id == (#[trigger] self.subscribers[j]).id ==> i == j
        &&& forall|i: int|
            0 <= i < self.subscribers.len() ==> (#[trigger] self.subscribers[i]).id.0 < self.next_id
        &&& forall|i: int|
            0 <= i < self.subscribers.len() ==> (#[trigger] self.subscribers[i]).pending.len()
                <= self.capacity
    }

    /// The subscriber has room for one more event.
    pub open spec fn has_room(self, subscriber: SubscriberState) -> bool {
        subscriber.pending.len() < self.capacity
    }

    /// `event` was published: it waits, last in line, for every subscriber
    /// that had room, and is lost on the others.
    pub open spec fn published(self, event: ScrapeProgress) -> BusState {
        BusState {
            subscribers: Seq::new(
                self.subscribers.len(),
                |i: int|
                    if self.has_room(self.subscribers[i]) {
                        SubscriberState {
                            id: self.subscribers[i].id,
                            pending: self.subscribers[i].pending.push(event),
                        }
                    } else {
                        self.subscribers[i]
                    },
            ),
            ..self
        }
    }

    /// How many of the first `upto` subscribers have room.
    pub open spec fn with_room(self, upto: int) -> nat
        decreases upto,
    {
        if upto <= 0 {
            0
        } else {
            self.with_room(upto - 1) + if self.has_room(self.subscribers[upto - 1]) {
                1nat
            } else {
                0nat
            }
        }
    }

    /// A subscriber joined: it has nothing waiting, whatever was published
    /// before.
    pub open spec fn subscribed(self) -> BusState {
        BusState {
            next_id: (self.next_id + 1) as u64,
            subscribers: self.subscribers.push(
                SubscriberState { id: SubscriberId(self.next_id), pending: Seq::empty() },
            ),
            ..self
        }
    }

    /// The subscriber at `at` left.
    pub open spec fn without(self, at: int) -> BusState {
        BusState { subscribers: self.subscribers.remove(at), ..self }
    }

    /// The subscriber at `at` received its oldest waiting event.
    pub open spec fn received(self, at: int) -> BusState {
        BusState {
            subscribers: self.subscribers.update(
                at,
                SubscriberState {
                    id: self.subscribers[at].id,
                    pending: self.subscribers[at].pending.drop_first(),
                },
            ),
            ..self
        }
    }
}

/// Hands progress events to any number of subscribers. Publishing never
/// waits: an event is lost on a subscriber that has no room for it.
pub struct ProgressBus {
    capacity: usize,
    next_id: u64,
    subscribers: Vec<Subscriber>,
}

impl ProgressBus {
    pub closed spec fn view(&self) -> BusState {
        BusState {
            capacity: self.capacity,
            next_id: self.next_id,
            subscribers: Seq::new(
                self.subscribers@.len(),
                |i: int|
                    SubscriberState {
                        id: self.subscribers@[i].id,
                        pending: self.subscribers@[i].pending@,
                    },
            ),
        }
    }

    /// The invariant of a bus: see `BusState::wf`.
    pub open spec fn wf(&self) -> bool {
        self@.wf()
    }

    /// A bus without subscribers, on which a subscriber may have `capacity`
    /// events waiting.
    pub fn new(capacity: usize) -> (r: ProgressBus)
        ensures
            r.wf(),
            r@ == (BusState { capacity, next_id: 0, subscribers: Seq::empty() }),
    {
        let bus = ProgressBus { capacity, next_id: 0, subscribers: Vec::new() };
        assert(bus@.subscribers =~= Seq::empty());
        bus
    }

    /// How many subscribers there are.
    pub fn subscriber_count(&self) -> (r: usize)
        ensures
            r == self@.subscribers.len(),
    {
        self.subscribers.len()
    }

    fn find(&self, id: SubscriberId) -> (r: Option<usize>)
        requires
            self.wf(),
        ensures
            match r {
                Some(at) => self@.position(id) == Some(at as int) && at < self@.subscribers.len()
                    && self@.subscribers[at as int].id == id,
                None => self@.position(id) is None,
            },
    {
        let mut i: usize = 0;
        while i < self.subscribers.len()
            invariant
                self.wf(),
                i <= self.subscribers.len(),
                forall|k: int| 0 <= k < i ==> self@.subscribers[k].id != id,
            decreases self.subscribers.len() - i,
        {
            if self.subscribers[i].id.0 == id.0 {
                proof {
                    let state = self@;
                    let here = i as int;
                    assert(0 <= here < state.subscribers.len() && state.subscribers[here].id == id);
                    let at = choose|k: int|
                        0 <= k < state.subscribers.len() && state.subscribers[k].id == id;
                    assert(state.position(id) == Some(at));
                    assert(state.subscribers[at].id == state.subscribers[here].id);
                    assert(at == here);
                }
                return Some(i);
            }
            i = i + 1;
        }
        None
    }

    /// Adds a subscriber and returns its name. It gets what is published from
    /// now on, and nothing of what was published before. `None`, and nothing
    /// changes, once every name has been handed out.
    pub fn subscribe(&mut self) -> (r: Option<SubscriberId>)
        requires
            old(self).wf(),
        ensures
            final(self).wf(),
            match r {
                Some(id) => id == SubscriberId(old(self)@.next_id) && final(self)@ == old(
                    self,
                )@.subscribed(),
                None => old(self)@.next_id == u64::MAX && final(self)@ == old(self)@,
            },
    {
        if self.next_id == u64::MAX {
            return None;
        }
        let id = SubscriberId(self.next_id);
        self.subscribers.push(Subscriber { id, pending: Vec::new() });
        self.next_id = self.next_id + 1;
        assert(self@.subscribers =~= old(self)@.subscribed().subscribers);
        Some(id)
    }

    /// Removes a subscriber, with what it had waiting. Says whether there was
    /// one of this name.
    pub fn unsubscribe(&mut self, id: SubscriberId) -> (r: bool)
        requires
            old(self).wf(),
        ensures
            final(self).wf(),
            match old(self)@.position(id) {
                Some(at) => r && final(self)@ == old(self)@.without(at),
                None => !r && final(self)@ == old(self)@,
            },
    {
        match self.find(id) {
            Some(at) => {
                let _ = self.subscribers.remove(at);
                assert(self@.subscribers =~= old(self)@.without(at as int).subscribers);
                true
            },
            None => false,
        }
    }

    /// Publishes an event to every subscriber that has room, and says to how
    /// many that was.
    pub fn publish(&mut self, event: &ScrapeProgress) -> (r: usize)
        requires
            old(self).wf(),
        ensures
            final(self).wf(),
            final(self)@ == old(self)@.published(*event),
            r == old(self)@.with_room(old(self)@.subscribers.len() as int),
    {
        let mut delivered: usize = 0;
        let mut i: usize = 0;
        while i < self.subscribers.len()
            invariant
                i <= self.subscribers.len(),
                delivered <= i,
                self.subscribers.len() == old(self).subscribers.len(),
                self.capacity == old(self).capacity,
                self.next_id == old(self).next_id,
                delivered == old(self)@.with_room(i as int),
                forall|k: int|
                    0 <= k < i ==> self@.subscribers[k] == old(self)@.published(
                        *event,
                    ).subscribers[k],
                forall|k: int|
                    i <= k < self.subscribers.len() ==> self.subscribers[k] == old(
                        self,
                    ).subscribers[k],
            decreases self.subscribers.len() - i,
        {
            let ghost before = self@;
            if self.subscribers[i].pending.len() < self.capacity {
                self.subscribers[i].pending.push(event.duplicate());
                delivered = delivered + 1;
            }
            proof {
                assert(self@.subscribers[i as int] == old(self)@.published(
                    *event,
                ).subscribers[i as int]);
                assert forall|k: int| 0 <= k < i implies self@.subscribers[k] == old(
                    self,
                )@.published(*event).subscribers[k] by {
                    assert(self@.subscribers[k] == before.subscribers[k]);
                }
            }
            i = i + 1;
        }
        assert(self@.subscribers =~= old(self)@.published(*event).subscribers);
        delivered
    }

    /// Takes the oldest event that waits for the subscriber. `None`, and
    /// nothing changes, where nothing waits or nobody has this name.
    pub fn receive(&mut self, id: SubscriberId) -> (r: Option<ScrapeProgress>)
        requires
            old(self).wf(),
        ensures
            final(self).wf(),
            match old(self)@.position(id) {
                Some(at) if old(self)@.subscribers[at].pending.len() > 0 => r == Some(
                    old(self)@.subscribers[at].pending[0],
                ) && final(self)@ == old(self)@.received(at),
                _ => r is None && final(self)@ == old(self)@,
            },
    {
        match self.find(id) {
            Some(at) => {
                if self.subscribers[at].pending.len() > 0 {
                    let event = self.subscribers[at].pending.remove(0);
                    assert(self@.subscribers =~= old(self)@.received(at as int).subscribers);
                    Some(event)
                } else {
                    None
                }
            },
            None => None,
        }
    }

    /// How many events wait for the subscriber, if there is one of this name.
    pub fn pending_count(&self, id: SubscriberId) -> (r: Option<usize>)
        requires
            self.wf(),
        ensures
            r == match self@.position(id) {
                Some(at) => Some(self@.subscribers[at].pending.len() as usize),
                None => None,
            },
    {
        match self.find(id) {
            Some(at) => Some(self.subscribers[at].pending.len()),
            None => None,
        }
    }
}

/// Order and no replay: a subscriber that joins a bus and for which two
/// events are published then, while it has room for both, has exactly these
/// two waiting, the first published first, whatever was published before it
/// joined.
pub proof fn lemma_newcomer_gets_later_events_in_order(
    bus: BusState,
    first: ScrapeProgress,
    second: ScrapeProgress,
)
    requires
        bus.wf(),
        bus.capacity >= 2,
    ensures
        ({
            let at = bus.subscribers.len() as int;
            let after = bus.subscribed().published(first).published(second);
            &&& after.subscribers.len() == at + 1
            &&& after.subscribers[at].id == SubscriberId(bus.next_id)
            &&& after.subscribers[at].pending == seq![first, second]
            &&& after.received(at).subscribers[at].pending == seq![second]
        }),
{
    let at = bus.subscribers.len() as int;
    let joined = bus.subscribed();
    let once = joined.published(first);
    let after = once.published(second);
    assert(joined.subscribers[at].pending.len() == 0);
    assert(once.subscribers[at].pending =~= seq![first]);
    assert(after.subscribers[at].pending =~= seq![first, second]);
    assert(after.received(at).subscribers[at].pending =~= seq![second]);
}

/// Publishing keeps what waits in order: for every subscriber, what waited
/// before still waits, in the same order, and the event comes last or not at
/// all.
pub proof fn lemma_publish_appends(bus: BusState, event: ScrapeProgress, at: int)
    requires
        0 <= at < bus.subscribers.len(),
    ensures
        ({
            let before = bus.subscribers[at];
            let after = bus.published(event).subscribers[at];
            &&& after.id == before.id
            &&& after.pending == if bus.has_room(before) {
                before.pending.push(event)
            } else {
                before.pending
            }
        }),
{
}

} // verus!
