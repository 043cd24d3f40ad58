//! Fetching under a rate cap, with bounded retries and exponential backoff.

use vstd::prelude::*;
use crate::text::{parse_decimal, unsigned_decimal};

verus! {

/// The delay before the first retry, in milliseconds, unless set otherwise.
pub const DEFAULT_BASE_DELAY_MS: u64 = 1000;

/// The seconds to wait on a 429 whose `Retry-After` header is there but is
/// not text.
pub const UNREADABLE_RETRY_AFTER_SECS: u64 = 60;

/// Why a fetch did not deliver a body.
#[derive(Clone, Debug)]
pub enum FetchError {
    /// The server answered 429.
    RateLimited,
    /// The server answered with another status outside 200..=299.
    Http { status: u16 },
    /// The request did not get an answer.
    Transport { detail: String },
    /// The answer's body could not be read.
    Body { detail: String },
}

impl FetchError {
    /// The source says that the page does not exist.
    pub open spec fn not_found(self) -> bool {
        self matches FetchError::Http { status } && status == 404
    }

    pub fn is_not_found(&self) -> (r: bool)
        ensures
            r == self.not_found(),
    {
        match self {
            FetchError::Http { status } => *status == 404,
            _ => false,
        }
    }

    pub fn duplicate(&self) -> (r: FetchError)
        ensures
            r == *self,
    {
        match self {
            FetchError::RateLimited => FetchError::RateLimited,
            FetchError::Http { status } => FetchError::Http { status: *status },
            FetchError::Transport { detail } => FetchError::Transport { detail: detail.clone() },
            FetchError::Body { detail } => FetchError::Body { detail: detail.clone() },
        }
    }
}

/// 2 to the power `e`.
pub open spec fn two_to(e: nat) -> nat
    decreases e,
{
    if e == 0 {
        1
    } else {
        2 * two_to((e - 1) as nat)
    }
}

/// The delay after the failed attempt number `attempt` (from 0), in
/// milliseconds: `base * 2^attempt`, held at `u64::MAX`.
pub open spec fn backoff_delay(base_delay_ms: u64, attempt: u32) -> u64 {
    let exact = base_delay_ms * two_to(attempt as nat);
    if exact <= u64::MAX {
        exact as u64
    } else {
        u64::MAX
    }
}

proof fn lemma_two_to_grows(a: nat, b: nat)
    requires
        a <= b,
    ensures
        0 < two_to(a) <= two_to(b),
    decreases b,
{
    if b == 0 {
    } else if a < b {
        lemma_two_to_grows(a, (b - 1) as nat);
    } else {
        lemma_two_to_grows((a - 1) as nat, (b - 1) as nat);
    }
}

/// Computes `backoff_delay`.
pub fn backoff_ms(base_delay_ms: u64, attempt: u32) -> (r: u64)
    ensures
        r == backoff_delay(base_delay_ms, attempt),
{
    if base_delay_ms == 0 {
        assert(base_delay_ms * two_to(attempt as nat) == 0) by (nonlinear_arith)
            requires
                base_delay_ms == 0,
        ;
        return 0;
    }
    let mut delay: u64 = base_delay_ms;
    let mut doubled: u32 = 0;
    assert(base_delay_ms * two_to(0) == base_delay_ms) by (nonlinear_arith)
        requires
            two_to(0) == 1,
    ;
    while doubled < attempt && delay <= u64::MAX / 2
        invariant
            doubled <= attempt,
            delay == base_delay_ms * two_to(doubled as nat),
            base_delay_ms > 0,
        decreases attempt - doubled,
    {
        assert(base_delay_ms * two_to((doubled + 1) as nat) == 2 * (base_delay_ms * two_to(
            doubled as nat,
        ))) by (nonlinear_arith)
            requires
                two_to((doubled + 1) as nat) == 2 * two_to(doubled as nat),
        ;
        delay = delay * 2;
        doubled = doubled + 1;
    }
    if doubled < attempt {
        proof {
            lemma_two_to_grows((doubled + 1) as nat, attempt as nat);
            assert(base_delay_ms * two_to(attempt as nat) >= base_delay_ms * (2 * two_to(
                doubled as nat,
            ))) by (nonlinear_arith)
                requires
                    two_to(attempt as nat) >= 2 * two_to(doubled as nat),
                    base_delay_ms > 0,
            ;
            assert(base_delay_ms * (2 * two_to(doubled as nat)) == 2 * (base_delay_ms * two_to(
                doubled as nat,
            ))) by (nonlinear_arith);
        }
        u64::MAX
    } else {
        delay
    }
}

/// The `Retry-After` header of an answer.
#[derive(Clone, Debug)]
pub enum RetryAfter {
    /// The answer has no such header.
    Absent,
    /// The header is there, but its value is not text.
    Unreadable,
    /// The header's value.
    Text(String),
}

/// What to do with an answer, by its status.
#[derive(Clone, Debug)]
pub enum Judgement {
    /// Read the body: it is the result.
    Accept,
    /// The attempt failed with `error`. Wait `wait_secs` seconds first, if the
    /// server asked for it.
    Reject { wait_secs: Option<u64>, error: FetchError },
}

/// The wait that a 429 answer asks for, in seconds: the header's value where
/// it is an unsigned decimal number that fits, none where the header is
/// absent or says something else.
pub open spec fn hinted_wait(retry_after: RetryAfter) -> Option<u64> {
    match retry_after {
        RetryAfter::Absent => None,
        RetryAfter::Unreadable => Some(UNREADABLE_RETRY_AFTER_SECS),
        RetryAfter::Text(s) => match unsigned_decimal(s@) {
            Some(n) if n <= u64::MAX => Some(n as u64),
            _ => None,
        },
    }
}

/// The status is one of success, 200 to 299.
pub open spec fn status_is_success(status: u16) -> bool {
    200 <= status < 300
}

/// The judgement on an answer with this status and header.
pub open spec fn judgement_of(status: u16, retry_after: RetryAfter) -> Judgement {
    if status == 429 {
        Judgement::Reject { wait_secs: hinted_wait(retry_after), error: FetchError::RateLimited }
    } else if !status_is_success(status) {
        Judgement::Reject { wait_secs: None, error: FetchError::Http { status } }
    } else {
        Judgement::Accept
    }
}

/// Judges an answer by its status: 429 is a rate limit, any other status
/// outside 200..=299 an error, the rest a success.
pub fn judge_response(status: u16, retry_after: &RetryAfter) -> (r: Judgement)
    ensures
        r == judgement_of(status, *retry_after),
{
    if status == 429 {
        let wait_secs = match retry_after {
            RetryAfter::Absent => None,
            RetryAfter::Unreadable => Some(UNREADABLE_RETRY_AFTER_SECS),
            RetryAfter::Text(s) => parse_decimal(s.as_str()),
        };
        Judgement::Reject { wait_secs, error: FetchError::RateLimited }
    } else if status < 200 || status >= 300 {
        Judgement::Reject { wait_secs: None, error: FetchError::Http { status } }
    } else {
        Judgement::Accept
    }
}

/// One fetch in the making: the attempt that is due, and how many retries
/// the fetch may take.
#[derive(Clone, Copy, Debug, PartialEq, Eq, Structural)]
pub struct FetchAttempt {
    pub base_delay_ms: u64,
    /// Attempts allowed beyond the first.
    pub retries: u32,
    /// The attempt that is due, from 0.
    pub attempt: u32,
}

/// What follows an attempt.
#[derive(Debug)]
pub enum FetchStep {
    /// The fetch is over, with this result.
    Done(Result<String, FetchError>),
    /// Wait `delay_ms` milliseconds, take a slot from the rate limiter, and
    /// make the attempt `next`.
    Retry { delay_ms: u64, next: FetchAttempt },
}

impl FetchAttempt {
    /// What follows the attempt, given how it went: a body ends the fetch; a
    /// failure is retried after the backoff delay while retries are left, and
    /// ends the fetch with that failure when none is.
    pub open spec fn after(self, outcome: Result<String, FetchError>) -> FetchStep {
        match outcome {
            Ok(body) => FetchStep::Done(Ok(body)),
            Err(error) => if self.attempt < self.retries {
                FetchStep::Retry {
                    delay_ms: backoff_delay(self.base_delay_ms, self.attempt),
                    next: FetchAttempt { attempt: (self.attempt + 1) as u32, ..self },
                }
            } else {
                FetchStep::Done(Err(error))
            },
        }
    }

    /// Takes how the attempt went and says what follows.
    pub fn record(self, outcome: Result<String, FetchError>) -> (r: FetchStep)
        ensures
            r == self.after(outcome),
    {
        match outcome {
            Ok(body) => FetchStep::Done(Ok(body)),
            Err(error) => {
                if self.attempt < self.retries {
                    FetchStep::Retry {
                        delay_ms: backoff_ms(self.base_delay_ms, self.attempt),
                        next: FetchAttempt {
                            base_delay_ms: self.base_delay_ms,
                            retries: self.retries,
                            attempt: self.attempt + 1,
                        },
                    }
                } else {
                    FetchStep::Done(Err(error))
                }
            },
        }
    }
}

/// The policy of a fetcher: its rate cap and its retries.
#[derive(Clone, Copy, Debug)]
pub struct ScraperClient {
    requests_per_second: u32,
    max_retries: u32,
    base_delay_ms: u64,
}

impl ScraperClient {
    /// The rate cap is positive.
    pub open spec fn wf(&self) -> bool {
        self.spec_requests_per_second() > 0
    }

    pub closed spec fn spec_requests_per_second(&self) -> u32 {
        self.requests_per_second
    }

    pub closed spec fn spec_max_retries(&self) -> u32 {
        self.max_retries
    }

    pub closed spec fn spec_base_delay_ms(&self) -> u64 {
        self.base_delay_ms
    }

    /// A fetcher that makes at most `requests_per_second` requests a second
    /// and retries a failed fetch up to `max_retries` times, the first time
    /// after `DEFAULT_BASE_DELAY_MS`.
    pub fn new(requests_per_second: u32, max_retries: u32) -> (r: ScraperClient)
        requires
            requests_per_second > 0,
        ensures
            r.wf(),
            r.spec_requests_per_second() == requests_per_second,
            r.spec_max_retries() == max_retries,
            r.spec_base_delay_ms() == DEFAULT_BASE_DELAY_MS,
    {
        ScraperClient { requests_per_second, max_retries, base_delay_ms: DEFAULT_BASE_DELAY_MS }
    }

    /// The same fetcher with another delay before the first retry.
    pub fn with_base_delay(self, base_delay_ms: u64) -> (r: ScraperClient)
        requires
            self.wf(),
        ensures
            r.wf(),
            r.spec_requests_per_second() == self.spec_requests_per_second(),
            r.spec_max_retries() == self.spec_max_retries(),
            r.spec_base_delay_ms() == base_delay_ms,
    {
        ScraperClient {
            requests_per_second: self.requests_per_second,
            max_retries: self.max_retries,
            base_delay_ms,
        }
    }

    pub fn requests_per_second(&self) -> (r: u32)
        requires
            self.wf(),
        ensures
            r == self.spec_requests_per_second(),
            r > 0,
    {
        self.requests_per_second
    }

    pub fn max_retries(&self) -> (r: u32)
        ensures
            r == self.spec_max_retries(),
    {
        self.max_retries
    }

    pub fn base_delay_ms(&self) -> (r: u64)
        ensures
            r == self.spec_base_delay_ms(),
    {
        self.base_delay_ms
    }

    /// The first attempt of a fetch that may take `retries` attempts beyond
    /// it.
    pub fn first_attempt(&self, retries: u32) -> (r: FetchAttempt)
        ensures
            r == (FetchAttempt { base_delay_ms: self.spec_base_delay_ms(), retries, attempt: 0 }),
    {
        FetchAttempt { base_delay_ms: self.base_delay_ms, retries, attempt: 0 }
    }

    /// Begins a fetch with the fetcher's own number of retries.
    pub fn fetch(&self) -> (r: Fetch)
        ensures
            r.wf(),
            r@ == FetchState::initial(
                FetchAttempt {
                    base_delay_ms: self.spec_base_delay_ms(),
                    retries: self.spec_max_retries(),
                    attempt: 0,
                },
            ),
    {
        self.fetch_with_retry(self.max_retries)
    }

    /// Begins a fetch that may take `retries` attempts beyond the first.
    pub fn fetch_with_retry(&self, retries: u32) -> (r: Fetch)
        ensures
            r.wf(),
            r@ == FetchState::initial(
                FetchAttempt { base_delay_ms: self.spec_base_delay_ms(), retries, attempt: 0 },
            ),
    {
        Fetch { attempt: self.first_attempt(retries), phase: FetchPhase::Created, failure: None }
    }
}

/// Where a fetch stands: what it is waiting for.
#[derive(Clone, Copy, Debug, PartialEq, Eq, Structural)]
pub enum FetchPhase {
    Created,
    /// For a slot of the rate limiter.
    AwaitSlot,
    /// For the server's answer.
    AwaitAnswer,
    /// For the body of an answer that was accepted.
    AwaitBody,
    /// For the end of a wait that the server asked for.
    AwaitServerWait,
    /// For the end of the delay before the next attempt.
    AwaitBackoff,
    Done,
}

/// What happened since the fetch last said what to do.
#[derive(Clone, Debug)]
pub enum FetchEvent {
    /// The fetch may start.
    Begin,
    /// The rate limiter gave a slot.
    SlotGranted,
    /// The server answered with this status and header.
    Answer { status: u16, retry_after: RetryAfter },
    /// The request got no answer.
    NoAnswer { detail: String },
    /// The body of the answer.
    Body { text: String },
    /// The body of the answer could not be read.
    BodyFailed { detail: String },
    /// The wait that was asked for is over.
    Slept,
}

/// What a fetch asks for next.
#[derive(Clone, Debug)]
pub enum FetchAction {
    /// Wait until the rate limiter gives a slot.
    AcquireSlot,
    /// Send the request.
    Send,
    /// Read the body of the answer.
    ReadBody,
    /// Wait as long as the server asked.
    WaitForServer { secs: u64 },
    /// Wait before the next attempt.
    BackOff { ms: u64 },
    /// The fetch is over: this is the page.
    Deliver { body: String },
    /// The fetch is over: it failed for good.
    GiveUp { error: FetchError },
}

/// The event did not answer what the fetch had asked for. Nothing changed.
#[derive(Clone, Copy, Debug, PartialEq, Eq, Structural)]
pub struct UnexpectedAnswer;

/// The state of a fetch.
pub struct FetchState {
    /// The attempt that is due or under way.
    pub attempt: FetchAttempt,
    pub phase: FetchPhase,
    /// The failure of the attempt, while the server's wait is sat out.
    pub failure: Option<FetchError>,
}

impl FetchState {
    /// A fetch that has not begun.
    pub open spec fn initial(attempt: FetchAttempt) -> FetchState {
        FetchState { attempt, phase: FetchPhase::Created, failure: None }
    }

    /// While the server's wait is sat out, the failure is at hand.
    pub open spec fn wf(self) -> bool {
        self.phase is AwaitServerWait ==> self.failure is Some
    }

    /// The attempt failed and every wait the server asked for is over: back
    /// off and try again while retries are left, give up with the failure
    /// when none is.
    pub open spec fn settle(self, error: FetchError) -> (FetchState, FetchAction) {
        match self.attempt.after(Err(error)) {
            FetchStep::Retry { delay_ms, next } => (
                FetchState { attempt: next, phase: FetchPhase::AwaitBackoff, failure: None },
                FetchAction::BackOff { ms: delay_ms },
            ),
            FetchStep::Done(_) => (
                FetchState { phase: FetchPhase::Done, failure: None, ..self },
                FetchAction::GiveUp { error },
            ),
        }
    }

    /// The attempt failed: sit out the wait that the server asked for, if it
    /// asked for one, then settle.
    pub open spec fn failed(self, error: FetchError, wait_secs: Option<u64>) -> (
        FetchState,
        FetchAction,
    ) {
        match wait_secs {
            Some(secs) => (
                FetchState { phase: FetchPhase::AwaitServerWait, failure: Some(error), ..self },
                FetchAction::WaitForServer { secs },
            ),
            None => self.settle(error),
        }
    }
}

/// The transition of a fetch: the state after `event` and what it asks for,
/// or `None` where `event` does not answer what was asked for. Every attempt
/// takes a slot of the rate limiter before it sends its request.
pub open spec fn fetch_next(state: FetchState, event: FetchEvent) -> Option<
    (FetchState, FetchAction),
> {
    match (state.phase, event) {
        (FetchPhase::Created, FetchEvent::Begin) => Some(
            (FetchState { phase: FetchPhase::AwaitSlot, ..state }, FetchAction::AcquireSlot),
        ),
        (FetchPhase::AwaitSlot, FetchEvent::SlotGranted) => Some(
            (FetchState { phase: FetchPhase::AwaitAnswer, ..state }, FetchAction::Send),
        ),
        (FetchPhase::AwaitAnswer, FetchEvent::Answer { status, retry_after }) => Some(
            match judgement_of(status, retry_after) {
                Judgement::Accept => (
                    FetchState { phase: FetchPhase::AwaitBody, ..state },
                    FetchAction::ReadBody,
                ),
                Judgement::Reject { wait_secs, error } => state.failed(error, wait_secs),
            },
        ),
        (FetchPhase::AwaitAnswer, FetchEvent::NoAnswer { detail }) => Some(
            state.failed(FetchError::Transport { detail }, None),
        ),
        (FetchPhase::AwaitBody, FetchEvent::Body { text }) => Some(
            (FetchState { phase: FetchPhase::Done, ..state }, FetchAction::Deliver { body: text }),
        ),
        (FetchPhase::AwaitBody, FetchEvent::BodyFailed { detail }) => Some(
            state.failed(FetchError::Body { detail }, None),
        ),
        (FetchPhase::AwaitServerWait, FetchEvent::Slept) => match state.failure {
            Some(error) => Some(state.settle(error)),
            None => None,
        },
        (FetchPhase::AwaitBackoff, FetchEvent::Slept) => Some(
            (FetchState { phase: FetchPhase::AwaitSlot, ..state }, FetchAction::AcquireSlot),
        ),
        _ => None,
    }
}

/// One fetch under way. Made by `ScraperClient::fetch`, driven by
/// `Fetch::step`.
#[derive(Debug)]
pub struct Fetch {
    attempt: FetchAttempt,
    phase: FetchPhase,
    failure: Option<FetchError>,
}

impl Fetch {
    pub closed spec fn view(&self) -> FetchState {
        FetchState { attempt: self.attempt, phase: self.phase, failure: self.failure }
    }

    /// The invariant of a fetch: see `FetchState::wf`.
    pub open spec fn wf(&self) -> bool {
        self@.wf()
    }

    pub fn phase(&self) -> (r: FetchPhase)
        ensures
            r == self@.phase,
    {
        self.phase
    }

    /// The attempt that is due or under way.
    pub fn attempt(&self) -> (r: FetchAttempt)
        ensures
            r == self@.attempt,
    {
        self.attempt
    }

    fn settle(&mut self, error: FetchError) -> (r: FetchAction)
        ensures
            final(self)@.wf(),
            (final(self)@, r) == old(self)@.settle(error),
    {
        self.failure = None;
        if self.attempt.attempt < self.attempt.retries {
            let delay_ms = backoff_ms(self.attempt.base_delay_ms, self.attempt.attempt);
            self.attempt = FetchAttempt {
                base_delay_ms: self.attempt.base_delay_ms,
                retries: self.attempt.retries,
                attempt: self.attempt.attempt + 1,
            };
            self.phase = FetchPhase::AwaitBackoff;
            FetchAction::BackOff { ms: delay_ms }
        } else {
            self.phase = FetchPhase::Done;
            FetchAction::GiveUp { error }
        }
    }

    fn failed(&mut self, error: FetchError, wait_secs: Option<u64>) -> (r: FetchAction)
        ensures
            final(self)@.wf(),
            (final(self)@, r) == old(self)@.failed(error, wait_secs),
    {
        match wait_secs {
            Some(secs) => {
                self.failure = Some(error);
                self.phase = FetchPhase::AwaitServerWait;
                FetchAction::WaitForServer { secs }
            },
            None => self.settle(error),
        }
    }

    /// Takes what happened and says what to do next.
    pub fn step(&mut self, event: FetchEvent) -> (r: Result<FetchAction, UnexpectedAnswer>)
        requires
            old(self).wf(),
        ensures
            final(self).wf(),
            match fetch_next(old(self)@, event) {
                Some((state, action)) => r == Ok::<FetchAction, UnexpectedAnswer>(action)
                    && final(self)@ == state,
                None => r == Err::<FetchAction, UnexpectedAnswer>(UnexpectedAnswer)
                    && final(self)@ == old(self)@,
            },
    {
        match (self.phase, event) {
            (FetchPhase::Created, FetchEvent::Begin) => {
                self.phase = FetchPhase::AwaitSlot;
                Ok(FetchAction::AcquireSlot)
            },
            (FetchPhase::AwaitSlot, FetchEvent::SlotGranted) => {
                self.phase = FetchPhase::AwaitAnswer;
                Ok(FetchAction::Send)
            },
            (FetchPhase::AwaitAnswer, FetchEvent::Answer { status, retry_after }) => {
                match judge_response(status, &retry_after) {
                    Judgement::Accept => {
                        self.phase = FetchPhase::AwaitBody;
                        Ok(FetchAction::ReadBody)
                    },
                    Judgement::Reject { wait_secs, error } => Ok(self.failed(error, wait_secs)),
                }
            },
            (FetchPhase::AwaitAnswer, FetchEvent::NoAnswer { detail }) => Ok(
                self.failed(FetchError::Transport { detail }, None),
            ),
            (FetchPhase::AwaitBody, FetchEvent::Body { text }) => {
                self.phase = FetchPhase::Done;
                Ok(FetchAction::Deliver { body: text })
            },
            (FetchPhase::AwaitBody, FetchEvent::BodyFailed { detail }) => Ok(
                self.failed(FetchError::Body { detail }, None),
            ),
            (FetchPhase::AwaitServerWait, FetchEvent::Slept) => {
                match self.failure.take() {
                    Some(error) => Ok(self.settle(error)),
                    None => Err(UnexpectedAnswer),
                }
            },
            (FetchPhase::AwaitBackoff, FetchEvent::Slept) => {
                self.phase = FetchPhase::AwaitSlot;
                Ok(FetchAction::AcquireSlot)
            },
            _ => Err(UnexpectedAnswer),
        }
    }
}

/// How a fetch went: the milliseconds of backoff it waited in all, and its
/// result once it has one.
pub struct FetchTrace {
    pub waited_ms: nat,
    pub result: Option<Result<String, FetchError>>,
}

/// The fetch that begins with `attempt` and whose attempts go as `outcomes`
/// say, in order. Outcomes past the end of the fetch are not looked at.
pub open spec fn fetch_trace(attempt: FetchAttempt, outcomes: Seq<Result<String, FetchError>>) -> FetchTrace
    decreases outcomes.len(),
{
    if outcomes.len() == 0 {
        FetchTrace { waited_ms: 0, result: None }
    } else {
        match attempt.after(outcomes[0]) {
            FetchStep::Done(result) => FetchTrace { waited_ms: 0, result: Some(result) },
            FetchStep::Retry { delay_ms, next } => {
                let rest = fetch_trace(next, outcomes.drop_first());
                FetchTrace { waited_ms: (delay_ms + rest.waited_ms) as nat, result: rest.result }
            },
        }
    }
}

/// The backoff delays after the failed attempts `from .. to`, added up.
pub open spec fn backoff_total(base_delay_ms: u64, from: u32, to: u32) -> nat
    decreases to - from,
{
    if from >= to {
        0
    } else {
        (backoff_delay(base_delay_ms, from) + backoff_total(
            base_delay_ms,
            (from + 1) as u32,
            to,
        )) as nat
    }
}

/// Retry and backoff: a fetch whose attempts fail `failures.len()` times and
/// then deliver `body`, with that many retries allowed, returns `body`, and
/// has by then waited the backoff delay after each failure: `base`,
/// `2 * base`, `4 * base` and so on.
pub proof fn lemma_retries_until_success(
    attempt: FetchAttempt,
    failures: Seq<FetchError>,
    body: String,
)
    requires
        attempt.attempt + failures.len() <= attempt.retries,
    ensures
        ({
            let outcomes = failures.map_values(|e: FetchError| Err::<String, FetchError>(e)).push(
                Ok(body),
            );
            let trace = fetch_trace(attempt, outcomes);
            &&& trace.result == Some(Ok::<String, FetchError>(body))
            &&& trace.waited_ms == backoff_total(
                attempt.base_delay_ms,
                attempt.attempt,
                (attempt.attempt + failures.len()) as u32,
            )
        }),
    decreases failures.len(),
{
    let outcomes = failures.map_values(|e: FetchError| Err::<String, FetchError>(e)).push(Ok(body));
    if failures.len() == 0 {
        assert(outcomes[0] == Ok::<String, FetchError>(body));
    } else {
        let next = FetchAttempt { attempt: (attempt.attempt + 1) as u32, ..attempt };
        assert(outcomes[0] == Err::<String, FetchError>(failures[0]));
        assert(outcomes.drop_first() =~= failures.drop_first().map_values(
            |e: FetchError| Err::<String, FetchError>(e),
        ).push(Ok(body)));
        lemma_retries_until_success(next, failures.drop_first(), body);
    }
}

/// A fetch whose attempts all fail gives up after `retries` retries with the
/// failure of its last attempt.
pub proof fn lemma_retries_exhausted(attempt: FetchAttempt, failures: Seq<FetchError>)
    requires
        attempt.attempt <= attempt.retries,
        failures.len() == attempt.retries - attempt.attempt + 1,
    ensures
        ({
            let outcomes = failures.map_values(|e: FetchError| Err::<String, FetchError>(e));
            let trace = fetch_trace(attempt, outcomes);
            &&& trace.result == Some(Err::<String, FetchError>(failures.last()))
            &&& trace.waited_ms == backoff_total(
                attempt.base_delay_ms,
                attempt.attempt,
                attempt.retries,
            )
        }),
    decreases failures.len(),
{
    let outcomes = failures.map_values(|e: FetchError| Err::<String, FetchError>(e));
    assert(outcomes[0] == Err::<String, FetchError>(failures[0]));
    if attempt.attempt < attempt.retries {
        let next = FetchAttempt { attempt: (attempt.attempt + 1) as u32, ..attempt };
        assert(outcomes.drop_first() =~= failures.drop_first().map_values(
            |e: FetchError| Err::<String, FetchError>(e),
        ));
        lemma_retries_exhausted(next, failures.drop_first());
    }
}


/// How a fetch goes over the events it is handed, in order: the time it
/// waits in all, in milliseconds, and its result once it is over. Events that
/// do not answer what the fetch asked for are passed over; events past its
/// end are not looked at.
pub open spec fn fetch_story(state: FetchState, events: Seq<FetchEvent>) -> FetchTrace
    decreases events.len(),
{
    if events.len() == 0 {
        FetchTrace { waited_ms: 0, result: None }
    } else {
        match fetch_next(state, events[0]) {
            None => fetch_story(state, events.drop_first()),
            Some((next, action)) => {
                let rest = fetch_story(next, events.drop_first());
                match action {
                    FetchAction::Deliver { body } => FetchTrace {
                        waited_ms: 0,
                        result: Some(Ok(body)),
                    },
                    FetchAction::GiveUp { error } => FetchTrace {
                        waited_ms: 0,
                        result: Some(Err(error)),
                    },
                    FetchAction::BackOff { ms } => FetchTrace {
                        waited_ms: (ms + rest.waited_ms) as nat,
                        result: rest.result,
                    },
                    FetchAction::WaitForServer { secs } => FetchTrace {
                        waited_ms: (secs * 1000 + rest.waited_ms) as nat,
                        result: rest.result,
                    },
                    _ => rest,
                }
            },
        }
    }
}

/// The attempt fails, and the server asks for no wait of its own.
pub open spec fn fails_plainly(event: FetchEvent) -> bool {
    match event {
        FetchEvent::NoAnswer { .. } => true,
        FetchEvent::Answer { status, retry_after } => judgement_of(status, retry_after)
            matches Judgement::Reject { wait_secs, .. } && wait_secs is None,
        _ => false,
    }
}

/// The events of a fetch whose attempts go as `failures` say, one after the
/// other, and whose next attempt is answered with `status` and the body
/// `text`: for each attempt a slot, then how it went, then, after a failure,
/// the end of the delay.
pub open spec fn retried_events(failures: Seq<FetchEvent>, status: u16, text: String) -> Seq<
    FetchEvent,
>
    decreases failures.len(),
{
    if failures.len() == 0 {
        seq![
            FetchEvent::SlotGranted,
            FetchEvent::Answer { status, retry_after: RetryAfter::Absent },
            FetchEvent::Body { text },
        ]
    } else {
        seq![FetchEvent::SlotGranted, failures[0], FetchEvent::Slept] + retried_events(
            failures.drop_first(),
            status,
            text,
        )
    }
}

/// A request is sent only on a slot of the rate limiter: the step that asks
/// to send answers the grant of a slot, and a slot is asked for at the start
/// and after every delay.
pub proof fn lemma_slot_before_send(state: FetchState, event: FetchEvent)
    requires
        fetch_next(state, event) is Some,
    ensures
        ({
            let (next, action) = fetch_next(state, event)->0;
            &&& action is Send <==> state.phase is AwaitSlot
            &&& action is Send ==> event is SlotGranted
            &&& next.phase is AwaitSlot <==> action is AcquireSlot
            &&& action is AcquireSlot ==> state.phase is Created || state.phase is AwaitBackoff
        }),
{
}

/// A fetch makes no more attempts than its retries allow, and its delays
/// grow as its attempts do: a step that backs off does so for the delay of
/// the attempt that failed, and moves on to the next attempt; no other step
/// moves on.
pub proof fn lemma_backoff_follows_attempts(state: FetchState, event: FetchEvent)
    requires
        fetch_next(state, event) is Some,
    ensures
        ({
            let (next, action) = fetch_next(state, event)->0;
            &&& action matches FetchAction::BackOff { ms } ==> {
                &&& state.attempt.attempt < state.attempt.retries
                &&& ms == backoff_delay(state.attempt.base_delay_ms, state.attempt.attempt)
                &&& next.attempt.attempt == state.attempt.attempt + 1
            }
            &&& !(action is BackOff) ==> next.attempt == state.attempt
            &&& next.attempt.retries == state.attempt.retries
            &&& next.attempt.base_delay_ms == state.attempt.base_delay_ms
        }),
{
}

/// Retry and backoff: a fetch whose attempts fail `failures.len()` times,
/// without a wait asked for by the server, and whose next attempt is
/// answered with a status of success and a body, with that many retries
/// allowed, delivers that body, and has by then waited the backoff delay
/// after each failure: `base`, `2 * base`, `4 * base` and so on.
pub proof fn lemma_fetch_retries_until_success(
    state: FetchState,
    failures: Seq<FetchEvent>,
    status: u16,
    text: String,
)
    requires
        state.phase is AwaitSlot,
        state.attempt.attempt + failures.len() <= state.attempt.retries,
        forall|i: int| 0 <= i < failures.len() ==> fails_plainly(#[trigger] failures[i]),
        status_is_success(status),
    ensures
        fetch_story(state, retried_events(failures, status, text)) == (FetchTrace {
            waited_ms: backoff_total(
                state.attempt.base_delay_ms,
                state.attempt.attempt,
                (state.attempt.attempt + failures.len()) as u32,
            ),
            result: Some(Ok(text)),
        }),
    decreases failures.len(),
{
    let events = retried_events(failures, status, text);
    let sending = FetchState { phase: FetchPhase::AwaitAnswer, ..state };
    assert(fetch_next(state, events[0]) == Some((sending, FetchAction::Send)));
    let after_slot = events.drop_first();
    assert(fetch_story(state, events) == fetch_story(sending, after_slot));
    if failures.len() == 0 {
        let reading = FetchState { phase: FetchPhase::AwaitBody, ..state };
        assert(after_slot[0] == events[1]);
        assert(fetch_next(sending, after_slot[0]) == Some((reading, FetchAction::ReadBody)));
        let after_answer = after_slot.drop_first();
        assert(after_answer[0] == events[2]);
        assert(fetch_story(sending, after_slot) == fetch_story(reading, after_answer));
    } else {
        let next_attempt = FetchAttempt {
            attempt: (state.attempt.attempt + 1) as u32,
            ..state.attempt
        };
        let delay = backoff_delay(state.attempt.base_delay_ms, state.attempt.attempt);
        let resting = FetchState {
            attempt: next_attempt,
            phase: FetchPhase::AwaitBackoff,
            failure: None,
        };
        let again = FetchState { phase: FetchPhase::AwaitSlot, ..resting };
        assert(after_slot[0] == failures[0]);
        assert(fails_plainly(failures[0]));
        assert(fetch_next(sending, after_slot[0]) == Some(
            (resting, FetchAction::BackOff { ms: delay }),
        ));
        let after_failure = after_slot.drop_first();
        assert(after_failure[0] == FetchEvent::Slept);
        assert(fetch_next(resting, after_failure[0]) == Some((again, FetchAction::AcquireSlot)));
        let later = after_failure.drop_first();
        assert(later =~= retried_events(failures.drop_first(), status, text));
        assert(fetch_story(resting, after_failure) == fetch_story(again, later));
        assert forall|i: int| 0 <= i < failures.drop_first().len() implies fails_plainly(
            #[trigger] failures.drop_first()[i],
        ) by {
            assert(failures.drop_first()[i] == failures[i + 1]);
        }
        lemma_fetch_retries_until_success(again, failures.drop_first(), status, text);
    }
}

} // verus!
