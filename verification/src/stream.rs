//! The resilient event stream: a state machine over one streaming connection,
//! reconnecting with exponential backoff, server retry hints, a bounded retry
//! count, and resumption from the last observed event id.
//!
//! The machine is driven from outside: the holder of the open connection
//! reports each decoded event through [`EventStream::on_event`] and each
//! disconnection through [`EventStream::on_disconnect`], sleeps out the delay
//! a [`RetryStep::Sleep`] asks for, acknowledges it with
//! [`EventStream::delay_elapsed`], and opens the next connection from
//! [`EventStream::sse_path`] and [`EventStream::sse_query`].

use vstd::prelude::*;
use vstd::arithmetic::power2::{lemma2_to64, lemma_pow2_pos, lemma_pow2_unfold, pow2};
use vstd::math::min;
use vstd::string::StringExecFns;

use crate::decode::DisconnectSignal;
use crate::error::Error;
use crate::models::Event;
use crate::options::StreamOptions;
use crate::{DEFAULT_GRACEFUL_RETRY_MS, INITIAL_BACKOFF_MS, MAX_RETRY_MS};

verus! {

/// The connection phase of a stream.
#[derive(Debug, Clone, Copy, PartialEq, Eq, Structural)]
pub enum Phase {
    /// A connection is open, or may be opened.
    Connected,
    /// Waiting out a retry delay (in milliseconds) before reconnecting.
    AwaitingRetryDelay(u64),
    /// Terminated: no further events will ever be yielded.
    Stopped,
}

/// What the policy decides after a disconnection.
#[derive(Debug)]
pub enum RetryStep {
    /// Wait this many milliseconds, acknowledge with `delay_elapsed`, then
    /// open a fresh connection.
    Sleep(u64),
    /// The sequence ends now; this error is its final item.
    Fail(Error),
    /// The sequence ends now, with no further items.
    Done,
}

/// A stream of events from a session with automatic reconnection.
#[derive(Debug)]
pub struct EventStream {
    /// The session whose events are streamed.
    pub session_id: String,
    /// The options the stream was constructed with.
    pub options: StreamOptions,
    /// The id of the most recently yielded event, used as the resume cursor.
    pub last_event_id: Option<String>,
    /// Server-provided retry hint in milliseconds.
    pub server_retry_ms: Option<u64>,
    /// Current backoff delay for unexpected disconnections.
    pub current_backoff_ms: u64,
    /// Number of consecutive reconnection attempts.
    pub retry_count: u32,
    /// Whether the most recent disconnect was graceful.
    pub graceful_disconnect: bool,
    /// The connection phase.
    pub phase: Phase,
}

/// The backoff value after one unexpected failure: doubled, capped.
pub open spec fn spec_bumped_backoff(b: u64) -> u64 {
    if b * 2 <= MAX_RETRY_MS { (b * 2) as u64 } else { MAX_RETRY_MS }
}

/// The retry count after one reconnection attempt (it never wraps).
pub open spec fn spec_bump_count(c: u32) -> u32 {
    if c == u32::MAX { c } else { (c + 1) as u32 }
}

impl EventStream {
    /// Well-formedness: the backoff stays between its initial value and its
    /// cap, and while connected the last disconnect is never marked graceful.
    pub open spec fn wf(self) -> bool {
        &&& INITIAL_BACKOFF_MS <= self.current_backoff_ms <= MAX_RETRY_MS
        &&& self.phase is Connected ==> !self.graceful_disconnect
    }

    /// Whether another reconnection attempt is permitted: the stream has not
    /// been stopped and the retry ceiling (unbounded when unset) is not yet
    /// reached.
    pub open spec fn spec_should_retry(self) -> bool {
        &&& !(self.phase is Stopped)
        &&& match self.options.max_retries {
            Some(max) => self.retry_count < max,
            None => true,
        }
    }

    /// The delay before the next reconnection: the server hint (or the short
    /// default) after a graceful disconnect, the exponential backoff value
    /// otherwise.
    pub open spec fn spec_retry_delay(self) -> u64 {
        if self.graceful_disconnect {
            match self.server_retry_ms {
                Some(ms) => ms,
                None => DEFAULT_GRACEFUL_RETRY_MS,
            }
        } else {
            self.current_backoff_ms
        }
    }

    /// The cursor the next connection resumes from: the most recently observed
    /// event id, falling back to the caller-supplied cursor only when nothing
    /// has been observed yet.
    pub open spec fn spec_resume_cursor(self) -> Option<Seq<char>> {
        match self.last_event_id {
            Some(id) => Some(id@),
            None => match self.options.since_id {
                Some(s) => Some(s@),
                None => None,
            },
        }
    }

    /// Create a stream for a session. No connection is opened here; the
    /// driver opens one from `sse_path` and `sse_query`.
    pub fn new(session_id: String, options: StreamOptions) -> (r: Self)
        ensures
            r.session_id == session_id,
            r.options == options,
            r.last_event_id is None,
            r.server_retry_ms is None,
            r.current_backoff_ms == INITIAL_BACKOFF_MS,
            r.retry_count == 0,
            !r.graceful_disconnect,
            r.phase is Connected,
            r.wf(),
    {
        EventStream {
            session_id,
            options,
            last_event_id: None,
            server_retry_ms: None,
            current_backoff_ms: INITIAL_BACKOFF_MS,
            retry_count: 0,
            graceful_disconnect: false,
            phase: Phase::Connected,
        }
    }

    /// Get the last received event id (for resuming).
    pub fn last_event_id(&self) -> (r: Option<&str>)
        ensures
            match r {
                Some(s) => self.last_event_id matches Some(id) && s@ == id@,
                None => self.last_event_id is None,
            },
    {
        match &self.last_event_id {
            Some(id) => Some(id.as_str()),
            None => None,
        }
    }

    /// Get the current retry count.
    pub fn retry_count(&self) -> (r: u32)
        ensures
            r == self.retry_count,
    {
        self.retry_count
    }

    /// Stop the stream: no further reconnection attempts, any pending retry
    /// delay is abandoned.
    pub fn stop(&mut self)
        ensures
            final(self).phase is Stopped,
            !final(self).spec_should_retry(),
            final(self).session_id == old(self).session_id,
            final(self).options == old(self).options,
            final(self).last_event_id == old(self).last_event_id,
            final(self).server_retry_ms == old(self).server_retry_ms,
            final(self).current_backoff_ms == old(self).current_backoff_ms,
            final(self).retry_count == old(self).retry_count,
            final(self).graceful_disconnect == old(self).graceful_disconnect,
            old(self).wf() ==> final(self).wf(),
    {
        self.phase = Phase::Stopped;
    }

    /// Whether the stream may attempt another reconnection.
    pub fn should_retry(&self) -> (r: bool)
        ensures
            r == self.spec_should_retry(),
    {
        if matches!(self.phase, Phase::Stopped) {
            return false;
        }
        match self.options.max_retries {
            Some(max) => self.retry_count < max,
            None => true,
        }
    }

    /// The delay to wait before the next reconnection attempt.
    pub fn get_retry_delay(&self) -> (r: u64)
        ensures
            r == self.spec_retry_delay(),
    {
        if self.graceful_disconnect {
            match self.server_retry_ms {
                Some(ms) => ms,
                None => DEFAULT_GRACEFUL_RETRY_MS,
            }
        } else {
            self.current_backoff_ms
        }
    }

    /// Double the backoff (capped) after an unexpected disconnection; a
    /// graceful disconnect leaves the backoff untouched.
    pub fn update_backoff(&mut self)
        requires
            old(self).wf(),
        ensures
            final(self).current_backoff_ms == if old(self).graceful_disconnect {
                old(self).current_backoff_ms
            } else {
                spec_bumped_backoff(old(self).current_backoff_ms)
            },
            final(self).session_id == old(self).session_id,
            final(self).options == old(self).options,
            final(self).last_event_id == old(self).last_event_id,
            final(self).server_retry_ms == old(self).server_retry_ms,
            final(self).retry_count == old(self).retry_count,
            final(self).graceful_disconnect == old(self).graceful_disconnect,
            final(self).phase == old(self).phase,
            final(self).wf(),
    {
        if !self.graceful_disconnect {
            let doubled = self.current_backoff_ms * 2;
            self.current_backoff_ms = if doubled <= MAX_RETRY_MS {
                doubled
            } else {
                MAX_RETRY_MS
            };
        }
    }

    /// Reset the backoff and the retry count to their initial values.
    pub fn reset_backoff(&mut self)
        ensures
            final(self).current_backoff_ms == INITIAL_BACKOFF_MS,
            final(self).retry_count == 0,
            final(self).session_id == old(self).session_id,
            final(self).options == old(self).options,
            final(self).last_event_id == old(self).last_event_id,
            final(self).server_retry_ms == old(self).server_retry_ms,
            final(self).graceful_disconnect == old(self).graceful_disconnect,
            final(self).phase == old(self).phase,
            old(self).wf() ==> final(self).wf(),
    {
        self.current_backoff_ms = INITIAL_BACKOFF_MS;
        self.retry_count = 0;
    }

    fn bump_retry_count(&mut self)
        ensures
            final(self).retry_count == spec_bump_count(old(self).retry_count),
            final(self).session_id == old(self).session_id,
            final(self).options == old(self).options,
            final(self).last_event_id == old(self).last_event_id,
            final(self).server_retry_ms == old(self).server_retry_ms,
            final(self).current_backoff_ms == old(self).current_backoff_ms,
            final(self).graceful_disconnect == old(self).graceful_disconnect,
            final(self).phase == old(self).phase,
            old(self).wf() ==> final(self).wf(),
    {
        if self.retry_count < u32::MAX {
            self.retry_count = self.retry_count + 1;
        }
    }

    /// An event was successfully decoded on the open connection: the backoff
    /// and retry count reset, its id becomes the resume cursor, and the event
    /// is passed through to be yielded to the consumer.
    pub fn on_event(&mut self, event: Event) -> (r: Event)
        requires
            old(self).wf(),
            old(self).phase is Connected,
        ensures
            *final(self) == spec_after_event(*old(self), event.id),
            final(self).wf(),
            r == event,
    {
        self.reset_backoff();
        self.last_event_id = Some(event.id.clone());
        event
    }

    /// A disconnection was observed on the open connection: decide whether to
    /// retry, compute the delay, and advance the backoff.
    ///
    /// When the retry ceiling is exhausted, the sequence ends: silently for a
    /// graceful disconnect or a clean stream end, surfacing the error as the
    /// final item for an unexpected drop. A fatal signal always ends the
    /// sequence with its error.
    pub fn on_disconnect(&mut self, signal: DisconnectSignal) -> (step: RetryStep)
        requires
            old(self).wf(),
            old(self).phase is Connected,
        ensures
            final(self).wf(),
            match signal {
                DisconnectSignal::Graceful(hint) => if old(self).spec_should_retry() {
                    *final(self) == spec_after_graceful_retry(*old(self), hint) && step
                        == (RetryStep::Sleep(hint))
                } else {
                    *final(self) == spec_stopped_graceful(*old(self), hint) && step is Done
                },
                DisconnectSignal::Unexpected(e) => if old(self).spec_should_retry() {
                    *final(self) == spec_after_backoff_retry(*old(self)) && step == (RetryStep::Sleep(
                        old(self).current_backoff_ms,
                    ))
                } else {
                    *final(self) == spec_stopped_unexpected(*old(self)) && (step matches
                        RetryStep::Fail(err) && err == e)
                },
                DisconnectSignal::StreamEndedCleanly => if old(self).spec_should_retry() {
                    *final(self) == spec_after_backoff_retry(*old(self)) && step == (RetryStep::Sleep(
                        old(self).current_backoff_ms,
                    ))
                } else {
                    *final(self) == spec_stopped(*old(self)) && step is Done
                },
                DisconnectSignal::Fatal(e) => *final(self) == spec_stopped(*old(self)) && (step
                    matches RetryStep::Fail(err) && err == e),
            },
    {
        match signal {
            DisconnectSignal::Graceful(hint) => {
                self.server_retry_ms = Some(hint);
                self.graceful_disconnect = true;
                if self.should_retry() {
                    self.bump_retry_count();
                    let delay = self.get_retry_delay();
                    self.phase = Phase::AwaitingRetryDelay(delay);
                    RetryStep::Sleep(delay)
                } else {
                    self.phase = Phase::Stopped;
                    RetryStep::Done
                }
            },
            DisconnectSignal::Unexpected(err) => {
                self.graceful_disconnect = false;
                if self.should_retry() {
                    self.bump_retry_count();
                    let delay = self.get_retry_delay();
                    self.update_backoff();
                    self.phase = Phase::AwaitingRetryDelay(delay);
                    RetryStep::Sleep(delay)
                } else {
                    self.phase = Phase::Stopped;
                    RetryStep::Fail(err)
                }
            },
            DisconnectSignal::StreamEndedCleanly => {
                if self.should_retry() {
                    self.bump_retry_count();
                    let delay = self.get_retry_delay();
                    self.update_backoff();
                    self.phase = Phase::AwaitingRetryDelay(delay);
                    RetryStep::Sleep(delay)
                } else {
                    self.phase = Phase::Stopped;
                    RetryStep::Done
                }
            },
            DisconnectSignal::Fatal(err) => {
                self.phase = Phase::Stopped;
                RetryStep::Fail(err)
            },
        }
    }

    /// The retry delay has been waited out: the stream may reconnect.
    pub fn delay_elapsed(&mut self)
        requires
            old(self).wf(),
            old(self).phase matches Phase::AwaitingRetryDelay(_),
        ensures
            *final(self) == spec_after_delay(*old(self)),
            final(self).wf(),
    {
        self.phase = Phase::Connected;
        self.graceful_disconnect = false;
    }

    /// The resume cursor for the next connection.
    pub fn resume_cursor(&self) -> (r: Option<String>)
        ensures
            match self.spec_resume_cursor() {
                Some(c) => r matches Some(s) && s@ == c,
                None => r is None,
            },
    {
        match &self.last_event_id {
            Some(id) => Some(id.clone()),
            None => match &self.options.since_id {
                Some(s) => Some(s.clone()),
                None => None,
            },
        }
    }

    /// The request path of the session's event endpoint.
    pub fn sse_path(&self) -> (r: String)
        ensures
            r@ == "/v1/sessions/"@ + self.session_id@ + "/sse"@,
    {
        let mut path = "/v1/sessions/".to_owned();
        path.append(self.session_id.as_str());
        path.append("/sse");
        path
    }

    /// The query parameters of the next connection: the resume cursor (if
    /// any), then one exclusion parameter per excluded event type.
    pub fn sse_query(&self) -> (r: Vec<(String, String)>)
        ensures
            ({
                let off: int = if self.spec_resume_cursor() is Some { 1 } else { 0 };
                &&& r@.len() == off + self.options.exclude@.len()
                &&& (self.spec_resume_cursor() matches Some(c) ==> r@[0].0@ == "since_id"@
                    && r@[0].1@ == c)
                &&& forall|i: int|
                    0 <= i < self.options.exclude@.len() ==> (#[trigger] r@[off + i]).0@
                        == "exclude"@ && r@[off + i].1@ == self.options.exclude@[i]@
            }),
    {
        let mut pairs: Vec<(String, String)> = Vec::new();
        if let Some(cursor) = self.resume_cursor() {
            pairs.push(("since_id".to_owned(), cursor));
        }
        let ghost off: int = pairs@.len() as int;
        let n = self.options.exclude.len();
        let mut i: usize = 0;
        while i < n
            invariant
                n == self.options.exclude@.len(),
                0 <= i <= n,
                off == if self.spec_resume_cursor() is Some { 1int } else { 0int },
                pairs@.len() == off + i,
                self.spec_resume_cursor() matches Some(c) ==> pairs@[0].0@ == "since_id"@
                    && pairs@[0].1@ == c,
                forall|k: int|
                    0 <= k < i ==> (#[trigger] pairs@[off + k]).0@ == "exclude"@ && pairs@[off
                        + k].1@ == self.options.exclude@[k]@,
            decreases n - i,
        {
            let key = "exclude".to_owned();
            let val = self.options.exclude[i].clone();
            pairs.push((key, val));
            i += 1;
        }
        pairs
    }
}

/// The state after an event is successfully decoded and yielded: the backoff
/// and retry count reset, the event's id becomes the resume cursor.
pub open spec fn spec_after_event(s: EventStream, id: String) -> EventStream {
    EventStream {
        current_backoff_ms: INITIAL_BACKOFF_MS,
        retry_count: 0,
        last_event_id: Some(id),
        ..s
    }
}

/// The state after a graceful disconnect when a retry is permitted: the hint
/// is recorded and waited out; the backoff value is not advanced.
pub open spec fn spec_after_graceful_retry(s: EventStream, hint: u64) -> EventStream {
    EventStream {
        server_retry_ms: Some(hint),
        graceful_disconnect: true,
        retry_count: spec_bump_count(s.retry_count),
        phase: Phase::AwaitingRetryDelay(hint),
        ..s
    }
}

/// The state after an unexpected drop or a clean stream end when a retry is
/// permitted: the current backoff is waited out and then doubled (capped) for
/// the next failure.
pub open spec fn spec_after_backoff_retry(s: EventStream) -> EventStream {
    EventStream {
        graceful_disconnect: false,
        retry_count: spec_bump_count(s.retry_count),
        current_backoff_ms: spec_bumped_backoff(s.current_backoff_ms),
        phase: Phase::AwaitingRetryDelay(s.current_backoff_ms),
        ..s
    }
}

/// The state after a retry delay has been waited out.
pub open spec fn spec_after_delay(s: EventStream) -> EventStream {
    EventStream { phase: Phase::Connected, graceful_disconnect: false, ..s }
}

/// The state after the stream terminates with no retry permitted.
pub open spec fn spec_stopped(s: EventStream) -> EventStream {
    EventStream { phase: Phase::Stopped, ..s }
}

/// As `spec_stopped`, for a graceful disconnect (the hint is still recorded).
pub open spec fn spec_stopped_graceful(s: EventStream, hint: u64) -> EventStream {
    EventStream {
        server_retry_ms: Some(hint),
        graceful_disconnect: true,
        phase: Phase::Stopped,
        ..s
    }
}

/// As `spec_stopped`, for an unexpected drop.
pub open spec fn spec_stopped_unexpected(s: EventStream) -> EventStream {
    EventStream { graceful_disconnect: false, phase: Phase::Stopped, ..s }
}

/// One full unexpected-failure cycle: the disconnect is observed, the delay
/// waited out, and the connection reopened.
pub open spec fn spec_retry_cycle(s: EventStream) -> EventStream {
    spec_after_delay(spec_after_backoff_retry(s))
}

/// The state after `n` consecutive unexpected-failure cycles.
pub open spec fn spec_after_n_retry_cycles(s: EventStream, n: nat) -> EventStream
    decreases n,
{
    if n == 0 {
        s
    } else {
        spec_retry_cycle(spec_after_n_retry_cycles(s, (n - 1) as nat))
    }
}

/// The backoff value after `n` cappings, starting from `b0`.
pub open spec fn backoff_after(b0: int, n: nat) -> int
    decreases n,
{
    if n == 0 {
        b0
    } else {
        let prev = backoff_after(b0, (n - 1) as nat);
        min(2 * prev, MAX_RETRY_MS as int)
    }
}

/// The capped doubling sequence has the closed form min(b0 · 2^n, cap).
pub proof fn lemma_backoff_closed_form(b0: int, n: nat)
    requires
        0 < b0 <= MAX_RETRY_MS as int,
    ensures
        backoff_after(b0, n) == min(b0 * pow2(n) as int, MAX_RETRY_MS as int),
    decreases n,
{
    if n == 0 {
        lemma2_to64();
    } else {
        let m = (n - 1) as nat;
        lemma_backoff_closed_form(b0, m);
        lemma_pow2_unfold(n);
        lemma_pow2_pos(m);
        let p = pow2(m) as int;
        assert(b0 * pow2(n) as int == 2 * (b0 * p)) by (nonlinear_arith)
            requires
                pow2(n) == 2 * pow2(m),
                p == pow2(m) as int,
        ;
        assert(b0 * p >= b0 > 0) by (nonlinear_arith)
            requires
                p > 0,
                b0 > 0,
        ;
    }
}

/// For any run of consecutive unexpected disconnects from a well-formed
/// connected state: after n full failure cycles the machine is still
/// well-formed and connected, and its backoff — which, by the contract of
/// `on_disconnect`, is exactly the delay the (n+1)th failure will be given —
/// equals min(B · 2^n, C), where B is the backoff at the start of the run and
/// C the cap. In particular the nth failure of the run sleeps
/// min(B · 2^(n-1), C).
pub proof fn lemma_unexpected_delay_sequence(s: EventStream, n: nat)
    requires
        s.wf(),
        s.phase is Connected,
    ensures
        spec_after_n_retry_cycles(s, n).wf(),
        spec_after_n_retry_cycles(s, n).phase is Connected,
        spec_after_n_retry_cycles(s, n).current_backoff_ms as int == min(
            s.current_backoff_ms as int * pow2(n) as int,
            MAX_RETRY_MS as int,
        ),
        spec_after_n_retry_cycles(s, n).last_event_id == s.last_event_id,
        spec_after_n_retry_cycles(s, n).options == s.options,
    decreases n,
{
    lemma_backoff_closed_form(s.current_backoff_ms as int, n);
    if n != 0 {
        let m = (n - 1) as nat;
        lemma_unexpected_delay_sequence(s, m);
        lemma_backoff_closed_form(s.current_backoff_ms as int, m);
    }
}

/// Across consecutive unexpected failures the backoff never decreases: each
/// failure leaves it doubled or at its cap, and only a successfully yielded
/// event resets it.
pub proof fn lemma_backoff_monotone(s: EventStream)
    requires
        s.wf(),
    ensures
        spec_after_backoff_retry(s).current_backoff_ms >= s.current_backoff_ms,
{
}

/// After any successfully yielded event the policy is fully reset: whatever
/// the prior retry count and backoff, the delay the next unexpected failure
/// is given equals the initial backoff.
pub proof fn lemma_delay_resets_after_event(s: EventStream, id: String)
    requires
        s.wf(),
        s.phase is Connected,
    ensures
        spec_after_event(s, id).spec_retry_delay() == INITIAL_BACKOFF_MS,
        spec_after_event(s, id).retry_count == 0,
{
}

/// A graceful disconnect is delayed by the server-supplied hint, not by the
/// exponential backoff value, and does not advance the backoff: the next
/// unexpected failure is delayed exactly as it would have been without the
/// graceful disconnect.
pub proof fn lemma_graceful_uses_hint(s: EventStream, hint: u64)
    requires
        s.wf(),
        s.phase is Connected,
    ensures
        spec_after_graceful_retry(s, hint).spec_retry_delay() == hint,
        spec_after_graceful_retry(s, hint).current_backoff_ms == s.current_backoff_ms,
        spec_after_delay(spec_after_graceful_retry(s, hint)).spec_retry_delay()
            == s.current_backoff_ms,
{
}

/// With a retry ceiling of zero, no disconnect is ever retried: the first
/// disconnect terminates the sequence at once.
pub proof fn lemma_zero_ceiling_never_retries(s: EventStream)
    requires
        s.options.max_retries == Some(0u32),
    ensures
        !s.spec_should_retry(),
{
}

/// Resumption prefers the most recently observed event id: once an event has
/// been yielded, the next connection resumes from its id, not from the
/// caller-supplied cursor.
pub proof fn lemma_resume_prefers_observed(s: EventStream, id: String)
    ensures
        spec_after_event(s, id).spec_resume_cursor() == Some(id@),
{
}

} // verus!
