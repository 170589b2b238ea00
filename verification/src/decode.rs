//! Decoding of raw server messages: typed events, the reserved control
//! messages, and the classification of disconnections.

use vstd::prelude::*;
use vstd::string::StrSliceExecFns;

use crate::error::Error;
use crate::models::{Event, EventContext, EventFields};
use crate::DEFAULT_GRACEFUL_RETRY_MS;

verus! {

/// Data carried by a graceful-disconnect notice.
#[derive(Debug, Clone)]
pub struct DisconnectingData {
    /// Reason for disconnection (e.g. `connection_cycle`).
    pub reason: String,
    /// Suggested retry delay in milliseconds.
    pub retry_ms: u64,
}

/// What a graceful-disconnect payload `{"reason": .., "retry_ms": ..}` holds:
/// the reason string and the retry hint, or nothing when the payload is not of
/// that shape.
pub uninterp spec fn disconnect_payload_of(s: Seq<char>) -> Option<(Seq<char>, u64)>;

/// What an event envelope `{"id", "type", "ts", "session_id", "data",
/// "context"?}` holds: its plain fields, or nothing when the text is not of
/// that shape.
pub uninterp spec fn event_fields_of(s: Seq<char>) -> Option<EventFields>;

impl DisconnectingData {
    /// Relies on serde_json::from_str and Value::{get, as_str, as_u64}: parses
    /// a graceful-disconnect payload and extracts the reason string and the
    /// `retry_ms` integer.
    #[verifier::external_body]
    pub fn parse(data: &str) -> (r: Option<DisconnectingData>)
        ensures
            match r {
                Some(d) => disconnect_payload_of(data@) == Some((d.reason@, d.retry_ms)),
                None => disconnect_payload_of(data@) is None,
            },
    {
        let v: serde_json::Value = serde_json::from_str(data).ok()?;
        let reason = v.get("reason")?.as_str()?.to_string();
        let retry_ms = v.get("retry_ms")?.as_u64()?;
        Some(DisconnectingData { reason, retry_ms })
    }
}

/// Relies on serde_json::from_str and Value::{get, as_str, clone}: parses an
/// event envelope and extracts its plain fields and its opaque payload.
#[verifier::external_body]
fn parse_event_text(data: &str) -> (r: Option<Event>)
    ensures
        match r {
            Some(e) => event_fields_of(data@) == Some(e.fields()),
            None => event_fields_of(data@) is None,
        },
{
    let v: serde_json::Value = serde_json::from_str(data).ok()?;
    let ctx = v.get("context");
    Some(Event {
        id: v.get("id")?.as_str()?.to_string(),
        event_type: v.get("type")?.as_str()?.to_string(),
        ts: v.get("ts")?.as_str()?.to_string(),
        session_id: v.get("session_id")?.as_str()?.to_string(),
        data: v.get("data")?.clone(),
        context: EventContext {
            turn_id: ctx.and_then(|c| c.get("turn_id")?.as_str()).map(str::to_string),
            input_message_id: ctx.and_then(|c| c.get("input_message_id")?.as_str()).map(str::to_string),
        },
    })
}

/// A disconnection, classified. Produced by the classifier, consumed by the
/// reconnection policy.
#[derive(Debug)]
pub enum DisconnectSignal {
    /// Server-initiated, intentional termination with a retry hint in
    /// milliseconds.
    Graceful(u64),
    /// Unexpected drop: a transport or connection-establishment error.
    Unexpected(Error),
    /// The source was exhausted without an error (typically the idle-read
    /// timeout); always retried.
    StreamEndedCleanly,
    /// An error that must not be retried. Never produced by the classifier in
    /// normal operation; the policy ends the stream at once on it.
    Fatal(Error),
}

/// What to do with one raw server message.
#[derive(Debug)]
pub enum MessageAction {
    /// A reserved connection-establishment acknowledgment; never surfaced.
    Ignore,
    /// A message whose payload is not a well-formed event; dropped, the
    /// stream continues.
    Skip,
    /// A decoded event, to be yielded to the consumer.
    Deliver(Event),
    /// A reserved graceful-disconnect notice with its retry hint in
    /// milliseconds.
    Disconnect(u64),
}

/// The retry hint a graceful-disconnect payload yields: the server-supplied
/// `retry_ms` when the payload parses, the short default otherwise.
pub open spec fn spec_graceful_hint(data: Seq<char>) -> u64 {
    match disconnect_payload_of(data) {
        Some(p) => p.1,
        None => DEFAULT_GRACEFUL_RETRY_MS,
    }
}

/// A malformed graceful-disconnect payload still yields a graceful reconnect:
/// the hint the classifier hands to the policy is the short default, and no
/// error is surfaced.
pub proof fn lemma_malformed_graceful_payload_defaults(data: Seq<char>)
    requires
        disconnect_payload_of(data) is None,
    ensures
        spec_graceful_hint(data) == DEFAULT_GRACEFUL_RETRY_MS,
{
}

fn str_eq(a: &str, b: &str) -> (r: bool)
    ensures
        r == (a@ == b@),
{
    let n = a.unicode_len();
    if n != b.unicode_len() {
        return false;
    }
    for i in 0..n
        invariant
            n == a@.len(),
            n == b@.len(),
            forall|j: int| 0 <= j < i ==> a@[j] == b@[j],
    {
        if a.get_char(i) != b.get_char(i) {
            return false;
        }
    }
    proof {
        assert(a@ =~= b@);
    }
    true
}

/// Classify one raw server message by its label: the two reserved control
/// labels are intercepted and never surfaced as events; any other message is
/// decoded as an event envelope or dropped.
pub fn classify_message(label: &str, data: &str) -> (r: MessageAction)
    ensures
        label@ == "connected"@ ==> r is Ignore,
        label@ == "disconnecting"@ ==> (r matches MessageAction::Disconnect(ms) && ms
            == spec_graceful_hint(data@)),
        label@ != "connected"@ && label@ != "disconnecting"@ ==> match event_fields_of(data@) {
            Some(f) => r matches MessageAction::Deliver(e) && e.fields() == f,
            None => r is Skip,
        },
{
    proof {
        reveal_strlit("connected");
        reveal_strlit("disconnecting");
        assert("connected"@.len() == 9);
        assert("disconnecting"@.len() == 13);
        assert("connected"@ != "disconnecting"@);
    }
    if str_eq(label, "connected") {
        MessageAction::Ignore
    } else if str_eq(label, "disconnecting") {
        let hint = match DisconnectingData::parse(data) {
            Some(d) => d.retry_ms,
            None => DEFAULT_GRACEFUL_RETRY_MS,
        };
        MessageAction::Disconnect(hint)
    } else {
        match parse_event_text(data) {
            Some(e) => MessageAction::Deliver(e),
            None => MessageAction::Skip,
        }
    }
}

/// Classify the end of a connection: a transport error is an unexpected drop;
/// exhaustion without an error is a clean stream end, which is always retried.
pub fn classify_termination(error: Option<String>) -> (r: DisconnectSignal)
    ensures
        match error {
            Some(msg) => (r matches DisconnectSignal::Unexpected(e) && e matches Error::Sse(m)
                && m == msg),
            None => r is StreamEndedCleanly,
        },
{
    match error {
        Some(msg) => DisconnectSignal::Unexpected(Error::Sse(msg)),
        None => DisconnectSignal::StreamEndedCleanly,
    }
}

} // verus!
