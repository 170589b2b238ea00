//! Tests for the resilient stream state machine: backoff, retry hints,
//! the retry ceiling, resumption, and stopping.

use everruns_sdk::decode::{classify_message, DisconnectSignal, MessageAction};
use everruns_sdk::error::Error;
use everruns_sdk::models::Event;
use everruns_sdk::options::StreamOptions;
use everruns_sdk::stream::{EventStream, Phase, RetryStep};

const INITIAL_BACKOFF_MS: u64 = 1000;
const MAX_RETRY_MS: u64 = 30_000;

fn event_with_id(id: &str) -> Event {
    let json = format!(
        r#"{{"id": "{}", "type": "turn.started", "ts": "2024-01-01T00:00:00Z", "session_id": "s1", "data": {{}}}}"#,
        id
    );
    match classify_message("message", &json) {
        MessageAction::Deliver(e) => e,
        other => panic!("expected a delivered event, got {:?}", other),
    }
}

fn sleep_ms(step: RetryStep) -> u64 {
    match step {
        RetryStep::Sleep(ms) => ms,
        other => panic!("expected a sleep, got {:?}", other),
    }
}

#[test]
fn test_exponential_backoff_sequence() {
    let mut backoff = INITIAL_BACKOFF_MS;
    let expected = vec![1000, 2000, 4000, 8000, 16000, 30000, 30000];

    for expected_val in expected {
        assert_eq!(backoff, expected_val);
        backoff = (backoff * 2).min(MAX_RETRY_MS);
    }
}

#[test]
fn test_backoff_caps_at_max() {
    let mut backoff = INITIAL_BACKOFF_MS;

    for _ in 0..20 {
        backoff = (backoff * 2).min(MAX_RETRY_MS);
    }

    assert_eq!(backoff, MAX_RETRY_MS);
}

/// The nth consecutive unexpected disconnect sleeps min(B * 2^(n-1), C).
#[test]
fn test_stream_backoff_delay_sequence() {
    let mut s = EventStream::new("s1".to_string(), StreamOptions::new());
    let expected = [1000u64, 2000, 4000, 8000, 16000, 30000, 30000, 30000];
    for (n, want) in expected.iter().enumerate() {
        let step = s.on_disconnect(DisconnectSignal::Unexpected(Error::Sse("drop".to_string())));
        assert_eq!(sleep_ms(step), *want, "delay of failure {}", n + 1);
        s.delay_elapsed();
    }
    assert_eq!(s.retry_count(), 8);
}

/// A clean stream end (idle timeout) is retried with the same backoff growth.
#[test]
fn test_stream_ended_retried_like_unexpected() {
    let mut s = EventStream::new("s1".to_string(), StreamOptions::new());
    assert_eq!(sleep_ms(s.on_disconnect(DisconnectSignal::StreamEndedCleanly)), 1000);
    s.delay_elapsed();
    assert_eq!(sleep_ms(s.on_disconnect(DisconnectSignal::StreamEndedCleanly)), 2000);
    s.delay_elapsed();
    assert_eq!(s.current_backoff_ms, 4000);
}

/// After a successfully yielded event the next failure's delay resets to the
/// initial backoff, whatever came before.
#[test]
fn test_backoff_resets_after_event() {
    let mut s = EventStream::new("s1".to_string(), StreamOptions::new());
    for _ in 0..5 {
        s.on_disconnect(DisconnectSignal::Unexpected(Error::Sse("drop".to_string())));
        s.delay_elapsed();
    }
    assert_eq!(s.current_backoff_ms, 30000);
    assert_eq!(s.retry_count(), 5);

    let e = s.on_event(event_with_id("e42"));
    assert_eq!(e.id, "e42");
    assert_eq!(s.retry_count(), 0);
    assert_eq!(s.current_backoff_ms, INITIAL_BACKOFF_MS);

    let step = s.on_disconnect(DisconnectSignal::Unexpected(Error::Sse("drop".to_string())));
    assert_eq!(sleep_ms(step), INITIAL_BACKOFF_MS);
}

/// A graceful disconnect sleeps the server hint and does not advance the
/// backoff counter.
#[test]
fn test_graceful_uses_hint_and_keeps_backoff() {
    let mut s = EventStream::new("s1".to_string(), StreamOptions::new());
    // Grow the backoff to 4000 with two unexpected drops.
    s.on_disconnect(DisconnectSignal::Unexpected(Error::Sse("drop".to_string())));
    s.delay_elapsed();
    s.on_disconnect(DisconnectSignal::Unexpected(Error::Sse("drop".to_string())));
    s.delay_elapsed();
    assert_eq!(s.current_backoff_ms, 4000);

    let step = s.on_disconnect(DisconnectSignal::Graceful(250));
    assert_eq!(sleep_ms(step), 250);
    assert_eq!(s.current_backoff_ms, 4000);
    s.delay_elapsed();

    // The next unexpected failure still sees the undisturbed backoff value.
    let step = s.on_disconnect(DisconnectSignal::Unexpected(Error::Sse("drop".to_string())));
    assert_eq!(sleep_ms(step), 4000);
}

/// Server sends a disconnecting notice with retry_ms = 250: the stream
/// reconnects after 250 ms, not after the exponential backoff value.
#[test]
fn test_disconnecting_notice_drives_reconnect_delay() {
    let mut s = EventStream::new("s1".to_string(), StreamOptions::new());
    let action =
        classify_message("disconnecting", r#"{"reason":"connection_cycle","retry_ms":250}"#);
    let hint = match action {
        MessageAction::Disconnect(ms) => ms,
        other => panic!("expected a disconnect, got {:?}", other),
    };
    let step = s.on_disconnect(DisconnectSignal::Graceful(hint));
    assert_eq!(sleep_ms(step), 250);
    assert_eq!(s.phase, Phase::AwaitingRetryDelay(250));
}

/// A malformed disconnecting payload still reconnects gracefully with the
/// short default delay.
#[test]
fn test_malformed_disconnecting_payload_default_delay() {
    let mut s = EventStream::new("s1".to_string(), StreamOptions::new());
    let hint = match classify_message("disconnecting", "{broken") {
        MessageAction::Disconnect(ms) => ms,
        other => panic!("expected a disconnect, got {:?}", other),
    };
    let step = s.on_disconnect(DisconnectSignal::Graceful(hint));
    assert_eq!(sleep_ms(step), 100);
}

/// With max_retries = 0 the first disconnect terminates the sequence with no
/// reconnection attempt; an unexpected drop surfaces its error as the final
/// item.
#[test]
fn test_zero_max_retries_stops_immediately() {
    let mut s = EventStream::new("s1".to_string(), StreamOptions::new().with_max_retries(0));
    let step = s.on_disconnect(DisconnectSignal::StreamEndedCleanly);
    assert!(matches!(step, RetryStep::Done));
    assert_eq!(s.phase, Phase::Stopped);
    assert_eq!(s.retry_count(), 0);

    let mut s = EventStream::new("s1".to_string(), StreamOptions::new().with_max_retries(0));
    let step = s.on_disconnect(DisconnectSignal::Unexpected(Error::Sse("boom".to_string())));
    match step {
        RetryStep::Fail(Error::Sse(msg)) => assert_eq!(msg, "boom"),
        other => panic!("expected the error as the final item, got {:?}", other),
    }
    assert_eq!(s.phase, Phase::Stopped);
}

/// The retry ceiling counts attempts: with max_retries = 2, the third
/// disconnect ends the sequence.
#[test]
fn test_retry_ceiling_exhaustion() {
    let mut s = EventStream::new("s1".to_string(), StreamOptions::new().with_max_retries(2));
    assert!(matches!(s.on_disconnect(DisconnectSignal::StreamEndedCleanly), RetryStep::Sleep(_)));
    s.delay_elapsed();
    assert!(matches!(s.on_disconnect(DisconnectSignal::StreamEndedCleanly), RetryStep::Sleep(_)));
    s.delay_elapsed();
    assert!(matches!(s.on_disconnect(DisconnectSignal::StreamEndedCleanly), RetryStep::Done));
    assert_eq!(s.phase, Phase::Stopped);
}

/// A fatal signal ends the sequence at once with its error, retries or not.
#[test]
fn test_fatal_signal_ends_sequence() {
    let mut s = EventStream::new("s1".to_string(), StreamOptions::new());
    let step = s.on_disconnect(DisconnectSignal::Fatal(Error::Auth("bad key".to_string())));
    match step {
        RetryStep::Fail(Error::Auth(msg)) => assert_eq!(msg, "bad key"),
        other => panic!("expected the error as the final item, got {:?}", other),
    }
    assert_eq!(s.phase, Phase::Stopped);
}

/// Resumption prefers the latest observed event id over the caller-supplied
/// cursor.
#[test]
fn test_resume_prefers_observed_id() {
    let mut s = EventStream::new(
        "s1".to_string(),
        StreamOptions::new().with_since_id("e10"),
    );
    assert_eq!(s.resume_cursor(), Some("e10".to_string()));

    s.on_event(event_with_id("e17"));
    assert_eq!(s.resume_cursor(), Some("e17".to_string()));
    assert_eq!(s.last_event_id(), Some("e17"));
}

/// Events e1..e5 arrive, the connection drops unexpectedly, the stream asks
/// to sleep the initial backoff and resumes from e5; e6 then resets the
/// backoff for any future failure.
#[test]
fn test_drop_resume_and_reset_scenario() {
    let mut s = EventStream::new("s1".to_string(), StreamOptions::new());
    for id in ["e1", "e2", "e3", "e4", "e5"] {
        let e = s.on_event(event_with_id(id));
        assert_eq!(e.id, id);
    }
    assert_eq!(s.resume_cursor(), Some("e5".to_string()));

    let step = s.on_disconnect(DisconnectSignal::Unexpected(Error::Sse("drop".to_string())));
    assert_eq!(sleep_ms(step), 1000);
    s.delay_elapsed();
    assert_eq!(s.resume_cursor(), Some("e5".to_string()));

    s.on_event(event_with_id("e6"));
    assert_eq!(s.current_backoff_ms, INITIAL_BACKOFF_MS);
    assert_eq!(s.retry_count(), 0);
    assert_eq!(s.resume_cursor(), Some("e6".to_string()));
}

/// An explicit stop while a long backoff delay is pending ends the sequence
/// at once: the pending delay is abandoned, no further retry is permitted.
#[test]
fn test_stop_cancels_pending_delay() {
    let mut s = EventStream::new("s1".to_string(), StreamOptions::new());
    let mut last_delay = 0u64;
    for _ in 0..6 {
        last_delay = sleep_ms(
            s.on_disconnect(DisconnectSignal::Unexpected(Error::Sse("drop".to_string()))),
        );
        if last_delay < MAX_RETRY_MS {
            s.delay_elapsed();
        }
    }
    assert_eq!(last_delay, 30000);
    assert_eq!(s.phase, Phase::AwaitingRetryDelay(30000));

    s.stop();
    assert_eq!(s.phase, Phase::Stopped);
    assert!(!s.should_retry());
}

/// Stopping from a connected state also prevents any further reconnection.
#[test]
fn test_stop_prevents_reconnection() {
    let mut s = EventStream::new("s1".to_string(), StreamOptions::new());
    s.stop();
    assert_eq!(s.phase, Phase::Stopped);
    assert!(!s.should_retry());
}

/// The request path and query parameters of the next connection.
#[test]
fn test_sse_path_and_query() {
    let opts = StreamOptions::new()
        .with_exclude(vec!["a.delta".to_string(), "b.delta".to_string()]);
    let mut s = EventStream::new("sess_1".to_string(), opts);
    assert_eq!(s.sse_path(), "/v1/sessions/sess_1/sse");
    let pairs = s.sse_query();
    assert_eq!(
        pairs,
        vec![
            ("exclude".to_string(), "a.delta".to_string()),
            ("exclude".to_string(), "b.delta".to_string()),
        ]
    );

    s.on_event(event_with_id("e5"));
    let pairs = s.sse_query();
    assert_eq!(
        pairs,
        vec![
            ("since_id".to_string(), "e5".to_string()),
            ("exclude".to_string(), "a.delta".to_string()),
            ("exclude".to_string(), "b.delta".to_string()),
        ]
    );
}
