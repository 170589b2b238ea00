//! A typed client library for a conversational-agent API, centred on a
//! resilient server-sent-event stream: decoding typed events, classifying
//! disconnections, and reconnecting with exponential backoff, server retry
//! hints, bounded retries, and resumption from the last observed event id.

use vstd::prelude::*;

pub mod auth;
pub mod decode;
pub mod error;
pub mod models;
pub mod options;
pub mod stream;

pub use auth::ApiKey;
pub use decode::{DisconnectSignal, DisconnectingData, MessageAction};
pub use error::{ApiErrorDetail, ApiErrorResponse, Error};
pub use models::{
    Agent, AgentStatus, ContentPart, CreateAgentRequest, CreateSessionRequest, Event, EventContext,
    ListResponse, Message, MessageInput, MessageRole, Session, SessionStatus, TokenUsage,
};
pub use options::StreamOptions;
pub use stream::{EventStream, Phase, RetryStep};

verus! {

/// Initial delay, in milliseconds, for the exponential backoff that follows
/// an unexpected disconnection.
pub const INITIAL_BACKOFF_MS: u64 = 1000;

/// Cap, in milliseconds, on the exponential backoff delay.
pub const MAX_RETRY_MS: u64 = 30_000;

/// Default retry delay, in milliseconds, when a graceful disconnect notice
/// carries no readable retry hint.
pub const DEFAULT_GRACEFUL_RETRY_MS: u64 = 100;

} // verus!
