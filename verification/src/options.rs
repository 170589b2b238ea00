//! Options supplied once when a resilient event stream is constructed.

use vstd::prelude::*;

verus! {

/// Options for streaming events from a session.
///
/// Immutable per stream instance: an exclusion set of event-type strings,
/// an optional starting resume cursor, and an optional retry ceiling
/// (`None` means reconnection is unbounded).
#[derive(Debug, Clone)]
#[non_exhaustive]
pub struct StreamOptions {
    /// Event types to exclude from the stream.
    pub exclude: Vec<String>,
    /// Resume from a specific event id.
    pub since_id: Option<String>,
    /// Maximum number of reconnection attempts (`None` = unlimited).
    pub max_retries: Option<u32>,
}

impl StreamOptions {
    /// True when no exclusions, no resume cursor and no retry ceiling are set.
    pub open spec fn is_default(self) -> bool {
        self.exclude@.len() == 0 && self.since_id is None && self.max_retries is None
    }

    /// Create new empty stream options.
    pub fn new() -> (r: Self)
        ensures
            r.is_default(),
    {
        StreamOptions { exclude: Vec::new(), since_id: None, max_retries: None }
    }

    /// Create options that exclude delta events (for reduced bandwidth).
    pub fn exclude_deltas() -> (r: Self)
        ensures
            r.exclude@.len() == 2,
            r.exclude@[0]@ == "output.message.delta"@,
            r.exclude@[1]@ == "reason.thinking.delta"@,
            r.since_id is None,
            r.max_retries is None,
    {
        let mut exclude: Vec<String> = Vec::new();
        exclude.push("output.message.delta".to_owned());
        exclude.push("reason.thinking.delta".to_owned());
        StreamOptions { exclude, since_id: None, max_retries: None }
    }

    /// Set the event types to exclude.
    pub fn with_exclude(self, exclude: Vec<String>) -> (r: Self)
        ensures
            r.exclude == exclude,
            r.since_id == self.since_id,
            r.max_retries == self.max_retries,
    {
        StreamOptions { exclude, ..self }
    }

    /// Set the resume cursor for resuming a stream.
    pub fn with_since_id(self, since_id: &str) -> (r: Self)
        ensures
            r.since_id matches Some(id) && id@ == since_id@,
            r.exclude == self.exclude,
            r.max_retries == self.max_retries,
    {
        StreamOptions { since_id: Some(since_id.to_owned()), ..self }
    }

    /// Set the maximum number of reconnection attempts.
    pub fn with_max_retries(self, max_retries: u32) -> (r: Self)
        ensures
            r.max_retries == Some(max_retries),
            r.exclude == self.exclude,
            r.since_id == self.since_id,
    {
        StreamOptions { max_retries: Some(max_retries), ..self }
    }
}

impl Default for StreamOptions {
    /// Empty options: no exclusions, no resume cursor, unlimited retries.
    fn default() -> (r: Self)
        ensures
            r.is_default(),
    {
        StreamOptions::new()
    }
}

} // verus!
