//! The settings under which messages are handled.

use crate::error::Error;
use crate::trigger::{accept, prompt_of, triggers, GenerationRequest, GenerationRequestView};
use vstd::prelude::*;

verus! {

/// The flush interval that is used where none is given, in milliseconds.
pub const DEFAULT_FLUSH_INTERVAL_MS: u64 = 500;

/// The shortest flush interval that is recommended, in milliseconds.
pub const SHORTEST_RECOMMENDED_INTERVAL_MS: u64 = 500;

/// The longest flush interval that is recommended, in milliseconds.
pub const LONGEST_RECOMMENDED_INTERVAL_MS: u64 = 900;

/// Decides which messages are answered, and how often the answer is
/// published while it streams in.
#[derive(Debug)]
pub struct Handler {
    prefix: String,
    flush_interval_ms: u64,
}

/// A [`Handler`] as mathematical values.
pub struct HandlerView {
    pub prefix: Seq<char>,
    pub flush_interval_ms: u64,
}

impl HandlerView {
    /// A prefix marks something, and a timer has a period.
    pub open spec fn valid(self) -> bool {
        self.prefix.len() > 0 && self.flush_interval_ms > 0
    }

    /// The interval is neither so short that the sink is flooded with edits
    /// nor so long that the reply appears in jumps.
    pub open spec fn recommended(self) -> bool {
        SHORTEST_RECOMMENDED_INTERVAL_MS <= self.flush_interval_ms
            <= LONGEST_RECOMMENDED_INTERVAL_MS
    }
}

impl View for Handler {
    type V = HandlerView;

    closed spec fn view(&self) -> HandlerView {
        HandlerView { prefix: self.prefix@, flush_interval_ms: self.flush_interval_ms }
    }
}

impl Handler {
    /// A handler that answers the messages that begin with `prefix` and
    /// publishes every `flush_interval_ms` milliseconds.
    pub fn new(prefix: &str, flush_interval_ms: u64) -> (handler: Result<Handler, Error>)
        ensures
            match handler {
                Ok(h) => h@ == (HandlerView { prefix: prefix@, flush_interval_ms }) && h@.valid(),
                Err(e) => e == Error::Configuration && !(HandlerView {
                    prefix: prefix@,
                    flush_interval_ms,
                }).valid(),
            },
    {
        if prefix.is_empty() || flush_interval_ms == 0 {
            Err(Error::Configuration)
        } else {
            Ok(Handler { prefix: prefix.to_owned(), flush_interval_ms })
        }
    }

    /// The trigger prefix.
    pub fn prefix(&self) -> (prefix: &str)
        ensures
            prefix@ == self@.prefix,
    {
        self.prefix.as_str()
    }

    /// The period of the flush timer, in milliseconds.
    pub fn flush_interval_ms(&self) -> (ms: u64)
        ensures
            ms == self@.flush_interval_ms,
    {
        self.flush_interval_ms
    }

    /// Whether the flush interval lies in the recommended range.
    pub fn interval_is_recommended(&self) -> (recommended: bool)
        ensures
            recommended == self@.recommended(),
    {
        SHORTEST_RECOMMENDED_INTERVAL_MS <= self.flush_interval_ms && self.flush_interval_ms
            <= LONGEST_RECOMMENDED_INTERVAL_MS
    }

    /// The request that an inbound message starts, if it starts one: none
    /// for a bot's message, none for a message without the trigger prefix.
    pub fn message(
        &self,
        author_is_bot: bool,
        content: &str,
        channel_id: u64,
        message_id: u64,
    ) -> (request: Option<GenerationRequest>)
        ensures
            request is Some <==> triggers(author_is_bot, content@, self@.prefix),
            request matches Some(r) ==> r@ == (GenerationRequestView {
                prompt: prompt_of(content@, self@.prefix),
                channel_id,
                message_id,
            }),
    {
        accept(author_is_bot, content, self.prefix.as_str(), channel_id, message_id)
    }
}

impl Default for Handler {
    /// The prefix `.` and the default interval.
    fn default() -> (handler: Handler)
        ensures
            handler@ == (HandlerView {
                prefix: "."@,
                flush_interval_ms: DEFAULT_FLUSH_INTERVAL_MS,
            }),
            handler@.valid(),
            handler@.recommended(),
    {
        proof {
            reveal_strlit(".");
        }
        Handler { prefix: ".".to_owned(), flush_interval_ms: DEFAULT_FLUSH_INTERVAL_MS }
    }
}

} // verus!
