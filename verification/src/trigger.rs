//! Which inbound messages start a generation request, and with what prompt.

use crate::text::{chars_of, starts_with, trim_bounds, trimmed};
use vstd::prelude::*;
use vstd::string::*;

verus! {

/// What is asked of the generator, and where the question came from. It is
/// made once and never changed.
#[derive(Debug, PartialEq, Eq)]
pub struct GenerationRequest {
    prompt: String,
    channel_id: u64,
    message_id: u64,
}

/// A [`GenerationRequest`] as mathematical values.
pub struct GenerationRequestView {
    pub prompt: Seq<char>,
    pub channel_id: u64,
    pub message_id: u64,
}

impl View for GenerationRequest {
    type V = GenerationRequestView;

    closed spec fn view(&self) -> GenerationRequestView {
        GenerationRequestView {
            prompt: self.prompt@,
            channel_id: self.channel_id,
            message_id: self.message_id,
        }
    }
}

impl GenerationRequest {
    /// The text to send to the generator.
    pub fn prompt(&self) -> (prompt: &str)
        ensures
            prompt@ == self@.prompt,
    {
        self.prompt.as_str()
    }

    /// The channel in which the message was written.
    pub fn channel_id(&self) -> (id: u64)
        ensures
            id == self@.channel_id,
    {
        self.channel_id
    }

    /// The message that asked.
    pub fn message_id(&self) -> (id: u64)
        ensures
            id == self@.message_id,
    {
        self.message_id
    }
}

/// A message starts a request when its author is no bot and its content
/// begins with the trigger prefix.
pub open spec fn triggers(author_is_bot: bool, content: Seq<char>, prefix: Seq<char>) -> bool {
    !author_is_bot && prefix.is_prefix_of(content)
}

/// The prompt of a message that begins with `prefix`: what follows the
/// prefix, without the whitespace around it.
pub open spec fn prompt_of(content: Seq<char>, prefix: Seq<char>) -> Seq<char> {
    trimmed(content.skip(prefix.len() as int))
}

/// Whether a message starts a generation request.
pub fn should_process_message(author_is_bot: bool, content: &str, prefix: &str) -> (accepted: bool)
    ensures
        accepted == triggers(author_is_bot, content@, prefix@),
{
    !author_is_bot && starts_with(&chars_of(content), &chars_of(prefix))
}

/// The request that a message starts, if it starts one.
pub fn accept(
    author_is_bot: bool,
    content: &str,
    prefix: &str,
    channel_id: u64,
    message_id: u64,
) -> (request: Option<GenerationRequest>)
    ensures
        request is Some <==> triggers(author_is_bot, content@, prefix@),
        request matches Some(r) ==> r@ == (GenerationRequestView {
            prompt: prompt_of(content@, prefix@),
            channel_id,
            message_id,
        }),
{
    if author_is_bot {
        return None;
    }
    let text = chars_of(content);
    let marker = chars_of(prefix);
    if !starts_with(&text, &marker) {
        return None;
    }
    let (start, end) = trim_bounds(&text, marker.len());
    let prompt = content.substring_char(start, end).to_owned();
    Some(GenerationRequest { prompt, channel_id, message_id })
}

} // verus!
