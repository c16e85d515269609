//! Relays a chat message to a text generator and streams the reply back
//! into one chat message that is edited in place.
//!
//! The library decides; it performs no I/O. A [`Handler`] picks the messages
//! that start a request, and a [`Relay`] turns the events of one request
//! (fragments, timer ticks, the sink's answers) into the edits to perform.

pub mod error;
pub mod handler;
pub mod laws;
pub mod relay;
pub mod text;
pub mod trigger;

pub use error::Error;
pub use handler::Handler;
pub use relay::{Action, Event, Phase, PlaceholderHandle, Relay};
pub use trigger::{should_process_message, GenerationRequest};
