//! The life of one request: a placeholder message is created, the reply is
//! accumulated fragment by fragment, and on timer ticks the text gathered so
//! far is published by editing the placeholder.
//!
//! The relay performs no I/O. It is told what happened through an [`Event`]
//! and answers with the [`Action`] to perform; the caller owns the fragment
//! source, the timer and the sink.

pub mod event;
pub mod machine;
pub mod model;

pub use event::{Action, ActionView, Event, EventView, Phase, PlaceholderHandle};
pub use machine::Relay;
pub use model::{action_views, event_views, RelayView};
