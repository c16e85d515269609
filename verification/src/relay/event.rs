//! What a relay is told and what it asks for.

use crate::error::Error;
use vstd::prelude::*;

verus! {

/// The one chat message that is edited while the reply streams in.
#[derive(Clone, Copy, Debug, PartialEq, Eq, Structural)]
pub struct PlaceholderHandle {
    pub channel_id: u64,
    pub message_id: u64,
}

/// Where the placeholder stands in its life.
#[derive(Clone, Copy, Debug, PartialEq, Eq, Structural)]
pub enum Phase {
    /// No placeholder exists yet.
    Absent,
    /// The placeholder exists; streaming has not begun.
    Created,
    /// Fragments are accumulated and published.
    Streaming,
    /// Nothing more will be published.
    Finalized,
}

impl Phase {
    /// The place of a phase in the order in which a placeholder lives
    /// through them.
    pub open spec fn order(self) -> nat {
        match self {
            Phase::Absent => 0,
            Phase::Created => 1,
            Phase::Streaming => 2,
            Phase::Finalized => 3,
        }
    }
}

/// What the caller reports to the relay.
#[derive(Debug, PartialEq, Eq)]
pub enum Event {
    /// The sink accepted the initial message.
    PlaceholderCreated(PlaceholderHandle),
    /// The sink rejected the initial message.
    PlaceholderFailed,
    /// The fragment source is open and the flush timer runs.
    SourceOpened,
    /// The source delivered a piece of text.
    Fragment(String),
    /// The source delivered something that carries no text.
    Other,
    /// The source signalled its end.
    End,
    /// The source failed.
    SourceFailed,
    /// The flush timer crossed an interval boundary.
    Tick,
    /// The sink finished the outstanding edit; `true` when it was applied.
    EditDone(bool),
}

/// What the relay asks the caller to do.
#[derive(Debug, PartialEq, Eq)]
pub enum Action {
    /// Nothing.
    Nothing,
    /// Replace the placeholder's content with this text, then report
    /// [`Event::EditDone`].
    Edit(String),
    /// Stop the timer and the source; the request is over with this outcome.
    Finish(Result<(), Error>),
}

/// An [`Event`] with its text as a sequence of characters.
pub enum EventView {
    PlaceholderCreated(PlaceholderHandle),
    PlaceholderFailed,
    SourceOpened,
    Fragment(Seq<char>),
    Other,
    End,
    SourceFailed,
    Tick,
    EditDone(bool),
}

/// An [`Action`] with its text as a sequence of characters.
pub enum ActionView {
    Nothing,
    Edit(Seq<char>),
    Finish(Result<(), Error>),
}

impl View for Event {
    type V = EventView;

    open spec fn view(&self) -> EventView {
        match self {
            Event::PlaceholderCreated(handle) => EventView::PlaceholderCreated(*handle),
            Event::PlaceholderFailed => EventView::PlaceholderFailed,
            Event::SourceOpened => EventView::SourceOpened,
            Event::Fragment(text) => EventView::Fragment(text@),
            Event::Other => EventView::Other,
            Event::End => EventView::End,
            Event::SourceFailed => EventView::SourceFailed,
            Event::Tick => EventView::Tick,
            Event::EditDone(ok) => EventView::EditDone(*ok),
        }
    }
}

impl View for Action {
    type V = ActionView;

    open spec fn view(&self) -> ActionView {
        match self {
            Action::Nothing => ActionView::Nothing,
            Action::Edit(text) => ActionView::Edit(text@),
            Action::Finish(outcome) => ActionView::Finish(*outcome),
        }
    }
}

} // verus!
