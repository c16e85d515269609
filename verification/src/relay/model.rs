//! The relay as a state machine over mathematical values: what each event
//! does to the state, and which action it asks for.

use crate::error::Error;
use crate::relay::event::{Action, ActionView, Event, EventView, Phase, PlaceholderHandle};
use vstd::prelude::*;

verus! {

/// The state of a relay as mathematical values.
pub struct RelayView {
    pub phase: Phase,
    /// The placeholder, once it exists.
    pub handle: Option<PlaceholderHandle>,
    /// Every fragment received so far, concatenated in arrival order.
    pub buffer: Seq<char>,
    /// The text of the last edit that the sink is known to have applied;
    /// empty before the first.
    pub published: Seq<char>,
    /// The text of the edit that the sink has not answered yet.
    pub in_flight: Option<Seq<char>>,
    /// Whether the source has signalled its end.
    pub source_done: bool,
    /// Whether the final flush has been asked for.
    pub final_flush: bool,
    /// Why the request failed, if it did.
    pub failure: Option<Error>,
}

impl RelayView {
    /// The state before anything has happened.
    pub open spec fn fresh() -> RelayView {
        RelayView {
            phase: Phase::Absent,
            handle: None,
            buffer: Seq::empty(),
            published: Seq::empty(),
            in_flight: None,
            source_done: false,
            final_flush: false,
            failure: None,
        }
    }

    /// The state in which streaming begins on the placeholder `handle`.
    pub open spec fn streaming(handle: PlaceholderHandle) -> RelayView {
        RelayView { phase: Phase::Streaming, handle: Some(handle), ..RelayView::fresh() }
    }

    /// What holds of every state that a relay can reach.
    pub open spec fn wf(self) -> bool {
        &&& self.published.is_prefix_of(self.buffer)
        &&& self.in_flight matches Some(sent) ==> {
            &&& self.phase == Phase::Streaming
            &&& sent.len() > 0
            &&& sent != self.published
            &&& self.published.is_prefix_of(sent)
            &&& sent.is_prefix_of(self.buffer)
        }
        &&& (self.phase == Phase::Absent || self.phase == Phase::Created) ==> {
            &&& self.buffer.len() == 0
            &&& !self.source_done
        }
        &&& self.handle is Some <==> (self.phase == Phase::Created || self.phase
            == Phase::Streaming || (self.phase == Phase::Finalized && self.failure != Some(
            Error::Placeholder,
        )))
        &&& self.closing() ==> self.in_flight is Some
        &&& self.final_flush ==> self.source_done
        &&& self.closing() && self.final_flush ==> self.in_flight == Some(self.buffer)
        &&& self.failure is Some ==> self.phase == Phase::Finalized
        &&& (self.phase == Phase::Finalized && self.failure is None) ==> {
            &&& self.source_done
            &&& self.published =~= self.buffer
        }
        &&& self.failure == Some(Error::FinalEdit) ==> self.final_flush && self.dirty()
        &&& self.failure == Some(Error::Source) ==> !self.source_done
        &&& self.failure == Some(Error::Placeholder) ==> self.published.len() == 0
    }

    /// `None` while the request runs, then how it ended.
    pub open spec fn outcome(self) -> Option<Result<(), Error>> {
        if self.phase == Phase::Finalized {
            Some(
                match self.failure {
                    Some(e) => Err(e),
                    None => Ok(()),
                },
            )
        } else {
            None
        }
    }

    /// Fragments are still expected.
    pub open spec fn draining(self) -> bool {
        self.phase == Phase::Streaming && !self.source_done
    }

    /// The source has ended and the answer to an edit is awaited.
    pub open spec fn closing(self) -> bool {
        self.phase == Phase::Streaming && self.source_done
    }

    /// There is text that the sink has not been shown to hold.
    pub open spec fn dirty(self) -> bool {
        self.buffer.len() > 0 && self.buffer != self.published
    }

    /// Ends the request.
    pub open spec fn finish(self, failure: Option<Error>) -> (RelayView, ActionView) {
        (
            RelayView { phase: Phase::Finalized, in_flight: None, failure, ..self },
            ActionView::Finish(
                match failure {
                    Some(e) => Err(e),
                    None => Ok(()),
                },
            ),
        )
    }

    /// Sends the whole buffer to the sink.
    pub open spec fn flush(self) -> (RelayView, ActionView) {
        (RelayView { in_flight: Some(self.buffer), ..self }, ActionView::Edit(self.buffer))
    }

    /// The final flush: owed when the source has ended, no edit is
    /// outstanding, and the buffer holds text that differs from what was
    /// published. Where none is owed, the request is over.
    pub open spec fn close(self) -> (RelayView, ActionView) {
        let s = RelayView { source_done: true, in_flight: None, ..self };
        if s.dirty() {
            (RelayView { final_flush: true, ..s }).flush()
        } else {
            s.finish(None)
        }
    }

    /// The placeholder has been created: from now on it is the one that is
    /// edited.
    pub open spec fn on_placeholder_created(self, handle: PlaceholderHandle) -> (
        RelayView,
        ActionView,
    ) {
        if self.phase == Phase::Absent {
            (RelayView { phase: Phase::Created, handle: Some(handle), ..self }, ActionView::Nothing)
        } else {
            (self, ActionView::Nothing)
        }
    }

    /// Without a placeholder the request ends before anything is streamed.
    pub open spec fn on_placeholder_failed(self) -> (RelayView, ActionView) {
        if self.phase == Phase::Absent {
            self.finish(Some(Error::Placeholder))
        } else {
            (self, ActionView::Nothing)
        }
    }

    /// Streaming begins once the placeholder exists and the source is open.
    pub open spec fn on_source_opened(self) -> (RelayView, ActionView) {
        if self.phase == Phase::Created {
            (RelayView { phase: Phase::Streaming, ..self }, ActionView::Nothing)
        } else {
            (self, ActionView::Nothing)
        }
    }

    /// A fragment is appended; it never causes an edit by itself.
    pub open spec fn on_fragment(self, text: Seq<char>) -> (RelayView, ActionView) {
        if self.draining() {
            (RelayView { buffer: self.buffer + text, ..self }, ActionView::Nothing)
        } else {
            (self, ActionView::Nothing)
        }
    }

    /// A tick publishes the buffer if it holds unpublished text and the sink
    /// is not busy with an earlier edit.
    pub open spec fn on_tick(self) -> (RelayView, ActionView) {
        if self.draining() && self.in_flight is None && self.dirty() {
            self.flush()
        } else {
            (self, ActionView::Nothing)
        }
    }

    /// The end of the source stops the ticks; the final flush follows at
    /// once, or when the outstanding edit has been answered.
    pub open spec fn on_end(self) -> (RelayView, ActionView) {
        if !self.draining() {
            (self, ActionView::Nothing)
        } else if self.in_flight is Some {
            (RelayView { source_done: true, ..self }, ActionView::Nothing)
        } else {
            self.close()
        }
    }

    /// A failure of the source ends the request with what was published.
    pub open spec fn on_source_failed(self) -> (RelayView, ActionView) {
        if self.phase == Phase::Created || self.draining() {
            self.finish(Some(Error::Source))
        } else {
            (self, ActionView::Nothing)
        }
    }

    /// The answer to the outstanding edit. An applied edit becomes the
    /// published text. A rejected edit is dropped, and the next comparison
    /// sends the text again, unless the rejected edit was the final flush:
    /// that failure ends the request.
    pub open spec fn on_edit_done(self, ok: bool) -> (RelayView, ActionView) {
        if self.phase == Phase::Streaming && self.in_flight is Some {
            let sent = self.in_flight->0;
            let s = RelayView {
                published: if ok {
                    sent
                } else {
                    self.published
                },
                in_flight: None,
                ..self
            };
            if !self.source_done {
                (s, ActionView::Nothing)
            } else if !self.final_flush {
                s.close()
            } else if ok {
                s.finish(None)
            } else {
                s.finish(Some(Error::FinalEdit))
            }
        } else {
            (self, ActionView::Nothing)
        }
    }

    /// The state after `event`, and the action that it asks for.
    pub open spec fn next(self, event: EventView) -> (RelayView, ActionView) {
        match event {
            EventView::PlaceholderCreated(handle) => self.on_placeholder_created(handle),
            EventView::PlaceholderFailed => self.on_placeholder_failed(),
            EventView::SourceOpened => self.on_source_opened(),
            EventView::Fragment(text) => self.on_fragment(text),
            EventView::Other => (self, ActionView::Nothing),
            EventView::End => self.on_end(),
            EventView::SourceFailed => self.on_source_failed(),
            EventView::Tick => self.on_tick(),
            EventView::EditDone(ok) => self.on_edit_done(ok),
        }
    }

    /// The state after all of `events` in order, and the actions that they
    /// asked for, one for each event.
    pub open spec fn run(self, events: Seq<EventView>) -> (RelayView, Seq<ActionView>)
        decreases events.len(),
    {
        if events.len() == 0 {
            (self, Seq::empty())
        } else {
            let (before, actions) = self.run(events.drop_last());
            let (after, action) = before.next(events.last());
            (after, actions.push(action))
        }
    }
}

/// The views of a sequence of events.
pub open spec fn event_views(events: Seq<Event>) -> Seq<EventView> {
    events.map_values(|e: Event| e@)
}

/// The views of a sequence of actions.
pub open spec fn action_views(actions: Seq<Action>) -> Seq<ActionView> {
    actions.map_values(|a: Action| a@)
}

} // verus!
