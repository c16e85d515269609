//! The relay that runs: it holds the text and follows the model event by
//! event.

use crate::error::Error;
use crate::laws::invariants::lemma_next_keeps_invariants;
use crate::relay::event::{Action, Event, Phase, PlaceholderHandle};
use crate::relay::model::{action_views, event_views, RelayView};
use vstd::prelude::*;
use vstd::string::*;

verus! {

/// The relay of one request.
#[derive(Debug)]
pub struct Relay {
    phase: Phase,
    handle: Option<PlaceholderHandle>,
    buffer: String,
    published: String,
    in_flight: Option<String>,
    source_done: bool,
    final_flush: bool,
    failure: Option<Error>,
}

impl View for Relay {
    type V = RelayView;

    closed spec fn view(&self) -> RelayView {
        RelayView {
            phase: self.phase,
            handle: self.handle,
            buffer: self.buffer@,
            published: self.published@,
            in_flight: match self.in_flight {
                Some(sent) => Some(sent@),
                None => None,
            },
            source_done: self.source_done,
            final_flush: self.final_flush,
            failure: self.failure,
        }
    }
}

impl Relay {
    /// A relay for a request whose placeholder does not exist yet.
    pub fn new() -> (relay: Relay)
        ensures
            relay@ == RelayView::fresh(),
            relay@.wf(),
    {
        Relay {
            phase: Phase::Absent,
            handle: None,
            buffer: String::new(),
            published: String::new(),
            in_flight: None,
            source_done: false,
            final_flush: false,
            failure: None,
        }
    }

    /// Where the placeholder stands in its life.
    pub fn phase(&self) -> (phase: Phase)
        ensures
            phase == self@.phase,
    {
        self.phase
    }

    /// The placeholder, once it exists.
    pub fn handle(&self) -> (handle: Option<PlaceholderHandle>)
        ensures
            handle == self@.handle,
    {
        self.handle
    }

    /// Everything received so far.
    pub fn accumulated(&self) -> (text: &str)
        ensures
            text@ == self@.buffer,
    {
        self.buffer.as_str()
    }

    /// The text of the last edit that the sink is known to have applied.
    pub fn published(&self) -> (text: &str)
        ensures
            text@ == self@.published,
    {
        self.published.as_str()
    }

    /// `None` while the request runs, then how it ended.
    pub fn outcome(&self) -> (outcome: Option<Result<(), Error>>)
        ensures
            outcome == self@.outcome(),
    {
        if self.phase == Phase::Finalized {
            match self.failure {
                Some(e) => Some(Err(e)),
                None => Some(Ok(())),
            }
        } else {
            None
        }
    }

    fn is_dirty(&self) -> (dirty: bool)
        ensures
            dirty == self@.dirty(),
    {
        !self.buffer.as_str().is_empty() && !(self.buffer == self.published)
    }

    fn finish(&mut self, failure: Option<Error>) -> (action: Action)
        ensures
            final(self)@ == old(self)@.finish(failure).0,
            action@ == old(self)@.finish(failure).1,
    {
        self.phase = Phase::Finalized;
        self.in_flight = None;
        self.failure = failure;
        match failure {
            Some(e) => Action::Finish(Err(e)),
            None => Action::Finish(Ok(())),
        }
    }

    fn flush(&mut self) -> (action: Action)
        ensures
            final(self)@ == old(self)@.flush().0,
            action@ == old(self)@.flush().1,
    {
        self.in_flight = Some(self.buffer.clone());
        Action::Edit(self.buffer.clone())
    }

    fn close(&mut self) -> (action: Action)
        ensures
            final(self)@ == old(self)@.close().0,
            action@ == old(self)@.close().1,
    {
        self.source_done = true;
        self.in_flight = None;
        if self.is_dirty() {
            self.final_flush = true;
            self.flush()
        } else {
            self.finish(None)
        }
    }

    fn on_placeholder_created(&mut self, handle: PlaceholderHandle) -> (action: Action)
        ensures
            final(self)@ == old(self)@.on_placeholder_created(handle).0,
            action@ == old(self)@.on_placeholder_created(handle).1,
    {
        if self.phase == Phase::Absent {
            self.phase = Phase::Created;
            self.handle = Some(handle);
        }
        Action::Nothing
    }

    fn on_placeholder_failed(&mut self) -> (action: Action)
        ensures
            final(self)@ == old(self)@.on_placeholder_failed().0,
            action@ == old(self)@.on_placeholder_failed().1,
    {
        if self.phase == Phase::Absent {
            self.finish(Some(Error::Placeholder))
        } else {
            Action::Nothing
        }
    }

    fn on_source_opened(&mut self) -> (action: Action)
        ensures
            final(self)@ == old(self)@.on_source_opened().0,
            action@ == old(self)@.on_source_opened().1,
    {
        if self.phase == Phase::Created {
            self.phase = Phase::Streaming;
        }
        Action::Nothing
    }

    fn on_fragment(&mut self, text: &str) -> (action: Action)
        ensures
            final(self)@ == old(self)@.on_fragment(text@).0,
            action@ == old(self)@.on_fragment(text@).1,
    {
        if self.phase == Phase::Streaming && !self.source_done {
            self.buffer.append(text);
        }
        Action::Nothing
    }

    fn on_tick(&mut self) -> (action: Action)
        ensures
            final(self)@ == old(self)@.on_tick().0,
            action@ == old(self)@.on_tick().1,
    {
        if self.phase == Phase::Streaming && !self.source_done && self.in_flight.is_none()
            && self.is_dirty() {
            self.flush()
        } else {
            Action::Nothing
        }
    }

    fn on_end(&mut self) -> (action: Action)
        ensures
            final(self)@ == old(self)@.on_end().0,
            action@ == old(self)@.on_end().1,
    {
        if !(self.phase == Phase::Streaming && !self.source_done) {
            Action::Nothing
        } else if self.in_flight.is_some() {
            self.source_done = true;
            Action::Nothing
        } else {
            self.close()
        }
    }

    fn on_source_failed(&mut self) -> (action: Action)
        ensures
            final(self)@ == old(self)@.on_source_failed().0,
            action@ == old(self)@.on_source_failed().1,
    {
        if self.phase == Phase::Created || (self.phase == Phase::Streaming && !self.source_done) {
            self.finish(Some(Error::Source))
        } else {
            Action::Nothing
        }
    }

    fn on_edit_done(&mut self, ok: bool) -> (action: Action)
        ensures
            final(self)@ == old(self)@.on_edit_done(ok).0,
            action@ == old(self)@.on_edit_done(ok).1,
    {
        if !(self.phase == Phase::Streaming) {
            return Action::Nothing;
        }
        match self.in_flight.take() {
            None => Action::Nothing,
            Some(sent) => {
                if ok {
                    self.published = sent;
                }
                if !self.source_done {
                    Action::Nothing
                } else if !self.final_flush {
                    self.close()
                } else if ok {
                    self.finish(None)
                } else {
                    self.finish(Some(Error::FinalEdit))
                }
            },
        }
    }

    /// Takes in one event and says what to do about it.
    pub fn step(&mut self, event: &Event) -> (action: Action)
        ensures
            final(self)@ == old(self)@.next(event@).0,
            action@ == old(self)@.next(event@).1,
            old(self)@.wf() ==> final(self)@.wf(),
    {
        proof {
            if self@.wf() {
                lemma_next_keeps_invariants(self@, event@);
            }
        }
        match event {
            Event::PlaceholderCreated(handle) => self.on_placeholder_created(*handle),
            Event::PlaceholderFailed => self.on_placeholder_failed(),
            Event::SourceOpened => self.on_source_opened(),
            Event::Fragment(text) => self.on_fragment(text.as_str()),
            Event::Other => Action::Nothing,
            Event::End => self.on_end(),
            Event::SourceFailed => self.on_source_failed(),
            Event::Tick => self.on_tick(),
            Event::EditDone(ok) => self.on_edit_done(*ok),
        }
    }

    /// Takes in a batch of events in arrival order and returns the actions
    /// that they asked for, one for each event.
    pub fn run(&mut self, events: &[Event]) -> (actions: Vec<Action>)
        ensures
            final(self)@ == old(self)@.run(event_views(events@)).0,
            action_views(actions@) == old(self)@.run(event_views(events@)).1,
            actions.len() == events.len(),
            old(self)@.wf() ==> final(self)@.wf(),
    {
        let ghost start = self@;
        let ghost views = event_views(events@);
        let mut actions: Vec<Action> = Vec::new();
        let mut i: usize = 0;
        while i < events.len()
            invariant
                i <= events.len(),
                views == event_views(events@),
                self@ == start.run(views.take(i as int)).0,
                action_views(actions@) == start.run(views.take(i as int)).1,
                actions.len() == i,
                start.wf() ==> self@.wf(),
            decreases events.len() - i,
        {
            let action = self.step(&events[i]);
            assert(views.take(i + 1).drop_last() == views.take(i as int));
            actions.push(action);
            i += 1;
        }
        assert(views.take(events@.len() as int) == views);
        actions
    }
}

} // verus!
