//! Runs of events: what they deliver and which edits they cause.

use crate::relay::{ActionView, EventView, RelayView};
use vstd::prelude::*;

verus! {

/// The fragments `texts` as events, in order.
pub open spec fn fragments(texts: Seq<Seq<char>>) -> Seq<EventView> {
    texts.map_values(|text: Seq<char>| EventView::Fragment(text))
}

/// The concatenation of `texts` in order.
pub open spec fn concat(texts: Seq<Seq<char>>) -> Seq<char>
    decreases texts.len(),
{
    if texts.len() == 0 {
        Seq::empty()
    } else {
        concat(texts.drop_last()) + texts.last()
    }
}

/// Whether the source has ended or failed somewhere in `events`.
pub open spec fn source_closed(events: Seq<EventView>) -> bool
    decreases events.len(),
{
    events.len() > 0 && (events.last() is End || events.last() is SourceFailed || source_closed(
        events.drop_last(),
    ))
}

/// The concatenation of the fragments that `events` delivers before the
/// source ends or fails.
pub open spec fn received(events: Seq<EventView>) -> Seq<char>
    decreases events.len(),
{
    if events.len() == 0 {
        Seq::empty()
    } else {
        let before = events.drop_last();
        match events.last() {
            EventView::Fragment(text) if !source_closed(before) => received(before) + text,
            _ => received(before),
        }
    }
}

/// The text of the last edit among `actions`, if there is one.
pub open spec fn last_edit(actions: Seq<ActionView>) -> Option<Seq<char>>
    decreases actions.len(),
{
    if actions.len() == 0 {
        None
    } else {
        match actions.last() {
            ActionView::Edit(text) => Some(text),
            _ => last_edit(actions.drop_last()),
        }
    }
}

/// The texts of the edits among `actions`, in order.
pub open spec fn edits(actions: Seq<ActionView>) -> Seq<Seq<char>>
    decreases actions.len(),
{
    if actions.len() == 0 {
        Seq::empty()
    } else {
        match actions.last() {
            ActionView::Edit(text) => edits(actions.drop_last()).push(text),
            _ => edits(actions.drop_last()),
        }
    }
}

/// The edits after one more action.
pub proof fn lemma_edits_push(actions: Seq<ActionView>, action: ActionView)
    ensures
        edits(actions.push(action)) == match action {
            ActionView::Edit(text) => edits(actions).push(text),
            _ => edits(actions),
        },
        last_edit(actions.push(action)) == match action {
            ActionView::Edit(text) => Some(text),
            _ => last_edit(actions),
        },
{
    assert(actions.push(action).drop_last() == actions);
}

/// The edits of two runs of actions, one after the other.
pub proof fn lemma_edits_append(first: Seq<ActionView>, second: Seq<ActionView>)
    ensures
        edits(first + second) == edits(first) + edits(second),
    decreases second.len(),
{
    if second.len() > 0 {
        lemma_edits_append(first, second.drop_last());
        assert((first + second).drop_last() == first + second.drop_last());
    }
}

/// A run answers every event with one action.
pub proof fn lemma_run_len(s: RelayView, events: Seq<EventView>)
    ensures
        s.run(events).1.len() == events.len(),
    decreases events.len(),
{
    if events.len() > 0 {
        lemma_run_len(s, events.drop_last());
    }
}

/// The run over one event is its step.
pub proof fn lemma_run_one(s: RelayView, event: EventView)
    ensures
        s.run(seq![event]) == (s.next(event).0, seq![s.next(event).1]),
{
    assert(s.run(seq![event].drop_last()) == (s, Seq::<ActionView>::empty()));
}

/// A run over `first` followed by `second` is the run over `first`
/// continued by the run over `second`.
pub proof fn lemma_run_append(s: RelayView, first: Seq<EventView>, second: Seq<EventView>)
    ensures
        s.run(first + second).0 == s.run(first).0.run(second).0,
        s.run(first + second).1 == s.run(first).1 + s.run(first).0.run(second).1,
    decreases second.len(),
{
    if second.len() > 0 {
        lemma_run_append(s, first, second.drop_last());
        assert((first + second).drop_last() == first + second.drop_last());
    }
}

/// The action for the event at `j` is the one that the state after the
/// first `j` events gives to it.
pub proof fn lemma_run_at(s: RelayView, events: Seq<EventView>, j: int)
    requires
        0 <= j < events.len(),
    ensures
        s.run(events).1.len() == events.len(),
        s.run(events).1[j] == s.run(events.take(j)).0.next(events[j]).1,
        s.run(events.take(j + 1)).0 == s.run(events.take(j)).0.next(events[j]).0,
    decreases events.len(),
{
    let earlier = events.drop_last();
    lemma_run_len(s, events);
    lemma_run_len(s, earlier);
    if j == events.len() - 1 {
        assert(events.take(j + 1) == events);
    } else {
        lemma_run_at(s, earlier, j);
        assert(earlier.take(j) == events.take(j));
        assert(events.take(j + 1).drop_last() == events.take(j));
    }
}

} // verus!
