//! No edit that shows nothing new: text that the sink has taken is not sent
//! again, and a stream without text causes no edit.

use crate::laws::invariants::{lemma_next_keeps_invariants, lemma_run_keeps_invariants};
use crate::laws::trace::{
    edits, lemma_edits_push, lemma_run_append, lemma_run_at, lemma_run_len,
};
use crate::relay::{ActionView, EventView, Phase, RelayView};
use vstd::prelude::*;

verus! {

/// A state in which the sink holds the whole buffer, or has been sent it
/// and has not answered yet.
pub open spec fn quiet(s: RelayView) -> bool {
    ||| s.in_flight == Some(s.buffer)
    ||| s.in_flight is None && !s.dirty()
    ||| s.phase == Phase::Finalized
}

/// While no text arrives and the sink rejects nothing, a quiet relay stays
/// quiet and asks for no edit.
pub proof fn lemma_quiet_stays(s: RelayView, events: Seq<EventView>)
    requires
        s.wf(),
        quiet(s),
        forall|i: int| 0 <= i < events.len() ==> #[trigger] events[i] != EventView::EditDone(false),
        s.run(events).0.buffer == s.buffer,
    ensures
        quiet(s.run(events).0),
        forall|j: int| 0 <= j < events.len() ==> !(#[trigger] s.run(events).1[j] is Edit),
    decreases events.len(),
{
    if events.len() > 0 {
        let earlier = events.drop_last();
        let before = s.run(earlier).0;
        lemma_run_keeps_invariants(s, earlier);
        lemma_next_keeps_invariants(before, events.last());
        lemma_quiet_stays(s, earlier);
        lemma_run_len(s, earlier);
    }
}

/// A quiet relay asks for no edit, unless the sink rejects one.
pub proof fn lemma_quiet_asks_for_no_edit(s: RelayView, event: EventView)
    requires
        s.wf(),
        quiet(s),
        event != EventView::EditDone(false),
    ensures
        !(s.next(event).1 is Edit),
{
}

/// No redundant edits: if the buffer is the same at two ticks, the second
/// tick causes no edit, and neither does anything between them. This needs
/// that the first tick was not held back by an unanswered edit of older
/// text, and that the sink rejected no edit between the two ticks: text
/// that the sink has not taken is sent again.
pub proof fn law_no_redundant_edit(s: RelayView, between: Seq<EventView>)
    requires
        s.wf(),
        s.in_flight is None || s.in_flight == Some(s.buffer),
        forall|i: int|
            0 <= i < between.len() ==> #[trigger] between[i] != EventView::EditDone(false),
        s.next(EventView::Tick).0.run(between).0.buffer == s.buffer,
    ensures
        s.next(EventView::Tick).0.run(between).0.next(EventView::Tick).1 == ActionView::Nothing,
        forall|j: int|
            0 <= j < between.len() ==> !(#[trigger] s.next(EventView::Tick).0.run(between).1[j]
                is Edit),
{
    let first = s.next(EventView::Tick).0;
    lemma_next_keeps_invariants(s, EventView::Tick);
    lemma_quiet_stays(first, between);
    lemma_run_keeps_invariants(first, between);
}

/// Where two edits carry the same text, the sink rejected an edit after
/// the first was asked for: nothing is sent twice that the sink has taken.
pub proof fn law_repeated_edit_was_rejected(s: RelayView, events: Seq<EventView>, i: int, j: int)
    requires
        s.wf(),
        0 <= i < j < events.len(),
        s.run(events).1[i] is Edit,
        s.run(events).1[j] == s.run(events).1[i],
    ensures
        exists|k: int| i < k <= j && #[trigger] events[k] == EventView::EditDone(false),
{
    // The state in which the first edit is out, and the one that asks for the second.
    let sent = s.run(events.take(i + 1)).0;
    let rest = events.subrange(i + 1, j);
    let before = sent.run(rest).0;
    lemma_run_at(s, events, i);
    lemma_run_at(s, events, j);
    lemma_run_keeps_invariants(s, events.take(i));
    lemma_next_keeps_invariants(s.run(events.take(i)).0, events[i]);
    assert(events.take(j) == events.take(i + 1) + rest);
    lemma_run_append(s, events.take(i + 1), rest);
    lemma_run_keeps_invariants(sent, rest);
    lemma_next_keeps_invariants(before, events[j]);
    if events[j] != EventView::EditDone(false) {
        if forall|m: int| 0 <= m < rest.len() ==> #[trigger] rest[m] != EventView::EditDone(false) {
            lemma_quiet_stays(sent, rest);
            lemma_quiet_asks_for_no_edit(before, events[j]);
        }
    }
}

/// No edit without content: from a state whose buffer is empty, events
/// among which no fragment holds text cause no edit, whatever else happens.
pub proof fn law_empty_stream_issues_no_edit(s: RelayView, events: Seq<EventView>)
    requires
        s.wf(),
        s.buffer.len() == 0,
        forall|i: int|
            0 <= i < events.len() ==> (#[trigger] events[i] matches EventView::Fragment(text)
                ==> text.len() == 0),
    ensures
        s.run(events).0.buffer.len() == 0,
        s.run(events).0.published.len() == 0,
        forall|j: int| 0 <= j < events.len() ==> !(#[trigger] s.run(events).1[j] is Edit),
        edits(s.run(events).1).len() == 0,
    decreases events.len(),
{
    if events.len() > 0 {
        let earlier = events.drop_last();
        law_empty_stream_issues_no_edit(s, earlier);
        lemma_run_keeps_invariants(s, earlier);
        lemma_next_keeps_invariants(s.run(earlier).0, events.last());
        lemma_edits_push(s.run(earlier).1, s.run(earlier).0.next(events.last()).1);
    }
}

} // verus!
