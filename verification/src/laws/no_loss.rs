//! Nothing that the source delivers is lost, and nothing is shown that it
//! did not deliver.

use crate::laws::invariants::{lemma_next_keeps_invariants, lemma_run_keeps_invariants};
use crate::laws::trace::{
    last_edit, lemma_edits_push, lemma_run_append, lemma_run_at, received, source_closed,
};
use crate::relay::{ActionView, EventView, Phase, PlaceholderHandle, RelayView};
use vstd::prelude::*;

verus! {

/// How the state of a relay that began to stream on `handle` relates to
/// the events that it has seen and the actions that it has asked for.
pub proof fn lemma_stream_history(handle: PlaceholderHandle, events: Seq<EventView>)
    ensures
        ({
            let (after, actions) = RelayView::streaming(handle).run(events);
            &&& after.wf()
            &&& after.phase == Phase::Streaming || after.phase == Phase::Finalized
            &&& after.buffer == received(events)
            &&& after.draining() <==> !source_closed(events)
            &&& after.in_flight matches Some(sent) ==> last_edit(actions) == Some(sent)
            &&& last_edit(actions) matches Some(text) ==> after.published.is_prefix_of(text)
                && text.is_prefix_of(after.buffer)
            &&& after.published.len() > 0 ==> last_edit(actions) is Some
        }),
    decreases events.len(),
{
    let start = RelayView::streaming(handle);
    if events.len() > 0 {
        let earlier = events.drop_last();
        lemma_stream_history(handle, earlier);
        let (before, actions) = start.run(earlier);
        lemma_next_keeps_invariants(before, events.last());
        lemma_edits_push(actions, before.next(events.last()).1);
    }
}

/// No loss: a relay that began to stream holds the exact concatenation of
/// the fragments in arrival order; each edit carries all that had been
/// received when it was asked for; and when the source has ended and the
/// relay is finalized, the last edit carried the complete text, which is
/// also what the placeholder shows if the request succeeded. Where ticks
/// fall among the fragments makes no difference.
pub proof fn law_no_loss(handle: PlaceholderHandle, events: Seq<EventView>)
    ensures
        ({
            let (after, actions) = RelayView::streaming(handle).run(events);
            &&& after.buffer == received(events)
            &&& forall|j: int|
                0 <= j < events.len() ==> (#[trigger] actions[j] matches ActionView::Edit(text)
                    ==> text == received(events.take(j + 1)))
            &&& after.phase == Phase::Finalized && after.source_done && received(events).len() > 0
                ==> last_edit(actions) == Some(received(events))
            &&& after.phase == Phase::Finalized && after.failure is None ==> after.published
                == received(events)
        }),
{
    let start = RelayView::streaming(handle);
    let (after, actions) = start.run(events);
    lemma_stream_history(handle, events);
    assert forall|j: int| 0 <= j < events.len() implies (#[trigger] actions[j] matches
        ActionView::Edit(text) ==> text == received(events.take(j + 1))) by {
        lemma_run_at(start, events, j);
        lemma_stream_history(handle, events.take(j));
        lemma_stream_history(handle, events.take(j + 1));
        lemma_next_keeps_invariants(start.run(events.take(j)).0, events[j]);
    }
    if after.phase == Phase::Finalized && after.source_done && received(events).len() > 0 {
        lemma_finalized_after_last_edit(handle, events);
    }
}

/// When the source has ended and the relay is finalized, the last edit
/// carried the whole buffer.
proof fn lemma_finalized_after_last_edit(handle: PlaceholderHandle, events: Seq<EventView>)
    requires
        RelayView::streaming(handle).run(events).0.phase == Phase::Finalized,
        RelayView::streaming(handle).run(events).0.source_done,
        RelayView::streaming(handle).run(events).0.buffer.len() > 0,
    ensures
        last_edit(RelayView::streaming(handle).run(events).1) == Some(
            RelayView::streaming(handle).run(events).0.buffer,
        ),
    decreases events.len(),
{
    let start = RelayView::streaming(handle);
    if events.len() > 0 {
        let earlier = events.drop_last();
        let (before, actions) = start.run(earlier);
        lemma_stream_history(handle, earlier);
        lemma_stream_history(handle, events);
        lemma_next_keeps_invariants(before, events.last());
        lemma_edits_push(actions, before.next(events.last()).1);
        if before.phase == Phase::Finalized {
            lemma_finalized_after_last_edit(handle, earlier);
        }
    }
}

/// Every edit extends the one before it: a later edit never shows less
/// than an earlier one.
pub proof fn law_edits_grow(s: RelayView, events: Seq<EventView>, i: int, j: int)
    requires
        s.wf(),
        0 <= i <= j < events.len(),
        s.run(events).1[i] is Edit,
        s.run(events).1[j] is Edit,
    ensures
        s.run(events).1[i]->Edit_0.is_prefix_of(s.run(events).1[j]->Edit_0),
{
    lemma_run_at(s, events, i);
    lemma_run_at(s, events, j);
    lemma_run_keeps_invariants(s, events.take(i));
    lemma_run_keeps_invariants(s, events.take(j));
    lemma_next_keeps_invariants(s.run(events.take(i)).0, events[i]);
    lemma_next_keeps_invariants(s.run(events.take(j)).0, events[j]);
    let mid = s.run(events.take(i + 1)).0;
    let rest = events.subrange(i + 1, j + 1);
    assert(events.take(j + 1) == events.take(i + 1) + rest);
    lemma_run_append(s, events.take(i + 1), rest);
    lemma_run_keeps_invariants(mid, rest);
}

} // verus!
