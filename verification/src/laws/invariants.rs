//! What every reachable state satisfies.

use crate::relay::{ActionView, EventView, Phase, RelayView};
use vstd::prelude::*;

verus! {

/// One event keeps a reachable state reachable. The buffer only grows, by
/// appending; the placeholder, once it exists, is never replaced; and a
/// finalized relay stays as it is.
pub proof fn lemma_next_keeps_invariants(s: RelayView, event: EventView)
    requires
        s.wf(),
    ensures
        s.next(event).0.wf(),
        s.buffer.is_prefix_of(s.next(event).0.buffer),
        s.published.is_prefix_of(s.next(event).0.published),
        s.handle is Some ==> s.next(event).0.handle == s.handle,
        s.phase == Phase::Finalized ==> s.next(event) == (s, ActionView::Nothing),
        s.next(event).1 matches ActionView::Edit(text) ==> text == s.next(event).0.buffer
            && text.len() > 0,
{
}

/// A run keeps a reachable state reachable, answers every event with one
/// action, and only ever extends the buffer and the published text.
pub proof fn lemma_run_keeps_invariants(s: RelayView, events: Seq<EventView>)
    requires
        s.wf(),
    ensures
        s.run(events).0.wf(),
        s.run(events).1.len() == events.len(),
        s.buffer.is_prefix_of(s.run(events).0.buffer),
        s.published.is_prefix_of(s.run(events).0.published),
        s.handle is Some ==> s.run(events).0.handle == s.handle,
    decreases events.len(),
{
    if events.len() > 0 {
        lemma_run_keeps_invariants(s, events.drop_last());
        lemma_next_keeps_invariants(s.run(events.drop_last()).0, events.last());
    }
}

} // verus!
