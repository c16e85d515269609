//! The placeholder lives through its phases in one direction.

use crate::error::Error;
use crate::laws::invariants::lemma_next_keeps_invariants;
use crate::relay::{ActionView, EventView, Phase, RelayView};
use vstd::prelude::*;

verus! {

/// An event leaves the phase as it is, moves it to the next one, or
/// finalizes the request; a finalized request stays finalized.
pub proof fn law_phase_moves_forward(s: RelayView, event: EventView)
    ensures
        ({
            let after = s.next(event).0;
            ||| after.phase == s.phase
            ||| after.phase.order() == s.phase.order() + 1
            ||| after.phase == Phase::Finalized
        }),
        s.phase == Phase::Finalized ==> s.next(event) == (s, ActionView::Nothing),
{
}

/// A run never takes the phase back.
pub proof fn law_run_moves_forward(s: RelayView, events: Seq<EventView>)
    ensures
        s.phase.order() <= s.run(events).0.phase.order(),
    decreases events.len(),
{
    if events.len() > 0 {
        law_run_moves_forward(s, events.drop_last());
        law_phase_moves_forward(s.run(events.drop_last()).0, events.last());
    }
}

/// An edit is asked for only while streaming, when the placeholder exists,
/// and it leaves the relay streaming.
pub proof fn law_edits_need_a_placeholder(s: RelayView, event: EventView)
    requires
        s.wf(),
        s.next(event).1 is Edit,
    ensures
        s.phase == Phase::Streaming,
        s.next(event).0.phase == Phase::Streaming,
        s.handle is Some,
        s.next(event).0.handle == s.handle,
{
    lemma_next_keeps_invariants(s, event);
}

/// The request is declared over exactly when the relay becomes finalized,
/// with the outcome that the relay then holds.
pub proof fn law_finish_finalizes(s: RelayView, event: EventView)
    ensures
        s.next(event).1 is Finish <==> s.phase != Phase::Finalized && s.next(event).0.phase
            == Phase::Finalized,
        s.next(event).1 matches ActionView::Finish(outcome) ==> s.next(event).0.outcome() == Some(
            outcome,
        ),
{
}

/// A finalized relay is deaf: whatever it is told, it stays as it is and
/// asks for nothing.
pub proof fn law_finalized_stays(s: RelayView, events: Seq<EventView>)
    requires
        s.phase == Phase::Finalized,
    ensures
        s.run(events).0 == s,
        s.run(events).1 == Seq::new(events.len(), |j: int| ActionView::Nothing),
    decreases events.len(),
{
    if events.len() > 0 {
        law_finalized_stays(s, events.drop_last());
    }
}

/// Without a placeholder there is no streaming: when the placeholder could
/// not be created, the request is over, with nothing accumulated and no
/// edit ever asked for.
pub proof fn law_no_placeholder_no_stream(events: Seq<EventView>)
    ensures
        ({
            let (failed, action) = RelayView::fresh().next(EventView::PlaceholderFailed);
            &&& action == ActionView::Finish(Err(Error::Placeholder))
            &&& failed.buffer.len() == 0
            &&& failed.run(events).0 == failed
            &&& failed.run(events).1 == Seq::new(events.len(), |j: int| ActionView::Nothing)
        }),
{
    law_finalized_stays(RelayView::fresh().next(EventView::PlaceholderFailed).0, events);
}

} // verus!
