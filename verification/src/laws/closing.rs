//! How a request ends once its source has ended.

use crate::laws::invariants::{lemma_next_keeps_invariants, lemma_run_keeps_invariants};
use crate::laws::trace::{
    edits, lemma_edits_append, lemma_edits_push, lemma_run_append, lemma_run_one,
};
use crate::relay::{ActionView, EventView, Phase, RelayView};
use vstd::prelude::*;

verus! {

/// Ticks stop with the source: once the source has ended or failed, a tick
/// changes nothing and asks for nothing.
pub proof fn law_ticks_stop_with_the_source(s: RelayView)
    requires
        !s.draining(),
    ensures
        s.next(EventView::Tick) == (s, ActionView::Nothing),
{
}

/// How many edits a relay may still ask for once the source has ended: one
/// while the answer to an earlier edit is awaited, none once the final
/// flush is out.
pub open spec fn flushes_owed(s: RelayView) -> nat {
    if s.closing() && !s.final_flush {
        1
    } else {
        0
    }
}

/// One final flush: once the source has ended, at most one more edit is
/// asked for, and none once the final flush is out.
pub proof fn law_one_final_flush(s: RelayView, events: Seq<EventView>)
    requires
        s.wf(),
        s.source_done || s.phase == Phase::Finalized,
    ensures
        edits(s.run(events).1).len() + flushes_owed(s.run(events).0) <= flushes_owed(s),
        s.run(events).0.source_done || s.run(events).0.phase == Phase::Finalized,
    decreases events.len(),
{
    if events.len() > 0 {
        let earlier = events.drop_last();
        law_one_final_flush(s, earlier);
        lemma_run_keeps_invariants(s, earlier);
        let (before, actions) = s.run(earlier);
        lemma_next_keeps_invariants(before, events.last());
        lemma_edits_push(actions, before.next(events.last()).1);
    }
}

/// The end of the source is followed by one edit at most: the final flush.
pub proof fn law_end_is_followed_by_one_edit_at_most(s: RelayView, rest: Seq<EventView>)
    requires
        s.wf(),
        s.draining(),
    ensures
        edits(s.run(seq![EventView::End] + rest).1).len() <= 1,
{
    let end = seq![EventView::End];
    let (ended, action) = s.next(EventView::End);
    lemma_run_one(s, EventView::End);
    lemma_edits_push(Seq::empty(), action);
    lemma_next_keeps_invariants(s, EventView::End);
    lemma_run_append(s, end, rest);
    lemma_edits_append(seq![action], ended.run(rest).1);
    law_one_final_flush(ended, rest);
}

/// Once the source has ended, the request is over after at most two
/// answers of the sink, whatever they are.
pub proof fn law_closing_ends_within_two_answers(s: RelayView, first: bool, second: bool)
    requires
        s.wf(),
        s.closing(),
    ensures
        s.next(EventView::EditDone(first)).0.next(EventView::EditDone(second)).0.phase
            == Phase::Finalized,
{
    lemma_next_keeps_invariants(s, EventView::EditDone(first));
}

} // verus!
