//! Fragments that arrive between two ticks become one edit.

use crate::laws::invariants::lemma_run_keeps_invariants;
use crate::laws::trace::{
    concat, edits, fragments, lemma_edits_append, lemma_edits_push, lemma_run_append,
};
use crate::relay::{ActionView, EventView, RelayView};
use vstd::prelude::*;

verus! {

/// Fragments are appended in arrival order, and none of them causes an edit.
pub proof fn lemma_burst_is_appended(s: RelayView, burst: Seq<Seq<char>>)
    requires
        s.draining(),
    ensures
        s.run(fragments(burst)).0 == (RelayView { buffer: s.buffer + concat(burst), ..s }),
        s.run(fragments(burst)).1 == Seq::new(burst.len(), |i: int| ActionView::Nothing),
        edits(s.run(fragments(burst)).1).len() == 0,
    decreases burst.len(),
{
    if burst.len() > 0 {
        lemma_burst_is_appended(s, burst.drop_last());
        assert(fragments(burst).drop_last() == fragments(burst.drop_last()));
        lemma_edits_push(s.run(fragments(burst.drop_last())).1, ActionView::Nothing);
        assert(s.buffer + concat(burst.drop_last()) + burst.last() == s.buffer + concat(burst));
    }
}

/// Coalescing, one interval: however many fragments arrive between two
/// ticks, the tick that follows them causes exactly one edit, which carries
/// everything received so far. The sink must be free to take an edit, and
/// some fragment of the burst must hold text.
pub proof fn law_burst_coalesces(s: RelayView, burst: Seq<Seq<char>>)
    requires
        s.wf(),
        s.draining(),
        s.in_flight is None,
        concat(burst).len() > 0,
    ensures
        ({
            let (after, actions) = s.run(fragments(burst).push(EventView::Tick));
            let text = s.buffer + concat(burst);
            &&& actions.len() == burst.len() + 1
            &&& forall|i: int| 0 <= i < burst.len() ==> actions[i] == ActionView::Nothing
            &&& actions.last() == ActionView::Edit(text)
            &&& edits(actions) == seq![text]
            &&& after == (RelayView { buffer: text, in_flight: Some(text), ..s })
        }),
{
    lemma_burst_is_appended(s, burst);
    let events = fragments(burst).push(EventView::Tick);
    assert(events.drop_last() == fragments(burst));
    lemma_edits_push(s.run(fragments(burst)).1, ActionView::Edit(s.buffer + concat(burst)));
}

/// The fragments of `burst`, the tick that follows them, and the sink's
/// answer to the edit: `applied` says whether it took it.
pub open spec fn interval(burst: Seq<Seq<char>>, applied: bool) -> Seq<EventView> {
    fragments(burst).push(EventView::Tick).push(EventView::EditDone(applied))
}

/// One interval after another.
pub open spec fn intervals(bursts: Seq<Seq<Seq<char>>>, applied: Seq<bool>) -> Seq<EventView>
    decreases bursts.len(),
{
    if bursts.len() == 0 {
        Seq::empty()
    } else {
        intervals(bursts.drop_last(), applied.drop_last()) + interval(
            bursts.last(),
            applied.last(),
        )
    }
}

/// The text of all the bursts, in order.
pub open spec fn concat_all(bursts: Seq<Seq<Seq<char>>>) -> Seq<char>
    decreases bursts.len(),
{
    if bursts.len() == 0 {
        Seq::empty()
    } else {
        concat_all(bursts.drop_last()) + concat(bursts.last())
    }
}

/// Coalescing: where fragments arrive faster than the timer ticks, so that
/// every interval brings some text, and the sink answers each edit before
/// the next tick, there is exactly one edit for each tick, and the edit of
/// each tick carries everything received up to that tick. Whether the sink
/// applied or rejected the edits makes no difference.
pub proof fn law_one_edit_per_tick(
    s: RelayView,
    bursts: Seq<Seq<Seq<char>>>,
    applied: Seq<bool>,
)
    requires
        s.wf(),
        s.draining(),
        s.in_flight is None,
        applied.len() == bursts.len(),
        forall|k: int| 0 <= k < bursts.len() ==> concat(#[trigger] bursts[k]).len() > 0,
    ensures
        ({
            let (after, actions) = s.run(intervals(bursts, applied));
            &&& edits(actions).len() == bursts.len()
            &&& forall|k: int|
                0 <= k < bursts.len() ==> #[trigger] edits(actions)[k] == s.buffer + concat_all(
                    bursts.take(k + 1),
                )
            &&& after.buffer == s.buffer + concat_all(bursts)
            &&& bursts.len() > 0 && applied.last() ==> after.published == after.buffer
            &&& after.in_flight is None
            &&& after.draining()
            &&& after.wf()
        }),
    decreases bursts.len(),
{
    if bursts.len() > 0 {
        let earlier = bursts.drop_last();
        let burst = bursts.last();
        law_one_edit_per_tick(s, earlier, applied.drop_last());
        let (mid, before) = s.run(intervals(earlier, applied.drop_last()));
        lemma_run_append(
            s,
            intervals(earlier, applied.drop_last()),
            interval(burst, applied.last()),
        );
        law_burst_coalesces(mid, burst);
        let ticked = fragments(burst).push(EventView::Tick);
        assert(interval(burst, applied.last()).drop_last() == ticked);
        lemma_edits_push(mid.run(ticked).1, ActionView::Nothing);
        lemma_edits_append(before, mid.run(interval(burst, applied.last())).1);
        let actions = s.run(intervals(bursts, applied)).1;
        assert forall|k: int| 0 <= k < bursts.len() implies #[trigger] edits(actions)[k]
            == s.buffer + concat_all(bursts.take(k + 1)) by {
            if k < earlier.len() {
                assert(bursts.take(k + 1) == earlier.take(k + 1));
            } else {
                assert(bursts.take(k + 1) == bursts);
            }
        }
        lemma_run_keeps_invariants(s, intervals(bursts, applied));
    }
}

} // verus!
