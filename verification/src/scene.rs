//! The collection of agents and the two things that happen to it: an update
//! tick advances every agent by one step, a redraw tick stamps every agent
//! into the pixel buffer, in stored order.

use crate::canvas::{holds_pixel, lemma_stamped_footprint, stamped};
use crate::tube::{Tube, TubeState};
use vstd::prelude::*;

verus! {

/// The mathematical values of a collection of agents, in stored order.
pub open spec fn states(tubes: Seq<Tube>) -> Seq<TubeState> {
    Seq::new(tubes.len(), |i: int| tubes[i]@)
}

/// Every agent of the collection is well-formed.
pub open spec fn all_wf(tubes: Seq<Tube>) -> bool {
    forall|i: int| 0 <= i < tubes.len() ==> (#[trigger] tubes[i])@.wf()
}

/// The buffer after every agent has been stamped into it, first to last.
pub open spec fn composed(frame: Seq<u8>, agents: Seq<TubeState>) -> Seq<u8>
    decreases agents.len(),
{
    if agents.len() == 0 {
        frame
    } else {
        stamped(composed(frame, agents.drop_last()), agents.last().pixel(), agents.last().colour)
    }
}

/// Every agent carries a four-byte colour.
pub open spec fn four_byte_colours(agents: Seq<TubeState>) -> bool {
    forall|k: int| 0 <= k < agents.len() ==> (#[trigger] agents[k]).colour.len() == 4
}

/// A redraw never changes the length of the buffer.
pub proof fn lemma_composed_len(frame: Seq<u8>, agents: Seq<TubeState>)
    requires
        four_byte_colours(agents),
    ensures
        composed(frame, agents).len() == frame.len(),
    decreases agents.len(),
{
    if agents.len() > 0 {
        lemma_composed_len(frame, agents.drop_last());
        lemma_stamped_footprint(
            composed(frame, agents.drop_last()),
            agents.last().pixel(),
            agents.last().colour,
        );
    }
}

/// Draw order decides: where several agents share a pixel that the buffer
/// holds, the pixel shows the colour of the one stored last. Stated for agent
/// `j` and every agent stored after it: if none of those is on `j`'s pixel,
/// the pixel shows `j`'s colour after the redraw.
pub proof fn lemma_last_writer_wins(frame: Seq<u8>, agents: Seq<TubeState>, j: int)
    requires
        four_byte_colours(agents),
        0 <= j < agents.len(),
        holds_pixel(frame.len(), agents[j].pixel()),
        forall|k: int| j < k < agents.len() ==> (#[trigger] agents[k]).pixel() != agents[j].pixel(),
    ensures
        composed(frame, agents).subrange(4 * agents[j].pixel(), 4 * agents[j].pixel() + 4)
            == agents[j].colour,
    decreases agents.len(),
{
    let rest = agents.drop_last();
    let below = composed(frame, rest);
    let p = agents[j].pixel();
    lemma_composed_len(frame, rest);
    lemma_stamped_footprint(below, agents.last().pixel(), agents.last().colour);
    if j < agents.len() - 1 {
        lemma_last_writer_wins(frame, rest, j);
        assert(composed(frame, agents).subrange(4 * p, 4 * p + 4) =~= below.subrange(
            4 * p,
            4 * p + 4,
        ));
    }
}

/// Of two agents on one pixel that the buffer holds, the one drawn second
/// gives the pixel its colour.
pub proof fn lemma_later_agent_overwrites(frame: Seq<u8>, first: TubeState, second: TubeState)
    requires
        first.colour.len() == 4,
        second.colour.len() == 4,
        first.pixel() == second.pixel(),
        holds_pixel(frame.len(), second.pixel()),
    ensures
        composed(frame, seq![first, second]).subrange(4 * second.pixel(), 4 * second.pixel() + 4)
            == second.colour,
{
    lemma_last_writer_wins(frame, seq![first, second], 1);
}

/// A byte that belongs to no agent's pixel is the same after the redraw as
/// before.
pub proof fn lemma_untouched_byte_kept(frame: Seq<u8>, agents: Seq<TubeState>, k: int)
    requires
        four_byte_colours(agents),
        0 <= k < frame.len(),
        forall|i: int|
            0 <= i < agents.len() ==> !(4 * (#[trigger] agents[i]).pixel() <= k < 4
                * agents[i].pixel() + 4),
    ensures
        composed(frame, agents)[k] == frame[k],
    decreases agents.len(),
{
    if agents.len() > 0 {
        let rest = agents.drop_last();
        lemma_untouched_byte_kept(frame, rest, k);
        lemma_composed_len(frame, rest);
        lemma_stamped_footprint(composed(frame, rest), agents.last().pixel(), agents.last().colour);
    }
}

/// The redraw tick: stamps every agent into `frame`, in stored order, so that
/// of several agents on one pixel the last one stored shows. No agent is
/// changed.
pub fn redraw(tubes: &Vec<Tube>, frame: &mut [u8])
    ensures
        final(frame)@ == composed(old(frame)@, states(tubes@)),
{
    let ghost agents = states(tubes@);
    let mut i: usize = 0;
    while i < tubes.len()
        invariant
            0 <= i <= tubes.len(),
            agents == states(tubes@),
            frame@ == composed(old(frame)@, agents.take(i as int)),
        decreases tubes.len() - i,
    {
        proof {
            assert(agents.take(i + 1).drop_last() =~= agents.take(i as int));
            assert(agents.take(i + 1).last() == tubes[i as int]@);
        }
        tubes[i].draw(frame);
        i += 1;
    }
    proof {
        assert(agents.take(i as int) =~= agents);
    }
}

/// The update tick: advances every agent by one step, one after the other.
///
/// Each agent ends where one tick can take it, for draws of its own.
pub fn update(tubes: &mut Vec<Tube>)
    requires
        all_wf(old(tubes)@),
    ensures
        final(tubes).len() == old(tubes).len(),
        all_wf(final(tubes)@),
        forall|i: int|
            0 <= i < old(tubes).len() ==> old(tubes)[i]@.steps_to((#[trigger] final(tubes)[i])@),
{
    let mut i: usize = 0;
    while i < tubes.len()
        invariant
            0 <= i <= tubes.len(),
            tubes.len() == old(tubes).len(),
            all_wf(tubes@),
            forall|k: int| i <= k < tubes.len() ==> tubes[k] == old(tubes)[k],
            forall|k: int| 0 <= k < i ==> old(tubes)[k]@.steps_to((#[trigger] tubes[k])@),
        decreases tubes.len() - i,
    {
        tubes[i].increment();
        i += 1;
    }
}

} // verus!
