//! The bounded log of a player's past rounds.

use vstd::prelude::*;
use vstd::array::{spec_array_fill_for_copy_type, spec_array_update};
use crate::round::Round;

verus! {

/// How many past rounds a player's history keeps.
pub const MAX_HISTORY: u32 = 48;

/// A ring of the most recent rounds: `rounds[idx]` is the slot that the next
/// round is written to, which holds the oldest round once the ring is full.
#[derive(Clone, Copy, Debug)]
pub struct History {
    pub idx: u32,
    pub max: u32,
    pub rounds: [Round; 48],
}

impl History {
    /// Whether the write cursor points into the ring.
    pub open spec fn wf(self) -> bool {
        self.idx < MAX_HISTORY
    }

    /// The empty history: every slot holds the round of a player who has
    /// never bet, and the cursor is at the first slot.
    pub open spec fn empty() -> History {
        History {
            idx: 0,
            max: MAX_HISTORY,
            rounds: spec_array_fill_for_copy_type::<Round, 48>(Round::zeroed()),
        }
    }

    /// Whether the history is the empty one, slot by slot.
    pub open spec fn is_empty(self) -> bool {
        &&& self.idx == 0
        &&& self.max == MAX_HISTORY
        &&& forall|i: int| 0 <= i < MAX_HISTORY ==> self.rounds@[i] == Round::zeroed()
    }

    /// A history is the empty one exactly if every slot of it is blank and
    /// its cursor is at the first.
    pub proof fn lemma_empty(self)
        ensures
            self.is_empty() <==> self == History::empty(),
    {
        vstd::array::axiom_spec_array_fill_for_copy_type::<Round, 48>(Round::zeroed());
        if self.is_empty() {
            assert(self.rounds =~= History::empty().rounds);
        }
    }

    /// The history after `round` is written at the cursor and the cursor has
    /// moved on by one slot, back to the first after the last.
    pub open spec fn pushed(self, round: Round) -> History {
        History {
            idx: ((self.idx + 1) % (MAX_HISTORY as int)) as u32,
            max: self.max,
            rounds: spec_array_update(self.rounds, self.idx as int, round),
        }
    }

    /// The history after the rounds of `rounds` have been pushed, the first
    /// of them first.
    pub open spec fn pushed_all(self, rounds: Seq<Round>) -> History
        decreases rounds.len(),
    {
        if rounds.len() == 0 {
            self
        } else {
            self.pushed_all(rounds.drop_last()).pushed(rounds.last())
        }
    }

    /// Writes `round` at the cursor, over the oldest entry once the ring is
    /// full, and advances the cursor.
    pub fn push(&mut self, round: Round)
        requires
            old(self).wf(),
        ensures
            *final(self) == old(self).pushed(round),
            final(self).wf(),
    {
        let history_idx: u32 = self.idx;
        self.rounds[history_idx as usize] = round;
        self.idx = (history_idx + 1) % MAX_HISTORY;
        assert(self.rounds =~= spec_array_update(old(self).rounds, old(self).idx as int, round));
    }
}

/// The ring keeps the latest rounds and loses the oldest: after any number of
/// rounds have been pushed, the cursor has moved on by that number around the
/// ring, each of the last 48 rounds pushed is in the slot that the cursor
/// pointed to when it came, and a slot that the cursor has not reached holds
/// what it held.
pub proof fn lemma_ring_keeps_the_latest(start: History, rounds: Seq<Round>)
    requires
        start.wf(),
    ensures
        ({
            let after = start.pushed_all(rounds);
            let n = rounds.len() as int;
            &&& after.wf()
            &&& after.max == start.max
            &&& after.idx == (start.idx + n) % (MAX_HISTORY as int)
            &&& forall|k: int|
                0 <= k < n && n - MAX_HISTORY <= k ==> after.rounds@[(start.idx + k) % (
                MAX_HISTORY as int)] == rounds[k]
            &&& forall|i: int|
                0 <= i < MAX_HISTORY && n <= (i - start.idx) % (MAX_HISTORY as int)
                    ==> after.rounds@[i] == start.rounds@[i]
        }),
    decreases rounds.len(),
{
    if rounds.len() > 0 {
        let earlier = rounds.drop_last();
        let before = start.pushed_all(earlier);
        let after = before.pushed(rounds.last());
        let n = rounds.len() as int;
        lemma_ring_keeps_the_latest(start, earlier);
        vstd::array::axiom_spec_array_update(before.rounds, before.idx as int, rounds.last());
        assert(after.rounds@ == before.rounds@.update(before.idx as int, rounds.last()));
        assert forall|k: int| 0 <= k < n && n - MAX_HISTORY <= k implies after.rounds@[(start.idx
            + k) % (MAX_HISTORY as int)] == rounds[k] by {
            if k < n - 1 {
                assert(earlier[k] == rounds[k]);
            }
        }
    }
}

impl Default for History {
    fn default() -> (history: History)
        ensures
            history == History::empty(),
    {
        let blank = Round::default();
        let rounds: [Round; 48] = [blank; 48];
        proof {
            vstd::array::axiom_spec_array_fill_for_copy_type::<Round, 48>(blank);
        }
        let history = History { idx: 0, max: MAX_HISTORY, rounds };
        proof {
            history.lemma_empty();
        }
        history
    }
}

} // verus!
