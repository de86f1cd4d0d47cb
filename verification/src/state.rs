//! Live state of the explorer page: the most recently finalized block
//! number and the ordered list of all numbers seen so far, newest first.

use vstd::prelude::*;

verus! {

/// The page's live state. `current` is the number shown in the navigation
/// bar; `blocks` is the list view's backing data, newest arrival first.
pub struct ExplorerState {
    pub current: u32,
    pub blocks: Vec<u32>,
}

/// One notification step: the newly finalized number is prepended to the
/// list of seen blocks.
pub open spec fn step_blocks(blocks: Seq<u32>, n: u32) -> Seq<u32> {
    seq![n] + blocks
}

/// The block list after replaying a sequence of notifications in arrival
/// order, starting from an empty history.
pub open spec fn replay_blocks(notifs: Seq<u32>) -> Seq<u32>
    decreases notifs.len(),
{
    if notifs.len() == 0 {
        Seq::empty()
    } else {
        step_blocks(replay_blocks(notifs.drop_last()), notifs.last())
    }
}

/// The displayed current number after replaying a sequence of
/// notifications: the last arrival, or zero before any arrive.
pub open spec fn replay_current(notifs: Seq<u32>) -> u32 {
    if notifs.len() == 0 {
        0u32
    } else {
        notifs.last()
    }
}

impl ExplorerState {
    /// The state before any notification: current number zero, no blocks.
    pub fn new() -> (s: Self)
        ensures
            s.current == 0,
            s.blocks@ == Seq::<u32>::empty(),
    {
        ExplorerState { current: 0, blocks: Vec::new() }
    }

    /// Handle one finalized-block notification: the number becomes the
    /// current one and is prepended to the list of seen blocks.
    pub fn on_finalized(&mut self, n: u32)
        ensures
            final(self).current == n,
            final(self).blocks@ == step_blocks(old(self).blocks@, n),
    {
        self.current = n;
        self.blocks.insert(0, n);
        proof {
            assert(self.blocks@ =~= step_blocks(old(self).blocks@, n));
        }
    }
}

/// Replay a whole arrival history through a fresh state.
pub fn replay(notifs: &Vec<u32>) -> (s: ExplorerState)
    ensures
        s.blocks@ == replay_blocks(notifs@),
        s.current == replay_current(notifs@),
{
    let mut s = ExplorerState::new();
    let mut i: usize = 0;
    while i < notifs.len()
        invariant
            i <= notifs@.len(),
            s.blocks@ == replay_blocks(notifs@.take(i as int)),
            s.current == replay_current(notifs@.take(i as int)),
        decreases notifs@.len() - i,
    {
        s.on_finalized(notifs[i]);
        i = i + 1;
        proof {
            let pre = notifs@.take(i - 1);
            let cur = notifs@.take(i as int);
            assert(cur.drop_last() =~= pre);
            assert(cur.last() == notifs@[i - 1]);
        }
    }
    proof {
        assert(notifs@.take(notifs@.len() as int) =~= notifs@);
    }
    s
}

/// Law: after any arrival history, the block list holds exactly the
/// notified numbers in reverse arrival order (newest first), and the
/// current number is the latest arrival (zero for an empty history).
pub proof fn lemma_history_newest_first(notifs: Seq<u32>)
    ensures
        replay_blocks(notifs) == notifs.reverse(),
        notifs.len() > 0 ==> replay_current(notifs) == notifs.last(),
        notifs.len() == 0 ==> replay_blocks(notifs) == Seq::<u32>::empty() && replay_current(
            notifs,
        ) == 0,
    decreases notifs.len(),
{
    if notifs.len() == 0 {
        assert(replay_blocks(notifs) =~= notifs.reverse());
    } else {
        lemma_history_newest_first(notifs.drop_last());
        assert forall|i: int| 0 <= i < notifs.len() implies notifs.reverse()[i] == replay_blocks(
            notifs,
        )[i] by {
            if i > 0 {
                assert(replay_blocks(notifs)[i] == notifs.drop_last().reverse()[i - 1]);
            }
        }
        assert(replay_blocks(notifs) =~= notifs.reverse());
    }
}

} // verus!
