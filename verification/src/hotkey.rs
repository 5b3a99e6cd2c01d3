//! The hot-key watcher: turns polled key states into stop actions, one for
//! each press of the key however long the key is held.

use vstd::prelude::*;

verus! {

/// Time between two polls of the key state, in milliseconds.
pub const POLL_INTERVAL_MILLIS: u64 = 50;

/// Whether a poll that finds the key `is_down`, after one that found it
/// `was_down`, has seen the key go down.
pub open spec fn rising_edge(was_down: bool, is_down: bool) -> bool {
    is_down && !was_down
}

/// The number of stop actions that a watcher fires over `samples`, the key
/// states of consecutive polls, when the poll before them found the key
/// `was_down`.
pub open spec fn fire_count(was_down: bool, samples: Seq<bool>) -> nat
    decreases samples.len(),
{
    if samples.len() == 0 {
        0
    } else {
        let first: nat = if rising_edge(was_down, samples[0]) { 1 } else { 0 };
        first + fire_count(samples[0], samples.drop_first())
    }
}

/// The key state a watcher remembers after `samples`, when it remembered
/// `was_down` before them.
pub open spec fn last_seen(was_down: bool, samples: Seq<bool>) -> bool {
    if samples.len() == 0 {
        was_down
    } else {
        samples.last()
    }
}

/// `polls` consecutive polls that all find the key in the state `down`.
pub open spec fn steady(down: bool, polls: nat) -> Seq<bool> {
    Seq::new(polls, |i: int| down)
}

/// One press of the key as the watcher meets it: the key is up for some
/// polls, then down for some polls.
pub struct KeyPress {
    /// Polls that find the key up before the press.
    pub up_polls: nat,
    /// Polls that find the key down during the press.
    pub down_polls: nat,
}

/// The key states of the polls that meet the given presses one after
/// another.
pub open spec fn press_train(presses: Seq<KeyPress>) -> Seq<bool>
    decreases presses.len(),
{
    if presses.len() == 0 {
        Seq::empty()
    } else {
        press_train(presses.drop_last()) + steady(false, presses.last().up_polls) + steady(
            true,
            presses.last().down_polls,
        )
    }
}

/// The watcher's memory: the key state that the previous poll found.
#[derive(Clone, Copy, Debug, PartialEq, Eq, Structural)]
pub struct HotkeyWatcher {
    was_down: bool,
}

impl View for HotkeyWatcher {
    type V = bool;

    closed spec fn view(&self) -> bool {
        self.was_down
    }
}

impl HotkeyWatcher {
    /// A watcher that has not polled yet. It takes the key to have been up.
    pub fn new() -> (watcher: Self)
        ensures
            !watcher@,
    {
        HotkeyWatcher { was_down: false }
    }

    /// Takes in the key state of one poll. Returns whether to fire the stop
    /// action, which is so exactly when the key has gone down since the
    /// previous poll.
    pub fn poll(&mut self, key_down: bool) -> (fire: bool)
        ensures
            fire == rising_edge(old(self)@, key_down),
            final(self)@ == key_down,
    {
        let fire = key_down && !self.was_down;
        self.was_down = key_down;
        fire
    }
}

/// Polls in a row count their stop actions one stretch after the other, the
/// later stretch starting from what the earlier one saw last.
pub proof fn lemma_fire_count_concat(was_down: bool, earlier: Seq<bool>, later: Seq<bool>)
    ensures
        fire_count(was_down, earlier + later) == fire_count(was_down, earlier) + fire_count(
            last_seen(was_down, earlier),
            later,
        ),
        last_seen(was_down, earlier + later) == last_seen(last_seen(was_down, earlier), later),
    decreases earlier.len(),
{
    if earlier.len() == 0 {
        assert(earlier + later =~= later);
    } else {
        let rest = earlier.drop_first();
        assert((earlier + later).drop_first() =~= rest + later);
        assert((earlier + later)[0] == earlier[0]);
        lemma_fire_count_concat(earlier[0], rest, later);
        if rest.len() > 0 {
            assert(rest.last() == earlier.last());
        }
    }
}

/// While the key stays in one state, only the first poll can fire: a key
/// held down over any number of polls fires once if it was up before and
/// not at all if it was down already, and a key that stays up never fires.
pub proof fn lemma_steady_fires_at_most_once(was_down: bool, down: bool, polls: nat)
    ensures
        fire_count(was_down, steady(down, polls)) == if polls > 0 && rising_edge(was_down, down) {
            1nat
        } else {
            0nat
        },
        last_seen(was_down, steady(down, polls)) == if polls > 0 {
            down
        } else {
            was_down
        },
    decreases polls,
{
    if polls > 0 {
        let rest: nat = (polls - 1) as nat;
        assert(steady(down, polls).drop_first() =~= steady(down, rest));
        lemma_steady_fires_at_most_once(down, down, rest);
    }
}

/// The stop action fires exactly once per press: over polls that meet any
/// number of presses, each held for at least one poll and each but the
/// first parted from the one before by at least one poll with the key up,
/// a watcher that starts with the key up fires as many times as there are
/// presses.
pub proof fn lemma_one_fire_per_press(presses: Seq<KeyPress>)
    requires
        forall|i: int| 0 <= i < presses.len() ==> (#[trigger] presses[i]).down_polls >= 1,
        forall|i: int| 1 <= i < presses.len() ==> (#[trigger] presses[i]).up_polls >= 1,
    ensures
        fire_count(false, press_train(presses)) == presses.len(),
        last_seen(false, press_train(presses)) == (presses.len() > 0),
    decreases presses.len(),
{
    if presses.len() > 0 {
        let before = presses.drop_last();
        let press = presses.last();
        let head = press_train(before);
        let gap = steady(false, press.up_polls);
        let hold = steady(true, press.down_polls);
        assert forall|i: int| 0 <= i < before.len() implies (#[trigger] before[i]).down_polls
            >= 1 by {
            assert(before[i] == presses[i]);
        }
        assert forall|i: int| 1 <= i < before.len() implies (#[trigger] before[i]).up_polls
            >= 1 by {
            assert(before[i] == presses[i]);
        }
        lemma_one_fire_per_press(before);
        lemma_fire_count_concat(false, head, gap);
        lemma_steady_fires_at_most_once(last_seen(false, head), false, press.up_polls);
        lemma_fire_count_concat(false, head + gap, hold);
        lemma_steady_fires_at_most_once(last_seen(false, head + gap), true, press.down_polls);
    }
}

} // verus!
