//! The clicker as a whole: the shared cells, the watcher's memory and every
//! worker ever started, moved on by the events that the three actors cause
//! in any order.
//!
//! Nothing here runs. The model is built from the same rules that the
//! executable flag, rate, watcher and workers are proved to follow, and the
//! theorems below say what therefore holds of every interleaving.

use vstd::prelude::*;
use crate::flag::{FlagView, TICKET_LIMIT, lemma_revoked_stays_revoked};
use crate::hotkey::rising_edge;
use crate::rate::{DEFAULT_RATE, clamped, in_range};
use crate::worker::{ObservationView, WorkerAction, WorkerView};

verus! {

/// A worker together with the number of presses it has asked for so far.
pub struct WorkerRecord {
    /// The worker.
    pub worker: WorkerView,
    /// The number of steps in which it has asked to press.
    pub presses: nat,
}

/// The state of the whole clicker.
pub struct ClickerState {
    /// The active flag.
    pub flag: FlagView,
    /// The click rate.
    pub rate: int,
    /// The key state that the watcher found at its previous poll.
    pub key_was_down: bool,
    /// Every worker started so far, in the order in which they were started.
    /// Workers that have terminated stay on record.
    pub workers: Seq<WorkerRecord>,
}

/// Something that one of the actors does.
pub enum Event {
    /// The user presses the toggle button.
    Toggle,
    /// The user adjusts the rate control.
    RateInput { raw: int },
    /// The watcher polls the hot-key.
    KeyPoll { key_down: bool },
    /// The worker at `index` makes a step, having done what its previous step
    /// asked for.
    WorkerStep { index: int, injector_ready: bool },
}

impl ClickerState {
    /// The clicker at process start.
    pub open spec fn initial() -> ClickerState {
        ClickerState {
            flag: FlagView::initial(),
            rate: DEFAULT_RATE as int,
            key_was_down: false,
            workers: Seq::empty(),
        }
    }

    /// Whether a worker stands on record at `index`.
    pub open spec fn has_worker(self, index: int) -> bool {
        0 <= index < self.workers.len()
    }

    /// The worker at `index`.
    pub open spec fn worker(self, index: int) -> WorkerView
        recommends
            self.has_worker(index),
    {
        self.workers[index].worker
    }

    /// The number of presses that the worker at `index` has asked for.
    pub open spec fn presses(self, index: int) -> nat
        recommends
            self.has_worker(index),
    {
        self.workers[index].presses
    }

    /// What a worker takes in when it makes a step now.
    pub open spec fn observed(self, injector_ready: bool) -> ObservationView {
        ObservationView { flag: self.flag, rate: self.rate, injector_ready }
    }

    /// What the worker at `index` would ask for if it made a step now.
    pub open spec fn next_action(self, index: int, injector_ready: bool) -> WorkerAction
        recommends
            self.has_worker(index),
    {
        self.worker(index).step(self.observed(injector_ready)).1
    }

    /// Whether the worker at `index` is live: not terminated, and holding
    /// the ticket that the flag permits.
    pub open spec fn is_live(self, index: int) -> bool {
        &&& self.has_worker(index)
        &&& !(self.worker(index).phase is Terminated)
        &&& self.flag.permits(self.worker(index).ticket)
    }

    /// Whether the worker at `index` would press if it made a step now.
    pub open spec fn would_press(self, index: int, injector_ready: bool) -> bool {
        self.has_worker(index) && self.next_action(index, injector_ready) is Press
    }

    /// The state after one event.
    pub open spec fn next(self, event: Event) -> ClickerState {
        match event {
            Event::Toggle => ClickerState {
                flag: self.flag.toggled(),
                rate: self.rate,
                key_was_down: self.key_was_down,
                workers: match self.flag.spawned() {
                    Some(ticket) => self.workers.push(
                        WorkerRecord { worker: WorkerView::fresh(ticket), presses: 0 },
                    ),
                    None => self.workers,
                },
            },
            Event::RateInput { raw } => ClickerState {
                flag: self.flag,
                rate: clamped(raw),
                key_was_down: self.key_was_down,
                workers: self.workers,
            },
            Event::KeyPoll { key_down } => ClickerState {
                flag: if rising_edge(self.key_was_down, key_down) {
                    self.flag.stopped()
                } else {
                    self.flag
                },
                rate: self.rate,
                key_was_down: key_down,
                workers: self.workers,
            },
            Event::WorkerStep { index, injector_ready } => if self.has_worker(index) {
                let (worker, action) = self.worker(index).step(self.observed(injector_ready));
                let pressed: nat = if action is Press { 1 } else { 0 };
                ClickerState {
                    flag: self.flag,
                    rate: self.rate,
                    key_was_down: self.key_was_down,
                    workers: self.workers.update(
                        index,
                        WorkerRecord { worker, presses: self.presses(index) + pressed },
                    ),
                }
            } else {
                self
            },
        }
    }

    /// The state after `events`, one after another.
    pub open spec fn after(self, events: Seq<Event>) -> ClickerState
        decreases events.len(),
    {
        if events.len() == 0 {
            self
        } else {
            self.after(events.drop_last()).next(events.last())
        }
    }

    /// What holds of every state that the clicker can reach: the rate is
    /// within its bounds, the workers on record are those of the tickets
    /// handed out, in order, and a worker that has not yet come to its first
    /// click has not pressed.
    pub open spec fn inv(self) -> bool {
        &&& in_range(self.rate)
        &&& self.flag.generation <= TICKET_LIMIT
        &&& self.workers.len() == self.flag.generation
        &&& forall|i: int|
            self.has_worker(i) ==> {
                let record = #[trigger] self.workers[i];
                &&& record.worker.ticket == i + 1
                &&& in_range(record.worker.rate)
                &&& !record.worker.phase.has_begun() ==> record.presses == 0
            }
    }
}

/// The clicker starts in a state of which the invariant holds.
pub proof fn lemma_initial_inv()
    ensures
        ClickerState::initial().inv(),
{
}

/// Every event keeps the invariant, and keeps every worker on record under
/// its ticket.
pub proof fn lemma_next_keeps_inv(sys: ClickerState, event: Event)
    requires
        sys.inv(),
    ensures
        sys.next(event).inv(),
        forall|i: int|
            sys.has_worker(i) ==> #[trigger] sys.next(event).has_worker(i) && sys.next(
                event,
            ).worker(i).ticket == sys.worker(i).ticket,
{
}

/// Every run of events keeps the invariant, and keeps every worker on record
/// under its ticket.
pub proof fn lemma_after_keeps_inv(sys: ClickerState, events: Seq<Event>)
    requires
        sys.inv(),
    ensures
        sys.after(events).inv(),
        forall|i: int|
            sys.has_worker(i) ==> #[trigger] sys.after(events).has_worker(i) && sys.after(
                events,
            ).worker(i).ticket == sys.worker(i).ticket,
    decreases events.len(),
{
    if events.len() > 0 {
        let before = sys.after(events.drop_last());
        lemma_after_keeps_inv(sys, events.drop_last());
        lemma_next_keeps_inv(before, events.last());
        assert forall|i: int| sys.has_worker(i) implies #[trigger] sys.after(events).has_worker(i)
            && sys.after(events).worker(i).ticket == sys.worker(i).ticket by {
            assert(before.has_worker(i));
            assert(before.next(events.last()).has_worker(i));
        }
    }
}

/// At most one worker is live.
pub proof fn lemma_single_live_worker(sys: ClickerState, one: int, other: int)
    requires
        sys.inv(),
        sys.is_live(one),
        sys.is_live(other),
    ensures
        one == other,
{
}

/// Only a live worker presses or opens the injector.
pub proof fn lemma_only_a_live_worker_clicks(sys: ClickerState, index: int, injector_ready: bool)
    requires
        sys.has_worker(index),
        !sys.is_live(index),
    ensures
        !(sys.next_action(index, injector_ready) is Press),
        !(sys.next_action(index, injector_ready) is OpenInjector),
{
}

/// At most one worker clicks. In a state of which the invariant holds, two
/// workers that would both press in their next step are one and the same
/// worker.
pub proof fn lemma_single_clicker(
    sys: ClickerState,
    one: int,
    other: int,
    one_ready: bool,
    other_ready: bool,
)
    requires
        sys.inv(),
        sys.would_press(one, one_ready),
        sys.would_press(other, other_ready),
    ensures
        one == other,
{
}

/// At most one worker clicks, in every state that the clicker reaches from
/// its start.
pub proof fn lemma_single_clicker_always(
    events: Seq<Event>,
    one: int,
    other: int,
    one_ready: bool,
    other_ready: bool,
)
    requires
        ClickerState::initial().after(events).would_press(one, one_ready),
        ClickerState::initial().after(events).would_press(other, other_ready),
    ensures
        one == other,
{
    let reached = ClickerState::initial().after(events);
    lemma_initial_inv();
    lemma_after_keeps_inv(ClickerState::initial(), events);
    lemma_single_clicker(reached, one, other, one_ready, other_ready);
}

/// A toggle starts a worker only when it takes the flag from inactive to
/// active, and then exactly one: a fresh worker whose ticket the flag
/// permits. No other event starts a worker.
pub proof fn lemma_only_a_rising_toggle_spawns(sys: ClickerState, event: Event)
    requires
        sys.inv(),
    ensures
        ({
            let then = sys.next(event);
            let rising_toggle = event is Toggle && !sys.flag.active && then.flag.active;
            &&& rising_toggle ==> then.workers.len() == sys.workers.len() + 1
            &&& rising_toggle ==> then.workers.last().worker == WorkerView::fresh(
                then.flag.generation,
            )
            &&& rising_toggle ==> then.is_live(then.workers.len() - 1)
            &&& !rising_toggle ==> then.workers.len() == sys.workers.len()
        }),
{
}

/// The rate control touches nothing but the rate: it neither stops nor
/// restarts a worker.
pub proof fn lemma_rate_input_touches_only_the_rate(sys: ClickerState, raw: int)
    ensures
        sys.next(Event::RateInput { raw }) == (ClickerState {
            flag: sys.flag,
            rate: clamped(raw),
            key_was_down: sys.key_was_down,
            workers: sys.workers,
        }),
{
}

/// A new rate takes effect with the next click. Once the rate control has
/// written a rate, the worker that presses next does so at that rate,
/// brought within the bounds, and pauses accordingly after the click.
pub proof fn lemma_rate_takes_effect_at_next_click(
    sys: ClickerState,
    raw: int,
    index: int,
    injector_ready: bool,
)
    requires
        sys.next(Event::RateInput { raw }).would_press(index, injector_ready),
    ensures
        ({
            let adjusted = sys.next(Event::RateInput { raw });
            let clicked = adjusted.next(Event::WorkerStep { index, injector_ready });
            &&& adjusted.rate == clamped(raw)
            &&& in_range(adjusted.rate)
            &&& clicked.worker(index).phase is Pressing
            &&& clicked.worker(index).rate == clamped(raw)
            &&& clicked.presses(index) == sys.presses(index) + 1
        }),
{
}

/// The two cells never have to change together. Writing the rate and then
/// doing something to the flag, by the toggle or by a poll of the hot-key,
/// ends in the same state as the two in the other order. A worker that
/// reads the flag and the rate one after the other therefore takes in
/// nothing that it could not have taken in at one instant.
pub proof fn lemma_rate_and_flag_events_commute(sys: ClickerState, raw: int, event: Event)
    requires
        event is Toggle || event is KeyPoll,
    ensures
        sys.next(Event::RateInput { raw }).next(event) == sys.next(event).next(
            Event::RateInput { raw },
        ),
{
}

/// One event leaves a worker silent whose ticket is not permitted: the
/// worker does not press, its ticket is not permitted afterwards, and if it
/// had not begun to click it still has not.
proof fn lemma_revoked_step(sys: ClickerState, index: int, event: Event)
    requires
        sys.inv(),
        sys.has_worker(index),
        !sys.flag.permits(sys.worker(index).ticket),
    ensures
        sys.next(event).presses(index) == sys.presses(index),
        !sys.next(event).flag.permits(sys.worker(index).ticket),
        !sys.worker(index).phase.is_clicking() ==> !sys.next(event).worker(
            index,
        ).phase.is_clicking(),
{
    lemma_revoked_stays_revoked(sys.flag, sys.worker(index).ticket);
}

/// Once a worker's ticket is not permitted, the worker never presses again
/// and its ticket is never permitted again, whatever happens. If the worker
/// had not begun to click, it never will.
pub proof fn lemma_revoked_worker_is_silent(sys: ClickerState, index: int, events: Seq<Event>)
    requires
        sys.inv(),
        sys.has_worker(index),
        !sys.flag.permits(sys.worker(index).ticket),
    ensures
        sys.after(events).presses(index) == sys.presses(index),
        !sys.after(events).flag.permits(sys.worker(index).ticket),
        !sys.after(events).is_live(index),
        !sys.after(events).would_press(index, true),
        !sys.after(events).would_press(index, false),
        !sys.worker(index).phase.is_clicking() ==> !sys.after(events).worker(
            index,
        ).phase.is_clicking(),
    decreases events.len(),
{
    lemma_after_keeps_inv(sys, events);
    assert(sys.after(events).has_worker(index));
    if events.len() > 0 {
        let before = sys.after(events.drop_last());
        lemma_revoked_worker_is_silent(sys, index, events.drop_last());
        lemma_after_keeps_inv(sys, events.drop_last());
        assert(before.has_worker(index));
        lemma_revoked_step(before, index, events.last());
    }
}

/// Toggling off and on again in quick succession leaves only the new worker
/// to click. After the two toggles every worker that was there before them
/// has lost its permission for good: none of them ever presses again,
/// whether it was waiting or in the middle of a click.
pub proof fn lemma_retoggle_silences_old_workers(sys: ClickerState, index: int, events: Seq<Event>)
    requires
        sys.inv(),
        sys.flag.active,
        sys.has_worker(index),
    ensures
        ({
            let restarted = sys.next(Event::Toggle).next(Event::Toggle);
            &&& restarted.workers.len() <= sys.workers.len() + 1
            &&& restarted.after(events).presses(index) == sys.presses(index)
            &&& !restarted.after(events).is_live(index)
            &&& !restarted.after(events).would_press(index, true)
            &&& !restarted.after(events).would_press(index, false)
        }),
{
    let off = sys.next(Event::Toggle);
    let restarted = off.next(Event::Toggle);
    lemma_next_keeps_inv(sys, Event::Toggle);
    assert(off.has_worker(index));
    lemma_revoked_step(off, index, Event::Toggle);
    lemma_next_keeps_inv(off, Event::Toggle);
    assert(restarted.has_worker(index));
    lemma_revoked_worker_is_silent(restarted, index, events);
}

/// A stop within the grace period means no click at all. A worker that has
/// not come to the end of its grace period when its ticket stops being
/// permitted never presses and never opens the injector: it goes from
/// waiting straight to terminated.
pub proof fn lemma_stop_within_grace(sys: ClickerState, index: int, events: Seq<Event>)
    requires
        sys.inv(),
        sys.has_worker(index),
        sys.worker(index).phase is Idle || sys.worker(index).phase is GraceWait,
        !sys.flag.permits(sys.worker(index).ticket),
    ensures
        sys.after(events).presses(index) == 0,
        !sys.after(events).worker(index).phase.is_clicking(),
{
    lemma_revoked_worker_is_silent(sys, index, events);
}

/// Activating and then stopping before the new worker has come to the end
/// of its grace period gives no click. If, after the toggle that started a
/// worker, events of any kind leave the flag inactive while that worker is
/// still waiting, the worker never presses, whatever happens afterwards.
pub proof fn lemma_start_then_stop_gives_no_click(
    sys: ClickerState,
    until_stopped: Seq<Event>,
    afterwards: Seq<Event>,
)
    requires
        sys.inv(),
        sys.flag.spawned() is Some,
        ({
            let stopped = sys.next(Event::Toggle).after(until_stopped);
            let worker = stopped.worker(sys.workers.len() as int);
            &&& !stopped.flag.active
            &&& worker.phase is Idle || worker.phase is GraceWait
        }),
    ensures
        ({
            let started = sys.next(Event::Toggle);
            let stopped = started.after(until_stopped);
            let index: int = sys.workers.len() as int;
            &&& started.is_live(index)
            &&& started.worker(index) == WorkerView::fresh(started.flag.generation)
            &&& stopped.after(afterwards).presses(index) == 0
            &&& !stopped.after(afterwards).worker(index).phase.is_clicking()
        }),
{
    let index: int = sys.workers.len() as int;
    let started = sys.next(Event::Toggle);
    let stopped = started.after(until_stopped);
    lemma_next_keeps_inv(sys, Event::Toggle);
    assert(started.has_worker(index));
    lemma_after_keeps_inv(started, until_stopped);
    assert(stopped.has_worker(index));
    lemma_stop_within_grace(stopped, index, afterwards);
}

/// A press of the hot-key stops the clicking. When the watcher sees the key
/// go down, the flag becomes inactive, no worker is started or lost, and
/// none of the workers there ever presses again, whatever happens later.
pub proof fn lemma_hotkey_stops_clicking(sys: ClickerState, index: int, events: Seq<Event>)
    requires
        sys.inv(),
        !sys.key_was_down,
        sys.has_worker(index),
    ensures
        ({
            let stopped = sys.next(Event::KeyPoll { key_down: true });
            &&& !stopped.flag.active
            &&& stopped.flag.generation == sys.flag.generation
            &&& stopped.workers == sys.workers
            &&& stopped.after(events).presses(index) == sys.presses(index)
            &&& !stopped.after(events).is_live(index)
            &&& !stopped.after(events).would_press(index, true)
            &&& !stopped.after(events).would_press(index, false)
        }),
{
    let stopped = sys.next(Event::KeyPoll { key_down: true });
    lemma_next_keeps_inv(sys, Event::KeyPoll { key_down: true });
    lemma_revoked_worker_is_silent(stopped, index, events);
}

/// The hot-key is a stop switch only: no poll ever makes an inactive flag
/// active, and no poll starts a worker.
pub proof fn lemma_hotkey_never_starts(sys: ClickerState, key_down: bool)
    ensures
        sys.next(Event::KeyPoll { key_down }).flag.active ==> sys.flag.active,
        sys.next(Event::KeyPoll { key_down }).workers == sys.workers,
{
}

/// While the flag is inactive a poll of the hot-key changes nothing but the
/// watcher's memory, whatever it finds: the flag stays as it is, no worker
/// is started and none is touched.
pub proof fn lemma_hotkey_when_inactive_is_noop(sys: ClickerState, key_down: bool)
    requires
        !sys.flag.active,
    ensures
        sys.next(Event::KeyPoll { key_down }) == (ClickerState {
            flag: sys.flag,
            rate: sys.rate,
            key_was_down: key_down,
            workers: sys.workers,
        }),
{
}

/// While the key is held down, polls after the first change nothing at all:
/// the stop action is not fired again, so that the user can start the
/// clicking anew without letting go of the key first.
pub proof fn lemma_held_key_is_noop(sys: ClickerState)
    requires
        sys.key_was_down,
    ensures
        sys.next(Event::KeyPoll { key_down: true }) == sys,
{
}

} // verus!
