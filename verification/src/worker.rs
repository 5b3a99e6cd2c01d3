//! The click worker: a state machine that waits out a grace period, opens
//! the input injector and then clicks at the current rate for as long as
//! the active flag permits its ticket.
//!
//! The worker does nothing by itself. Each step takes in what the shared
//! cells hold at that moment and answers with the one thing to do next: to
//! sleep, to open the injector, to press or release the button, or to
//! leave. Whoever drives the worker does that thing and steps again.

use vstd::prelude::*;
use crate::flag::{ActiveFlag, FlagView};
use crate::rate::{ClickRate, DEFAULT_RATE, in_range, interval_of, lemma_interval_exact};

verus! {

/// Time a worker waits before its first click, in nanoseconds, so that the
/// user can place the pointer.
pub const GRACE_NANOS: u64 = 1_000_000_000;

/// Time the button stays down in one click, in nanoseconds.
pub const DWELL_NANOS: u64 = 10_000_000;

/// The pause after the release in a click at `rate`, in nanoseconds: what
/// is left of the interval once the dwell time has gone by, so that one
/// click takes one interval in all.
pub open spec fn pause_of(rate: int) -> int {
    interval_of(rate) - DWELL_NANOS
}

/// Where a worker stands: what it has last asked for.
#[derive(Clone, Copy, Debug, PartialEq, Eq, Structural)]
pub enum WorkerPhase {
    /// Made, not yet stepped.
    Idle,
    /// Sleeping through the grace period.
    GraceWait,
    /// Opening the input injector.
    Opening,
    /// Pressing the button.
    Pressing,
    /// Sleeping while the button is down.
    Dwelling,
    /// Releasing the button.
    Releasing,
    /// Sleeping until the next click is due.
    Pausing,
    /// Done. A terminated worker stays so.
    Terminated,
}

impl WorkerPhase {
    /// Whether the worker is past its grace period and not yet done.
    pub open spec fn is_clicking(self) -> bool {
        self is Opening || self is Pressing || self is Dwelling || self is Releasing
            || self is Pausing
    }

    /// Whether the worker has come as far as its first press, or is done.
    pub open spec fn has_begun(self) -> bool {
        !(self is Idle || self is GraceWait || self is Opening)
    }

    /// Whether the button is down, or about to be, on the worker's account:
    /// from the press to the release.
    pub open spec fn holds_button(self) -> bool {
        self is Pressing || self is Dwelling || self is Releasing
    }
}

/// What the driver of a worker is to do next.
#[derive(Clone, Copy, Debug, PartialEq, Eq, Structural)]
pub enum WorkerAction {
    /// Sleep for this many nanoseconds.
    Sleep { nanos: u64 },
    /// Open the input injector.
    OpenInjector,
    /// Press the primary button. A failure to do so is passed over.
    Press,
    /// Release the primary button. A failure to do so is passed over.
    Release,
    /// Leave: the worker is done.
    Exit,
}

impl WorkerAction {
    /// The time that the action takes by itself, in nanoseconds.
    pub open spec fn sleep_nanos(self) -> nat {
        match self {
            WorkerAction::Sleep { nanos } => nanos as nat,
            _ => 0,
        }
    }
}

/// What a worker takes in with one step.
pub struct ObservationView {
    /// The active flag.
    pub flag: FlagView,
    /// The click rate.
    pub rate: int,
    /// Whether the driver holds an open injector.
    pub injector_ready: bool,
}

/// What a worker takes in with one step: the shared cells as they are when
/// the step is made, and whether the driver holds an open injector.
#[derive(Clone, Copy, Debug)]
pub struct Observation {
    /// The active flag.
    pub flag: ActiveFlag,
    /// The click rate.
    pub rate: ClickRate,
    /// Whether the driver holds an open injector.
    pub injector_ready: bool,
}

impl View for Observation {
    type V = ObservationView;

    open spec fn view(&self) -> ObservationView {
        ObservationView {
            flag: self.flag@,
            rate: self.rate@,
            injector_ready: self.injector_ready,
        }
    }
}

/// A worker as the contracts see it.
pub struct WorkerView {
    /// The ticket under which the worker was started.
    pub ticket: nat,
    /// Where the worker stands.
    pub phase: WorkerPhase,
    /// The rate that the worker read at the start of its current click, the
    /// default rate before its first.
    pub rate: int,
}

impl WorkerView {
    /// A worker just started under `ticket`.
    pub open spec fn fresh(ticket: nat) -> WorkerView {
        WorkerView { ticket, phase: WorkerPhase::Idle, rate: DEFAULT_RATE as int }
    }

    /// The same worker in another phase.
    pub open spec fn at(self, phase: WorkerPhase) -> WorkerView {
        WorkerView { ticket: self.ticket, phase, rate: self.rate }
    }

    /// The decision before each click: go on with a click at the rate just
    /// read if the flag permits the worker's ticket, leave otherwise.
    pub open spec fn begin_click(self, seen: ObservationView) -> (WorkerView, WorkerAction) {
        if seen.flag.permits(self.ticket) {
            (
                WorkerView { ticket: self.ticket, phase: WorkerPhase::Pressing, rate: seen.rate },
                WorkerAction::Press,
            )
        } else {
            (self.at(WorkerPhase::Terminated), WorkerAction::Exit)
        }
    }

    /// One step: the worker afterwards and what its driver is to do.
    pub open spec fn step(self, seen: ObservationView) -> (WorkerView, WorkerAction) {
        match self.phase {
            WorkerPhase::Idle => (
                self.at(WorkerPhase::GraceWait),
                WorkerAction::Sleep { nanos: GRACE_NANOS },
            ),
            WorkerPhase::GraceWait => if seen.flag.permits(self.ticket) {
                (self.at(WorkerPhase::Opening), WorkerAction::OpenInjector)
            } else {
                (self.at(WorkerPhase::Terminated), WorkerAction::Exit)
            },
            WorkerPhase::Opening => if seen.injector_ready {
                self.begin_click(seen)
            } else {
                (self.at(WorkerPhase::Terminated), WorkerAction::Exit)
            },
            WorkerPhase::Pressing => (
                self.at(WorkerPhase::Dwelling),
                WorkerAction::Sleep { nanos: DWELL_NANOS },
            ),
            WorkerPhase::Dwelling => (self.at(WorkerPhase::Releasing), WorkerAction::Release),
            WorkerPhase::Releasing => (
                self.at(WorkerPhase::Pausing),
                WorkerAction::Sleep { nanos: pause_of(self.rate) as u64 },
            ),
            WorkerPhase::Pausing => self.begin_click(seen),
            WorkerPhase::Terminated => (self, WorkerAction::Exit),
        }
    }
}

/// A click worker.
#[derive(Debug)]
pub struct ClickWorker {
    ticket: u64,
    phase: WorkerPhase,
    rate: ClickRate,
}

impl View for ClickWorker {
    type V = WorkerView;

    closed spec fn view(&self) -> WorkerView {
        WorkerView { ticket: self.ticket as nat, phase: self.phase, rate: self.rate@ }
    }
}

impl ClickWorker {
    /// A worker started under `ticket`, the ticket that the toggle handed
    /// out for it.
    pub fn new(ticket: u64) -> (worker: Self)
        ensures
            worker@ == WorkerView::fresh(ticket as nat),
    {
        ClickWorker { ticket, phase: WorkerPhase::Idle, rate: ClickRate::default() }
    }

    /// The ticket under which the worker was started.
    pub fn ticket(&self) -> (ticket: u64)
        ensures
            ticket == self@.ticket,
    {
        self.ticket
    }

    /// Where the worker stands.
    pub fn phase(&self) -> (phase: WorkerPhase)
        ensures
            phase == self@.phase,
    {
        self.phase
    }

    /// Whether the worker is done.
    pub fn is_terminated(&self) -> (done: bool)
        ensures
            done == (self@.phase is Terminated),
    {
        match self.phase {
            WorkerPhase::Terminated => true,
            _ => false,
        }
    }

    fn begin_click(&mut self, seen: Observation) -> (action: WorkerAction)
        ensures
            (final(self)@, action) == old(self)@.begin_click(seen@),
    {
        if seen.flag.permits(self.ticket) {
            self.rate = seen.rate;
            self.phase = WorkerPhase::Pressing;
            WorkerAction::Press
        } else {
            self.phase = WorkerPhase::Terminated;
            WorkerAction::Exit
        }
    }

    /// One step of the worker. `seen` is what the shared cells hold now,
    /// after the action that the previous step asked for has been done.
    /// Returns the action to do next.
    pub fn step(&mut self, seen: Observation) -> (action: WorkerAction)
        ensures
            (final(self)@, action) == old(self)@.step(seen@),
    {
        match self.phase {
            WorkerPhase::Idle => {
                self.phase = WorkerPhase::GraceWait;
                WorkerAction::Sleep { nanos: GRACE_NANOS }
            },
            WorkerPhase::GraceWait => {
                if seen.flag.permits(self.ticket) {
                    self.phase = WorkerPhase::Opening;
                    WorkerAction::OpenInjector
                } else {
                    self.phase = WorkerPhase::Terminated;
                    WorkerAction::Exit
                }
            },
            WorkerPhase::Opening => {
                if seen.injector_ready {
                    self.begin_click(seen)
                } else {
                    self.phase = WorkerPhase::Terminated;
                    WorkerAction::Exit
                }
            },
            WorkerPhase::Pressing => {
                self.phase = WorkerPhase::Dwelling;
                WorkerAction::Sleep { nanos: DWELL_NANOS }
            },
            WorkerPhase::Dwelling => {
                self.phase = WorkerPhase::Releasing;
                WorkerAction::Release
            },
            WorkerPhase::Releasing => {
                let interval: u64 = self.rate.interval_nanos();
                proof {
                    lemma_interval_exact(self.rate@);
                }
                self.phase = WorkerPhase::Pausing;
                WorkerAction::Sleep { nanos: interval - DWELL_NANOS }
            },
            WorkerPhase::Pausing => self.begin_click(seen),
            WorkerPhase::Terminated => WorkerAction::Exit,
        }
    }
}

/// The actions that a worker asks for over consecutive steps that take in
/// `seen`, one observation for each step.
pub open spec fn actions_over(worker: WorkerView, seen: Seq<ObservationView>) -> Seq<WorkerAction>
    decreases seen.len(),
{
    if seen.len() == 0 {
        Seq::empty()
    } else {
        seq![worker.step(seen[0]).1] + actions_over(worker.step(seen[0]).0, seen.drop_first())
    }
}

/// The number of presses among `actions`.
pub open spec fn press_count(actions: Seq<WorkerAction>) -> nat
    decreases actions.len(),
{
    if actions.len() == 0 {
        0
    } else {
        let first: nat = if actions[0] is Press { 1 } else { 0 };
        first + press_count(actions.drop_first())
    }
}

/// The time that `actions` take by themselves, in nanoseconds: the sum of
/// their sleeps.
pub open spec fn total_sleep(actions: Seq<WorkerAction>) -> nat
    decreases actions.len(),
{
    if actions.len() == 0 {
        0
    } else {
        actions[0].sleep_nanos() + total_sleep(actions.drop_first())
    }
}

/// The four actions of one click at `rate`.
pub open spec fn click_actions(rate: int) -> Seq<WorkerAction> {
    seq![
        WorkerAction::Press,
        WorkerAction::Sleep { nanos: DWELL_NANOS },
        WorkerAction::Release,
        WorkerAction::Sleep { nanos: pause_of(rate) as u64 },
    ]
}

/// The actions of `rounds` clicks at `rate`, one click after another.
pub open spec fn clicks_at(rate: int, rounds: nat) -> Seq<WorkerAction>
    decreases rounds,
{
    if rounds == 0 {
        Seq::empty()
    } else {
        click_actions(rate) + clicks_at(rate, (rounds - 1) as nat)
    }
}

/// The observations of `steps` steps during which the cells hold the same
/// throughout.
pub open spec fn unchanging(seen: ObservationView, steps: nat) -> Seq<ObservationView> {
    Seq::new(steps, |i: int| seen)
}

/// A step keeps the worker's ticket, and keeps its rate within the bounds
/// when the rate taken in is within them.
pub proof fn lemma_step_keeps_ticket(worker: WorkerView, seen: ObservationView)
    ensures
        worker.step(seen).0.ticket == worker.ticket,
        in_range(worker.rate) && in_range(seen.rate) ==> in_range(worker.step(seen).0.rate),
{
}

/// A worker asks to open the injector or to press only in a step that
/// finds its ticket permitted, and it asks to press only once the
/// injector is open and the button is up.
pub proof fn lemma_press_needs_permission(worker: WorkerView, seen: ObservationView)
    ensures
        worker.step(seen).1 is Press ==> seen.flag.permits(worker.ticket) && (worker.phase
            is Pausing || (worker.phase is Opening && seen.injector_ready)),
        worker.step(seen).1 is OpenInjector ==> seen.flag.permits(worker.ticket)
            && worker.phase is GraceWait,
{
}

/// Press and release take turns, and a worker leaves with the button up. A
/// worker presses only while it does not hold the button, releases only
/// while it does, and never leaves between a press and its release.
pub proof fn lemma_button_is_up_at_exit(worker: WorkerView, seen: ObservationView)
    ensures
        worker.step(seen).1 is Press ==> !worker.phase.holds_button() && worker.step(
            seen,
        ).0.phase.holds_button(),
        worker.step(seen).1 is Release ==> worker.phase is Dwelling,
        worker.step(seen).1 is Exit ==> !worker.phase.holds_button() && worker.step(
            seen,
        ).0.phase is Terminated,
        worker.phase.holds_button() ==> !(worker.step(seen).0.phase is Terminated),
{
}

/// A terminated worker stays terminated and only ever asks to leave.
pub proof fn lemma_terminated_is_final(worker: WorkerView, seen: ObservationView)
    requires
        worker.phase is Terminated,
    ensures
        worker.step(seen) == (worker, WorkerAction::Exit),
{
}

/// When the injector cannot be opened the worker leaves at once.
pub proof fn lemma_no_injector_no_click(worker: WorkerView, seen: ObservationView)
    requires
        worker.phase is Opening,
        !seen.injector_ready,
    ensures
        worker.step(seen) == (worker.at(WorkerPhase::Terminated), WorkerAction::Exit),
{
}

/// From the press to the end of the pause a worker does not look at the
/// cells: what it does in those steps is the same whatever they hold. It
/// consults them at the end of the grace period and before each click.
pub proof fn lemma_mid_click_ignores_cells(
    worker: WorkerView,
    seen: ObservationView,
    other: ObservationView,
)
    requires
        worker.phase is Pressing || worker.phase is Dwelling || worker.phase is Releasing,
    ensures
        worker.step(seen) == worker.step(other),
{
}

/// One round of clicking. A worker that is about to click and finds its
/// ticket permitted presses, keeps the button down for the dwell time,
/// releases, and pauses for the rest of the interval of the rate that it
/// read when the round began, whatever the cells hold in between. It then
/// stands before its next click, where it reads the rate anew. From one
/// press to the next the worker so sleeps for exactly one interval of the
/// current rate, the dwell time included.
pub proof fn lemma_click_round(
    worker: WorkerView,
    top: ObservationView,
    during_press: ObservationView,
    during_dwell: ObservationView,
    during_release: ObservationView,
)
    requires
        worker.phase is Pausing || (worker.phase is Opening && top.injector_ready),
        top.flag.permits(worker.ticket),
        in_range(top.rate),
    ensures
        ({
            let (pressing, first) = worker.step(top);
            let (dwelling, second) = pressing.step(during_press);
            let (releasing, third) = dwelling.step(during_dwell);
            let (pausing, fourth) = releasing.step(during_release);
            &&& first == WorkerAction::Press
            &&& second == WorkerAction::Sleep { nanos: DWELL_NANOS }
            &&& third == WorkerAction::Release
            &&& fourth == WorkerAction::Sleep { nanos: pause_of(top.rate) as u64 }
            &&& fourth.sleep_nanos() == interval_of(top.rate) - DWELL_NANOS
            &&& pausing == WorkerView {
                ticket: worker.ticket,
                phase: WorkerPhase::Pausing,
                rate: top.rate,
            }
            &&& first.sleep_nanos() + second.sleep_nanos() + third.sleep_nanos()
                + fourth.sleep_nanos() == interval_of(top.rate)
        }),
{
    lemma_interval_exact(top.rate);
}

/// Presses are counted stretch by stretch.
pub proof fn lemma_press_count_concat(earlier: Seq<WorkerAction>, later: Seq<WorkerAction>)
    ensures
        press_count(earlier + later) == press_count(earlier) + press_count(later),
    decreases earlier.len(),
{
    if earlier.len() == 0 {
        assert(earlier + later =~= later);
    } else {
        assert((earlier + later).drop_first() =~= earlier.drop_first() + later);
        lemma_press_count_concat(earlier.drop_first(), later);
    }
}

/// Sleeps add up stretch by stretch.
pub proof fn lemma_total_sleep_concat(earlier: Seq<WorkerAction>, later: Seq<WorkerAction>)
    ensures
        total_sleep(earlier + later) == total_sleep(earlier) + total_sleep(later),
    decreases earlier.len(),
{
    if earlier.len() == 0 {
        assert(earlier + later =~= later);
    } else {
        assert((earlier + later).drop_first() =~= earlier.drop_first() + later);
        lemma_total_sleep_concat(earlier.drop_first(), later);
    }
}

/// The pause after the release is never negative: within the bounds no
/// interval is shorter than the dwell time. At the highest rate the two are
/// equal and the pause is nothing.
pub proof fn lemma_pause_fits(rate: int)
    requires
        in_range(rate),
    ensures
        0 <= pause_of(rate) <= 990_000_000,
        DWELL_NANOS + pause_of(rate) == interval_of(rate),
{
    lemma_interval_exact(rate);
}

/// One click holds one press and takes one interval of its rate, the dwell
/// time included: the largest whole number of nanoseconds of which `rate`
/// many fit into one second.
pub proof fn lemma_one_click(rate: int)
    requires
        in_range(rate),
    ensures
        press_count(click_actions(rate)) == 1,
        total_sleep(click_actions(rate)) == interval_of(rate),
        rate * total_sleep(click_actions(rate)) <= 1_000_000_000,
        rate * (total_sleep(click_actions(rate)) + 1) > 1_000_000_000,
{
    lemma_interval_exact(rate);
    let click = click_actions(rate);
    let after_press = click.drop_first();
    let after_dwell = after_press.drop_first();
    let after_release = after_dwell.drop_first();
    let end = after_release.drop_first();
    assert(end.len() == 0);
    assert(after_release[0] == click[3]);
    assert(after_dwell[0] == click[2]);
    assert(after_press[0] == click[1]);
    assert(press_count(end) == 0);
    assert(total_sleep(end) == 0);
    assert(press_count(after_release) == 0);
    assert(press_count(after_dwell) == 0);
    assert(press_count(after_press) == 0);
    assert(total_sleep(after_release) == pause_of(rate));
    assert(total_sleep(after_dwell) == pause_of(rate));
    assert(total_sleep(after_press) == DWELL_NANOS + pause_of(rate));
}

/// Steady clicking. While the cells hold the same, with the worker's ticket
/// permitted, a worker that is about to click goes on clicking without end:
/// over four steps for each click it does exactly the four actions of a
/// click at the rate in force, again and again. Each click so holds one
/// press, and from each press to the next the worker sleeps for exactly one
/// interval of the rate.
pub proof fn lemma_steady_clicking(worker: WorkerView, seen: ObservationView, rounds: nat)
    requires
        worker.phase is Pausing || (worker.phase is Opening && seen.injector_ready),
        seen.flag.permits(worker.ticket),
        in_range(seen.rate),
    ensures
        actions_over(worker, unchanging(seen, 4 * rounds)) == clicks_at(seen.rate, rounds),
        press_count(clicks_at(seen.rate, rounds)) == rounds,
        total_sleep(clicks_at(seen.rate, rounds)) == rounds * interval_of(seen.rate),
    decreases rounds,
{
    if rounds > 0 {
        let fewer: nat = (rounds - 1) as nat;
        let period: int = interval_of(seen.rate);
        let s0 = unchanging(seen, 4 * rounds);
        let s1 = s0.drop_first();
        let s2 = s1.drop_first();
        let s3 = s2.drop_first();
        let s4 = s3.drop_first();
        assert(s4 =~= unchanging(seen, 4 * fewer));
        let (w1, a1) = worker.step(seen);
        let (w2, a2) = w1.step(seen);
        let (w3, a3) = w2.step(seen);
        let (w4, a4) = w3.step(seen);
        lemma_click_round(worker, seen, seen, seen, seen);
        lemma_steady_clicking(w4, seen, fewer);
        let rest = actions_over(w4, s4);
        assert(actions_over(w3, s3) == seq![a4] + rest);
        assert(actions_over(w2, s2) == seq![a3] + actions_over(w3, s3));
        assert(actions_over(w1, s1) == seq![a2] + actions_over(w2, s2));
        assert(actions_over(worker, s0) == seq![a1] + actions_over(w1, s1));
        assert(actions_over(worker, s0) =~= click_actions(seen.rate) + rest);
        lemma_one_click(seen.rate);
        lemma_press_count_concat(click_actions(seen.rate), clicks_at(seen.rate, fewer));
        lemma_total_sleep_concat(click_actions(seen.rate), clicks_at(seen.rate, fewer));
        assert(rounds * period == fewer * period + period) by (nonlinear_arith)
            requires
                rounds == fewer + 1,
        ;
    }
}

/// Winding down. A worker whose ticket is not permitted in any of its next
/// four steps has terminated after them, whatever phase it was in. It
/// neither presses nor opens the injector on the way. It sleeps no longer
/// than the grace period if it had not begun to click. If it had, it sleeps
/// no longer than one interval of its rate, and so within the dwell time and
/// one interval together.
pub proof fn lemma_wind_down(
    worker: WorkerView,
    first: ObservationView,
    second: ObservationView,
    third: ObservationView,
    fourth: ObservationView,
)
    requires
        in_range(worker.rate),
        !first.flag.permits(worker.ticket),
        !second.flag.permits(worker.ticket),
        !third.flag.permits(worker.ticket),
        !fourth.flag.permits(worker.ticket),
    ensures
        ({
            let (w1, a1) = worker.step(first);
            let (w2, a2) = w1.step(second);
            let (w3, a3) = w2.step(third);
            let (w4, a4) = w3.step(fourth);
            let slept: nat = a1.sleep_nanos() + a2.sleep_nanos() + a3.sleep_nanos()
                + a4.sleep_nanos();
            &&& w4.phase is Terminated
            &&& !(a1 is Press) && !(a2 is Press) && !(a3 is Press) && !(a4 is Press)
            &&& !(a1 is OpenInjector) && !(a2 is OpenInjector) && !(a3 is OpenInjector) && !(a4
                is OpenInjector)
            &&& worker.phase.is_clicking() ==> slept <= interval_of(worker.rate)
            &&& worker.phase.is_clicking() ==> slept <= DWELL_NANOS + interval_of(worker.rate)
            &&& !worker.phase.is_clicking() ==> slept <= GRACE_NANOS
        }),
{
    lemma_interval_exact(worker.rate);
}

/// Over any steps, a terminated worker only asks to leave: it never
/// presses.
pub proof fn lemma_terminated_never_presses(worker: WorkerView, seen: Seq<ObservationView>)
    requires
        worker.phase is Terminated,
    ensures
        press_count(actions_over(worker, seen)) == 0,
        forall|i: int|
            0 <= i < seen.len() ==> #[trigger] actions_over(worker, seen)[i] == WorkerAction::Exit,
        actions_over(worker, seen).len() == seen.len(),
    decreases seen.len(),
{
    if seen.len() > 0 {
        lemma_terminated_never_presses(worker, seen.drop_first());
    }
    lemma_all_exit_no_press(actions_over(worker, seen));
}

/// Actions that are all `Exit` hold no press.
proof fn lemma_all_exit_no_press(actions: Seq<WorkerAction>)
    requires
        forall|i: int| 0 <= i < actions.len() ==> #[trigger] actions[i] == WorkerAction::Exit,
    ensures
        press_count(actions) == 0,
    decreases actions.len(),
{
    if actions.len() > 0 {
        lemma_all_exit_no_press(actions.drop_first());
    }
}

/// A stop within the grace period means no click at all. A worker that has
/// not come to the end of its grace period, and does not find its ticket
/// permitted in the step that ends it, never presses, however many steps it
/// is driven through and whatever the cells hold later.
pub proof fn lemma_stop_during_grace(worker: WorkerView, seen: Seq<ObservationView>)
    requires
        worker.phase is Idle || worker.phase is GraceWait,
        worker.phase is Idle ==> seen.len() >= 2 ==> !seen[1].flag.permits(worker.ticket),
        worker.phase is GraceWait ==> seen.len() >= 1 ==> !seen[0].flag.permits(worker.ticket),
    ensures
        press_count(actions_over(worker, seen)) == 0,
    decreases seen.len(),
{
    if seen.len() > 0 {
        let (next, action) = worker.step(seen[0]);
        let rest = seen.drop_first();
        let tail = actions_over(next, rest);
        if worker.phase is Idle {
            if rest.len() >= 1 {
                assert(rest[0] == seen[1]);
            }
            lemma_stop_during_grace(next, rest);
        } else {
            lemma_terminated_never_presses(next, rest);
        }
        assert((seq![action] + tail).drop_first() =~= tail);
    }
}

} // verus!
