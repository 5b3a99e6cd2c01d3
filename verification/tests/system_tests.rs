use autoclicker::flag::ActiveFlag;
use autoclicker::hotkey::HotkeyWatcher;
use autoclicker::panel::{press_toggle, set_rate};
use autoclicker::rate::ClickRate;
use autoclicker::worker::{ClickWorker, Observation, WorkerAction, WorkerPhase};

struct Clicker {
    flag: ActiveFlag,
    rate: ClickRate,
    watcher: HotkeyWatcher,
    workers: Vec<ClickWorker>,
    presses: Vec<u64>,
    holding: Vec<bool>,
}

impl Clicker {
    fn new() -> Clicker {
        Clicker {
            flag: ActiveFlag::new(),
            rate: ClickRate::default(),
            watcher: HotkeyWatcher::new(),
            workers: Vec::new(),
            presses: Vec::new(),
            holding: Vec::new(),
        }
    }

    fn toggle(&mut self) {
        if let Some(worker) = press_toggle(&mut self.flag) {
            self.workers.push(worker);
            self.presses.push(0);
            self.holding.push(false);
        }
    }

    fn poll_key(&mut self, key_down: bool) {
        if self.watcher.poll(key_down) {
            self.flag.force_stop();
        }
    }

    fn step_worker(&mut self, index: usize, injector_ready: bool) -> WorkerAction {
        let seen = Observation { flag: self.flag, rate: self.rate, injector_ready };
        let permitted = self.flag.permits(self.workers[index].ticket());
        let action = self.workers[index].step(seen);
        match action {
            WorkerAction::Press => {
                assert!(permitted);
                assert!(!self.holding[index]);
                self.presses[index] += 1;
                self.holding[index] = true;
            }
            WorkerAction::Release => {
                assert!(self.holding[index]);
                self.holding[index] = false;
            }
            WorkerAction::OpenInjector => assert!(permitted),
            WorkerAction::Exit => assert!(!self.holding[index]),
            WorkerAction::Sleep { .. } => {}
        }
        action
    }

    fn permitted_workers(&self) -> usize {
        self.workers.iter().filter(|w| self.flag.permits(w.ticket())).count()
    }

    fn total_presses(&self) -> u64 {
        self.presses.iter().sum()
    }
}

fn next_random(state: &mut u64) -> u64 {
    *state = state.wrapping_mul(6364136223846793005).wrapping_add(1442695040888963407);
    *state >> 33
}

#[test]
fn start_then_stop_within_grace_gives_no_click() {
    let mut clicker = Clicker::new();
    clicker.toggle();
    assert_eq!(clicker.step_worker(0, false), WorkerAction::Sleep { nanos: 1_000_000_000 });
    clicker.toggle();
    assert!(!clicker.flag.is_active());
    for _ in 0..20 {
        assert_eq!(clicker.step_worker(0, true), WorkerAction::Exit);
    }
    assert_eq!(clicker.total_presses(), 0);
}

#[test]
fn start_then_hotkey_within_grace_gives_no_click() {
    let mut clicker = Clicker::new();
    clicker.toggle();
    clicker.step_worker(0, false);
    clicker.poll_key(true);
    assert!(!clicker.flag.is_active());
    for _ in 0..20 {
        assert_eq!(clicker.step_worker(0, true), WorkerAction::Exit);
    }
    assert_eq!(clicker.total_presses(), 0);
}

#[test]
fn rapid_retoggle_leaves_one_worker_clicking() {
    let mut clicker = Clicker::new();
    clicker.toggle();
    clicker.step_worker(0, false);
    clicker.toggle();
    clicker.toggle();
    assert!(clicker.flag.is_active());
    assert_eq!(clicker.workers.len(), 2);
    assert_eq!(clicker.permitted_workers(), 1);
    for _ in 0..40 {
        clicker.step_worker(0, true);
        clicker.step_worker(1, true);
    }
    assert_eq!(clicker.presses[0], 0);
    assert!(clicker.presses[1] > 0);
    assert!(clicker.workers[0].is_terminated());
    assert!(!clicker.workers[1].is_terminated());
}

#[test]
fn retoggle_in_the_middle_of_a_click_silences_the_old_worker() {
    let mut clicker = Clicker::new();
    clicker.toggle();
    clicker.step_worker(0, false);
    clicker.step_worker(0, false);
    assert_eq!(clicker.step_worker(0, true), WorkerAction::Press);
    clicker.toggle();
    clicker.toggle();
    assert_eq!(clicker.workers.len(), 2);
    let mut old_actions = Vec::new();
    while !clicker.workers[0].is_terminated() {
        old_actions.push(clicker.step_worker(0, true));
        clicker.step_worker(1, true);
    }
    assert_eq!(
        old_actions,
        vec![
            WorkerAction::Sleep { nanos: 10_000_000 },
            WorkerAction::Release,
            WorkerAction::Sleep { nanos: 90_000_000 },
            WorkerAction::Exit,
        ]
    );
    assert_eq!(clicker.presses[0], 1);
}

#[test]
fn hotkey_edge_while_active_stops_the_live_worker() {
    let mut clicker = Clicker::new();
    clicker.toggle();
    for _ in 0..11 {
        clicker.step_worker(0, true);
    }
    let before = clicker.presses[0];
    assert!(before > 0);
    clicker.poll_key(true);
    assert!(!clicker.flag.is_active());
    let mut steps = 0;
    while !clicker.workers[0].is_terminated() {
        clicker.step_worker(0, true);
        steps += 1;
    }
    assert!(steps <= 4);
    assert_eq!(clicker.presses[0], before);
    assert_eq!(clicker.workers.len(), 1);
}

#[test]
fn hotkey_edge_while_inactive_changes_nothing() {
    let mut clicker = Clicker::new();
    clicker.poll_key(true);
    assert_eq!(clicker.flag, ActiveFlag::new());
    assert!(clicker.workers.is_empty());

    clicker.poll_key(false);
    clicker.toggle();
    clicker.toggle();
    let flag = clicker.flag;
    clicker.poll_key(true);
    assert_eq!(clicker.flag, flag);
    assert_eq!(clicker.workers.len(), 1);
    assert_eq!(clicker.rate, ClickRate::default());
}

#[test]
fn held_hotkey_stops_once_and_lets_the_user_restart() {
    let mut clicker = Clicker::new();
    clicker.toggle();
    clicker.poll_key(true);
    assert!(!clicker.flag.is_active());
    clicker.toggle();
    assert!(clicker.flag.is_active());
    for _ in 0..10 {
        clicker.poll_key(true);
        assert!(clicker.flag.is_active());
    }
    clicker.poll_key(false);
    assert!(clicker.flag.is_active());
    clicker.poll_key(true);
    assert!(!clicker.flag.is_active());
}

#[test]
fn hotkey_never_starts_a_worker() {
    let mut clicker = Clicker::new();
    let mut state = 7;
    for _ in 0..200 {
        clicker.poll_key(next_random(&mut state) % 2 == 0);
        assert!(!clicker.flag.is_active());
        assert!(clicker.workers.is_empty());
    }
}

#[test]
fn rate_change_reaches_the_running_worker_without_a_restart() {
    let mut clicker = Clicker::new();
    clicker.toggle();
    clicker.step_worker(0, false);
    clicker.step_worker(0, false);
    assert_eq!(clicker.step_worker(0, true), WorkerAction::Press);
    set_rate(&mut clicker.rate, 250);
    assert_eq!(clicker.step_worker(0, true), WorkerAction::Sleep { nanos: 10_000_000 });
    assert_eq!(clicker.step_worker(0, true), WorkerAction::Release);
    assert_eq!(clicker.step_worker(0, true), WorkerAction::Sleep { nanos: 90_000_000 });
    assert_eq!(clicker.step_worker(0, true), WorkerAction::Press);
    assert_eq!(clicker.step_worker(0, true), WorkerAction::Sleep { nanos: 10_000_000 });
    assert_eq!(clicker.step_worker(0, true), WorkerAction::Release);
    assert_eq!(clicker.step_worker(0, true), WorkerAction::Sleep { nanos: 0 });
    set_rate(&mut clicker.rate, 4);
    assert_eq!(clicker.step_worker(0, true), WorkerAction::Press);
    clicker.step_worker(0, true);
    clicker.step_worker(0, true);
    assert_eq!(clicker.step_worker(0, true), WorkerAction::Sleep { nanos: 240_000_000 });
    assert_eq!(clicker.workers.len(), 1);
    assert!(clicker.flag.is_active());
}

#[test]
fn at_most_one_worker_is_permitted_in_any_interleaving() {
    for seed in 0..50u64 {
        let mut clicker = Clicker::new();
        let mut state = seed;
        for _ in 0..600 {
            match next_random(&mut state) % 8 {
                0 => clicker.toggle(),
                1 => clicker.poll_key(next_random(&mut state) % 2 == 0),
                2 => set_rate(&mut clicker.rate, (next_random(&mut state) % 300) as i64 - 100),
                _ => {
                    if !clicker.workers.is_empty() {
                        let index = (next_random(&mut state) as usize) % clicker.workers.len();
                        let ready = next_random(&mut state) % 4 != 0;
                        clicker.step_worker(index, ready);
                    }
                }
            }
            assert!(clicker.permitted_workers() <= 1);
            assert_eq!(clicker.workers.len() as u64, clicker.flag.generation());
            for (index, worker) in clicker.workers.iter().enumerate() {
                assert_eq!(worker.ticket(), index as u64 + 1);
                let waiting = matches!(
                    worker.phase(),
                    WorkerPhase::Idle | WorkerPhase::GraceWait | WorkerPhase::Opening
                );
                if waiting {
                    assert_eq!(clicker.presses[index], 0);
                }
            }
        }
    }
}

#[test]
fn worker_without_permission_never_presses_again() {
    for seed in 100..140u64 {
        let mut clicker = Clicker::new();
        let mut state = seed;
        let mut frozen: Vec<Option<u64>> = Vec::new();
        for _ in 0..600 {
            match next_random(&mut state) % 6 {
                0 => clicker.toggle(),
                1 => clicker.poll_key(next_random(&mut state) % 2 == 0),
                _ => {
                    if !clicker.workers.is_empty() {
                        let index = (next_random(&mut state) as usize) % clicker.workers.len();
                        clicker.step_worker(index, true);
                    }
                }
            }
            frozen.resize(clicker.workers.len(), None);
            for index in 0..clicker.workers.len() {
                match frozen[index] {
                    Some(count) => assert_eq!(clicker.presses[index], count),
                    None => {
                        if !clicker.flag.permits(clicker.workers[index].ticket()) {
                            frozen[index] = Some(clicker.presses[index]);
                        }
                    }
                }
            }
        }
    }
}

#[test]
fn rate_and_flag_changes_may_come_in_either_order() {
    for raw in [-3i64, 1, 42, 100, 2000] {
        for key_down in [false, true] {
            let mut rate_first = Clicker::new();
            rate_first.toggle();
            let mut flag_first = Clicker::new();
            flag_first.toggle();

            set_rate(&mut rate_first.rate, raw);
            rate_first.toggle();
            flag_first.toggle();
            set_rate(&mut flag_first.rate, raw);
            assert_eq!(rate_first.flag, flag_first.flag);
            assert_eq!(rate_first.rate, flag_first.rate);

            set_rate(&mut rate_first.rate, raw + 1);
            rate_first.poll_key(key_down);
            flag_first.poll_key(key_down);
            set_rate(&mut flag_first.rate, raw + 1);
            assert_eq!(rate_first.flag, flag_first.flag);
            assert_eq!(rate_first.rate, flag_first.rate);
            assert_eq!(rate_first.watcher, flag_first.watcher);
        }
    }
}

#[test]
fn toggle_while_active_starts_no_second_worker() {
    let mut clicker = Clicker::new();
    clicker.toggle();
    assert_eq!(clicker.workers.len(), 1);
    clicker.toggle();
    assert_eq!(clicker.workers.len(), 1);
    assert!(!clicker.flag.is_active());
    assert_eq!(clicker.permitted_workers(), 0);
}
