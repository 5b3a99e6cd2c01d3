use autoclicker::flag::ActiveFlag;
use autoclicker::panel::{
    press_toggle, set_rate, status_color, status_text, toggle_fill, toggle_label, Rgb,
    REPAINT_INTERVAL_MILLIS,
};
use autoclicker::rate::ClickRate;
use autoclicker::worker::WorkerPhase;

#[test]
fn panel_redraws_every_hundred_milliseconds() {
    assert_eq!(REPAINT_INTERVAL_MILLIS, 100);
}

#[test]
fn status_text_names_the_state() {
    assert_eq!(status_text(true), "ACTIVE");
    assert_eq!(status_text(false), "INACTIVE");
}

#[test]
fn status_is_green_while_active_and_grey_while_not() {
    assert_eq!(status_color(true), Rgb { red: 0, green: 255, blue: 0 });
    assert_eq!(status_color(false), Rgb { red: 160, green: 160, blue: 160 });
}

#[test]
fn toggle_label_names_what_a_press_does() {
    assert_eq!(toggle_label(true), "Stop Clicking");
    assert_eq!(toggle_label(false), "Start Clicking");
}

#[test]
fn toggle_is_red_to_stop_and_green_to_start() {
    assert_eq!(toggle_fill(true), Rgb { red: 200, green: 50, blue: 50 });
    assert_eq!(toggle_fill(false), Rgb { red: 50, green: 200, blue: 50 });
}

#[test]
fn the_two_states_look_different() {
    assert_ne!(status_text(true), status_text(false));
    assert_ne!(status_color(true), status_color(false));
    assert_ne!(toggle_label(true), toggle_label(false));
    assert_ne!(toggle_fill(true), toggle_fill(false));
}

#[test]
fn press_on_an_inactive_flag_starts_one_fresh_worker() {
    let mut flag = ActiveFlag::new();
    let worker = press_toggle(&mut flag).unwrap();
    assert!(flag.is_active());
    assert_eq!(worker.ticket(), 1);
    assert_eq!(worker.phase(), WorkerPhase::Idle);
    assert!(flag.permits(worker.ticket()));
}

#[test]
fn press_on_an_active_flag_stops_and_starts_nothing() {
    let mut flag = ActiveFlag::new();
    press_toggle(&mut flag);
    assert!(press_toggle(&mut flag).is_none());
    assert!(!flag.is_active());
}

#[test]
fn presses_alternate_between_start_and_stop() {
    let mut flag = ActiveFlag::new();
    for round in 1..=10u64 {
        let worker = press_toggle(&mut flag);
        assert_eq!(worker.unwrap().ticket(), round);
        assert_eq!(status_text(flag.is_active()), "ACTIVE");
        assert!(press_toggle(&mut flag).is_none());
        assert_eq!(status_text(flag.is_active()), "INACTIVE");
    }
}

#[test]
fn press_after_a_forced_stop_starts_a_worker() {
    let mut flag = ActiveFlag::new();
    press_toggle(&mut flag);
    flag.force_stop();
    let worker = press_toggle(&mut flag).unwrap();
    assert_eq!(worker.ticket(), 2);
    assert!(flag.is_active());
}

#[test]
fn rate_control_writes_the_clamped_input() {
    let mut rate = ClickRate::default();
    set_rate(&mut rate, 42);
    assert_eq!(rate.per_second(), 42);
    set_rate(&mut rate, 0);
    assert_eq!(rate.per_second(), 1);
    set_rate(&mut rate, 101);
    assert_eq!(rate.per_second(), 100);
    set_rate(&mut rate, -7);
    assert_eq!(rate.per_second(), 1);
    set_rate(&mut rate, 100);
    assert_eq!(rate.per_second(), 100);
    set_rate(&mut rate, 1);
    assert_eq!(rate.per_second(), 1);
}
