//! The control panel: what it shows for the current state, and what the
//! user's two controls do to the shared cells.

use vstd::prelude::*;
use crate::flag::ActiveFlag;
use crate::rate::{ClickRate, clamped};
use crate::worker::{ClickWorker, WorkerView};

verus! {

/// Longest time the panel goes without redrawing, in milliseconds, so that
/// a stop by the hot-key shows without any input to the window.
pub const REPAINT_INTERVAL_MILLIS: u64 = 100;

/// A colour by its red, green and blue parts.
#[derive(Clone, Copy, Debug, PartialEq, Eq, Structural)]
pub struct Rgb {
    /// The red part.
    pub red: u8,
    /// The green part.
    pub green: u8,
    /// The blue part.
    pub blue: u8,
}

/// The text of the status indicator.
pub open spec fn status_text_of(active: bool) -> Seq<char> {
    if active {
        "ACTIVE"@
    } else {
        "INACTIVE"@
    }
}

/// The colour of the status indicator: green while active, grey while not.
pub open spec fn status_color_of(active: bool) -> Rgb {
    if active {
        Rgb { red: 0, green: 255, blue: 0 }
    } else {
        Rgb { red: 160, green: 160, blue: 160 }
    }
}

/// The label of the toggle button.
pub open spec fn toggle_label_of(active: bool) -> Seq<char> {
    if active {
        "Stop Clicking"@
    } else {
        "Start Clicking"@
    }
}

/// The fill colour of the toggle button: red to stop, green to start.
pub open spec fn toggle_fill_of(active: bool) -> Rgb {
    if active {
        Rgb { red: 200, green: 50, blue: 50 }
    } else {
        Rgb { red: 50, green: 200, blue: 50 }
    }
}

/// The text of the status indicator.
pub fn status_text(active: bool) -> (text: &'static str)
    ensures
        text@ == status_text_of(active),
{
    if active {
        "ACTIVE"
    } else {
        "INACTIVE"
    }
}

/// The colour of the status indicator.
pub fn status_color(active: bool) -> (color: Rgb)
    ensures
        color == status_color_of(active),
{
    if active {
        Rgb { red: 0, green: 255, blue: 0 }
    } else {
        Rgb { red: 160, green: 160, blue: 160 }
    }
}

/// The label of the toggle button, which names what a press would do.
pub fn toggle_label(active: bool) -> (label: &'static str)
    ensures
        label@ == toggle_label_of(active),
{
    if active {
        "Stop Clicking"
    } else {
        "Start Clicking"
    }
}

/// The fill colour of the toggle button.
pub fn toggle_fill(active: bool) -> (fill: Rgb)
    ensures
        fill == toggle_fill_of(active),
{
    if active {
        Rgb { red: 200, green: 50, blue: 50 }
    } else {
        Rgb { red: 50, green: 200, blue: 50 }
    }
}

/// A press of the toggle button. Inverts the flag and returns the worker to
/// start: there is one exactly when the press took the flag from inactive to
/// active, and it is a fresh worker under the ticket that the flag now
/// permits.
pub fn press_toggle(flag: &mut ActiveFlag) -> (worker: Option<ClickWorker>)
    ensures
        final(flag)@ == old(flag)@.toggled(),
        match worker {
            Some(w) => old(flag)@.spawned() == Some(w@.ticket) && w@ == WorkerView::fresh(
                w@.ticket,
            ),
            None => old(flag)@.spawned() is None,
        },
{
    match flag.toggle() {
        Some(ticket) => Some(ClickWorker::new(ticket)),
        None => None,
    }
}

/// An adjustment of the rate control. Writes the input, brought within the
/// bounds, into the rate.
pub fn set_rate(rate: &mut ClickRate, raw: i64)
    ensures
        final(rate)@ == clamped(raw as int),
{
    *rate = ClickRate::new(raw);
}

/// The two states never look alike: status text, status colour, button
/// label and button colour each differ between active and inactive.
pub proof fn lemma_states_look_different()
    ensures
        status_text_of(true) != status_text_of(false),
        status_color_of(true) != status_color_of(false),
        toggle_label_of(true) != toggle_label_of(false),
        toggle_fill_of(true) != toggle_fill_of(false),
{
    reveal_strlit("ACTIVE");
    reveal_strlit("INACTIVE");
    reveal_strlit("Stop Clicking");
    reveal_strlit("Start Clicking");
    assert(status_text_of(true).len() == 6);
    assert(status_text_of(false).len() == 8);
    assert(toggle_label_of(true).len() == 13);
    assert(toggle_label_of(false).len() == 14);
}

} // verus!
