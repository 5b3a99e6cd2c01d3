//! Decision logic of a mouse auto-clicker.
//!
//! The clicker has three actors around two shared cells: a control panel
//! that toggles clicking and sets the rate, a click worker that emits clicks
//! while it is allowed to, and a watcher that stops clicking when a global
//! hot-key is pressed. This crate holds what each of them decides, as
//! verified state machines over plain values. Threads, locks, sleeping, the
//! window and the operating system's input services belong to the program
//! that drives them.
//!
//! - [`flag`]: the active flag, with a ticket for each activation.
//! - [`rate`]: the click rate, its bounds and its interval.
//! - [`hotkey`]: the watcher that fires once for each press of the hot-key.
//! - [`worker`]: the click worker, one action at a time.
//! - [`panel`]: what the control panel shows and what its controls do.
//! - [`system`]: all of them together, and what holds however they interleave.

pub mod flag;
pub mod hotkey;
pub mod panel;
pub mod rate;
pub mod system;
pub mod worker;
