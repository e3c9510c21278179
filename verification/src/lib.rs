//! Decision logic for a desktop back end that starts scanner software.
//!
//! The front end can issue two commands: open the scanner panel that ships
//! with the operating system, or start a scanner program given by its path.
//! Both are fire-and-forget process launches and both are offered on one
//! platform only. This crate holds every decision the commands make; the host
//! performs the one thing that cannot be decided here, the request to the
//! operating system to create the process, and reports what came of it.

pub mod command;
pub mod laws;
pub mod platform;

pub use command::{
    carried_out, may_carry_out, open_scanner_ui, reply_view, spawn_scanner_app, Command,
    CommandView, Plan, PlanView, SpawnOutcome, SpawnOutcomeView,
};
pub use platform::Platform;
