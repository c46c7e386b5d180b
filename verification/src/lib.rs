//! Core logic of a menu-bar time tracker: duration labels, the reminder
//! scheduler, the tray state, the persisted settings, the webhook sync
//! decisions and the system-metrics arithmetic.

pub mod metrics;
pub mod notification;
pub mod sheets;
pub mod text;
pub mod timer;
pub mod tray;

use vstd::prelude::*;

verus! {

/// Live state shared by the commands and the reminder scheduler.
/// Instants are nanoseconds on a monotonic clock.
/// - `task_active`: whether a task is currently running (silences idle reminders).
/// - `task_started_at`: when the active task started (for the long-task reminder).
/// - `long_task_notified`: whether the long-task reminder already fired for this run.
/// - `on_leave`: when true, all reminders are paused (vacation/holiday).
pub struct AppState {
    pub task_active: bool,
    pub task_started_at: Option<u64>,
    pub long_task_notified: bool,
    pub on_leave: bool,
}

impl AppState {
    /// The state at startup: no task running, with the On Leave flag seeded
    /// from the persisted settings.
    pub fn new(on_leave: bool) -> (s: Self)
        ensures
            !s.task_active,
            s.task_started_at is None,
            !s.long_task_notified,
            s.on_leave == on_leave,
    {
        AppState { task_active: false, task_started_at: None, long_task_notified: false, on_leave }
    }
}

} // verus!
