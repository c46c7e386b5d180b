use time_tracker::notification::{
    reminder_body, reminder_title, scheduler_step, Reminder, SchedulerState,
    IDLE_REMINDER_NANOS, LONG_TASK_NANOS,
};
use time_tracker::tray::set_tray_state;
use time_tracker::AppState;

/// `x` seconds in nanoseconds.
fn secs(x: u64) -> u64 {
    x * 1_000_000_000
}

fn idle_state() -> AppState {
    AppState::new(false)
}

#[test]
fn first_idle_reminder_comes_one_interval_after_start() {
    let mut state = idle_state();
    let mut sched = SchedulerState::new(false, secs(1000));
    let a = scheduler_step(&mut state, &mut sched, 10, secs(1000 + 1799));
    assert!(!a.idle_reminder);
    let a = scheduler_step(&mut state, &mut sched, 10, secs(1000 + 1800));
    assert!(a.idle_reminder);
    assert!(!a.long_task_reminder);
    assert!(!a.force_stop);
    assert_eq!(sched.last_idle_notify, secs(2800));
}

#[test]
fn idle_reminder_not_a_nanosecond_early() {
    let mut state = idle_state();
    let mut sched = SchedulerState::new(false, secs(7));
    assert!(!scheduler_step(&mut state, &mut sched, 12, secs(7) + IDLE_REMINDER_NANOS - 1).idle_reminder);
    assert!(scheduler_step(&mut state, &mut sched, 12, secs(7) + IDLE_REMINDER_NANOS).idle_reminder);
}

#[test]
fn idle_reminders_thirty_minutes_apart() {
    let mut state = idle_state();
    let mut sched = SchedulerState::new(false, secs(0));
    let mut fired = Vec::new();
    let mut now = 0u64;
    while now <= 4 * 3600 {
        if scheduler_step(&mut state, &mut sched, 9, secs(now)).idle_reminder {
            fired.push(now);
        }
        now += 60;
    }
    assert_eq!(fired, vec![1800, 3600, 5400, 7200, 9000, 10800, 12600, 14400]);
}

#[test]
fn no_reminders_outside_work_hours() {
    for hour in [0u32, 7, 18, 23] {
        let mut state = idle_state();
        let mut sched = SchedulerState::new(false, secs(0));
        let a = scheduler_step(&mut state, &mut sched, hour, secs(10_000));
        assert!(!a.idle_reminder, "hour {hour}");
        assert_eq!(sched.last_idle_notify, secs(0));
    }
    for hour in [8u32, 12, 17] {
        let mut state = idle_state();
        let mut sched = SchedulerState::new(false, secs(0));
        assert!(scheduler_step(&mut state, &mut sched, hour, secs(10_000)).idle_reminder, "hour {hour}");
    }
}

#[test]
fn no_reminders_on_leave() {
    let mut state = AppState::new(true);
    let mut sched = SchedulerState::new(false, secs(0));
    assert!(!scheduler_step(&mut state, &mut sched, 10, secs(10_000)).idle_reminder);
    set_tray_state(&mut state, true, secs(0));
    let a = scheduler_step(&mut state, &mut sched, 10, secs(4 * 3600));
    assert!(!a.long_task_reminder);
    assert!(!state.long_task_notified);
}

#[test]
fn no_idle_reminder_while_task_active() {
    let mut state = idle_state();
    let mut sched = SchedulerState::new(false, secs(0));
    set_tray_state(&mut state, true, secs(100));
    let a = scheduler_step(&mut state, &mut sched, 10, secs(5000));
    assert!(!a.idle_reminder);
}

#[test]
fn long_task_reminder_once_per_run() {
    let mut state = idle_state();
    let mut sched = SchedulerState::new(false, secs(0));
    set_tray_state(&mut state, true, secs(100));
    assert!(!scheduler_step(&mut state, &mut sched, 10, secs(100) + LONG_TASK_NANOS - 1).long_task_reminder);
    assert!(scheduler_step(&mut state, &mut sched, 10, secs(100) + LONG_TASK_NANOS).long_task_reminder);
    assert!(state.long_task_notified);
    assert!(!scheduler_step(&mut state, &mut sched, 10, secs(160) + LONG_TASK_NANOS).long_task_reminder);
    // Stopping does not re-arm it; starting a new task does.
    set_tray_state(&mut state, false, secs(20_000));
    assert!(state.long_task_notified);
    set_tray_state(&mut state, true, secs(20_000));
    assert!(!state.long_task_notified);
    assert!(scheduler_step(&mut state, &mut sched, 11, secs(20_000) + LONG_TASK_NANOS).long_task_reminder);
}

#[test]
fn force_stop_at_end_of_work_day() {
    let mut state = idle_state();
    let mut sched = SchedulerState::new(false, secs(0));
    assert!(!scheduler_step(&mut state, &mut sched, 19, secs(60)).force_stop);
    set_tray_state(&mut state, true, secs(60));
    assert!(!scheduler_step(&mut state, &mut sched, 17, secs(120)).force_stop);
    let a = scheduler_step(&mut state, &mut sched, 18, secs(180));
    assert!(a.force_stop);
    assert!(!a.long_task_reminder);
    assert!(scheduler_step(&mut state, &mut sched, 23, secs(240)).force_stop);
}

#[test]
fn test_mode_short_intervals() {
    let mut state = idle_state();
    let mut sched = SchedulerState::new(true, secs(0));
    assert_eq!(sched.tick_secs(), 15);
    // Work hours are ignored in test mode.
    assert!(scheduler_step(&mut state, &mut sched, 2, secs(60)).idle_reminder);
    set_tray_state(&mut state, true, secs(100));
    assert!(scheduler_step(&mut state, &mut sched, 2, secs(190)).long_task_reminder);
    assert!(!scheduler_step(&mut state, &mut sched, 23, secs(219)).force_stop);
    assert!(scheduler_step(&mut state, &mut sched, 23, secs(220)).force_stop);
}

#[test]
fn normal_tick_interval() {
    let sched = SchedulerState::new(false, secs(0));
    assert_eq!(sched.tick_secs(), 60);
    assert_eq!(IDLE_REMINDER_NANOS, secs(30 * 60));
    assert_eq!(LONG_TASK_NANOS, secs(3 * 3600));
}

#[test]
fn task_and_leave_changes_between_idle_ticks() {
    let mut state = idle_state();
    let mut sched = SchedulerState::new(false, secs(0));
    // A short task and a leave switch in between do not restart the idle clock.
    set_tray_state(&mut state, true, secs(100));
    assert!(!scheduler_step(&mut state, &mut sched, 9, secs(160)).idle_reminder);
    set_tray_state(&mut state, false, secs(200));
    state.on_leave = true;
    assert!(!scheduler_step(&mut state, &mut sched, 9, secs(1900)).idle_reminder);
    state.on_leave = false;
    assert_eq!(sched.last_idle_notify, secs(0));
    assert!(scheduler_step(&mut state, &mut sched, 9, secs(1960)).idle_reminder);
}

#[test]
fn reminder_texts() {
    assert_eq!(reminder_title(), "Task Tracker");
    assert_eq!(reminder_body(Reminder::Idle), "No active task. Want to start tracking now?");
    assert_eq!(
        reminder_body(Reminder::LongTask),
        "A task has been running for over 3 hours. Still working, or forgot to Stop?"
    );
}
