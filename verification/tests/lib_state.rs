use time_tracker::AppState;

#[test]
fn startup_state() {
    let s = AppState::new(true);
    assert!(!s.task_active);
    assert_eq!(s.task_started_at, None);
    assert!(!s.long_task_notified);
    assert!(s.on_leave);
}
