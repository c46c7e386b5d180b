use time_tracker::tray::{
    initial_tooltip, menu_item_quits, quit_item_id, set_tray_state, toggle_popup,
    tray_event_reaction, MouseButton, MouseButtonState, PopupAction, TrayEventKind,
};
use time_tracker::AppState;

#[test]
fn starting_a_task_records_start_and_labels() {
    let mut state = AppState::new(false);
    state.long_task_notified = true;
    let label = set_tray_state(&mut state, true, 42);
    assert!(state.task_active);
    assert_eq!(state.task_started_at, Some(42));
    assert!(!state.long_task_notified);
    assert_eq!(label.tooltip, "Task Tracker — Active");
    assert_eq!(label.title, "●");
}

#[test]
fn stopping_a_task_clears_start_and_labels() {
    let mut state = AppState::new(true);
    set_tray_state(&mut state, true, 42);
    let label = set_tray_state(&mut state, false, 99);
    assert!(!state.task_active);
    assert_eq!(state.task_started_at, None);
    assert!(state.on_leave);
    assert_eq!(label.tooltip, "Task Tracker — Idle");
    assert_eq!(label.title, "");
    assert_eq!(initial_tooltip(), "Task Tracker — Idle");
}

#[test]
fn only_left_release_toggles() {
    let left_up = TrayEventKind::Click { button: MouseButton::Left, button_state: MouseButtonState::Up };
    let r = tray_event_reaction(&left_up);
    assert!(r.remember_position && r.toggle_popup);
    let left_down = TrayEventKind::Click { button: MouseButton::Left, button_state: MouseButtonState::Down };
    let r = tray_event_reaction(&left_down);
    assert!(r.remember_position && !r.toggle_popup);
    let right_up = TrayEventKind::Click { button: MouseButton::Right, button_state: MouseButtonState::Up };
    assert!(!tray_event_reaction(&right_up).toggle_popup);
    for e in [TrayEventKind::DoubleClick, TrayEventKind::Enter, TrayEventKind::Move] {
        let r = tray_event_reaction(&e);
        assert!(r.remember_position && !r.toggle_popup);
    }
    let r = tray_event_reaction(&TrayEventKind::Other);
    assert!(!r.remember_position && !r.toggle_popup);
}

#[test]
fn quit_menu_item() {
    assert!(menu_item_quits(quit_item_id()));
    assert!(menu_item_quits("quit"));
    assert!(!menu_item_quits("Quit"));
    assert!(!menu_item_quits("quit "));
    assert!(!menu_item_quits(""));
}

#[test]
fn toggle_hides_visible_popup() {
    assert!(matches!(toggle_popup(true), PopupAction::Hide));
    assert!(matches!(toggle_popup(false), PopupAction::ShowUnderIcon));
}
