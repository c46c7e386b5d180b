//! Tray decisions: what a task start/stop does to the shared state and to
//! the tray labels, and how the tray reacts to mouse and menu events.

use vstd::prelude::*;

use crate::AppState;
use crate::text::same_text;

verus! {

/// The shared state after the frontend reports that a task started
/// (`active`) or stopped at instant `now`: a start records the start instant
/// and re-arms the long-task reminder; a stop forgets the start instant.
pub open spec fn task_state_after(s: AppState, active: bool, now: u64) -> AppState {
    if active {
        AppState {
            task_active: true,
            task_started_at: Some(now),
            long_task_notified: false,
            on_leave: s.on_leave,
        }
    } else {
        AppState {
            task_active: false,
            task_started_at: None,
            long_task_notified: s.long_task_notified,
            on_leave: s.on_leave,
        }
    }
}

/// What the menu bar shows: the icon's tooltip and the text beside it.
pub struct TrayLabel {
    pub tooltip: &'static str,
    pub title: &'static str,
}

/// Called whenever a task starts/stops so the menu bar icon (tooltip and a
/// dot beside it) reflects idle vs active, and the scheduler can stay quiet.
pub fn set_tray_state(state: &mut AppState, active: bool, now: u64) -> (label: TrayLabel)
    ensures
        *final(state) == task_state_after(*old(state), active, now),
        label.tooltip@ == (if active { "Task Tracker — Active"@ } else { "Task Tracker — Idle"@ }),
        label.title@ == (if active { "●"@ } else { ""@ }),
{
    state.task_active = active;
    if active {
        state.task_started_at = Some(now);
        state.long_task_notified = false;
        TrayLabel { tooltip: "Task Tracker — Active", title: "●" }
    } else {
        state.task_started_at = None;
        TrayLabel { tooltip: "Task Tracker — Idle", title: "" }
    }
}

/// The tooltip the tray icon starts with.
pub fn initial_tooltip() -> (t: &'static str)
    ensures
        t@ == "Task Tracker — Idle"@,
{
    "Task Tracker — Idle"
}

/// A mouse button on the tray icon.
pub enum MouseButton {
    Left,
    Right,
    Middle,
}

/// Whether a mouse button went down or up.
pub enum MouseButtonState {
    Up,
    Down,
}

/// The kinds of tray icon events; `Other` stands for events that carry no
/// position (such as the pointer leaving the icon).
pub enum TrayEventKind {
    Click { button: MouseButton, button_state: MouseButtonState },
    DoubleClick,
    Enter,
    Move,
    Other,
}

/// How the app answers a tray icon event.
pub struct TrayReaction {
    /// Remember the icon's position, so that a popup opened later by the
    /// scheduler can be placed under the icon.
    pub remember_position: bool,
    /// Toggle the popup (hide it if visible, else show it under the icon).
    pub toggle_popup: bool,
}

/// Every event that carries the icon's position updates the remembered
/// position; only a released left click toggles the popup (a right click
/// opens the menu instead).
pub fn tray_event_reaction(event: &TrayEventKind) -> (r: TrayReaction)
    ensures
        r.remember_position == !(*event is Other),
        r.toggle_popup == (*event matches TrayEventKind::Click {
            button: MouseButton::Left,
            button_state: MouseButtonState::Up,
        }),
{
    match event {
        TrayEventKind::Click { button, button_state } => {
            let left_up = match (button, button_state) {
                (MouseButton::Left, MouseButtonState::Up) => true,
                _ => false,
            };
            TrayReaction { remember_position: true, toggle_popup: left_up }
        },
        TrayEventKind::DoubleClick | TrayEventKind::Enter | TrayEventKind::Move => {
            TrayReaction { remember_position: true, toggle_popup: false }
        },
        TrayEventKind::Other => TrayReaction { remember_position: false, toggle_popup: false },
    }
}

/// The id of the tray menu's only item.
pub fn quit_item_id() -> (id: &'static str)
    ensures
        id@ == "quit"@,
{
    "quit"
}

/// A menu event quits the app exactly when it comes from the "quit" item.
pub fn menu_item_quits(id: &str) -> (quits: bool)
    ensures
        quits == (id@ == "quit"@),
{
    same_text(id, "quit")
}

/// What a click on the tray icon does to the popup.
pub enum PopupAction {
    Hide,
    ShowUnderIcon,
}

/// Toggle the popup on tray click: hide if visible, else show under the icon.
pub fn toggle_popup(visible: bool) -> (action: PopupAction)
    ensures
        (action is Hide) == visible,
{
    if visible {
        PopupAction::Hide
    } else {
        PopupAction::ShowUnderIcon
    }
}

} // verus!
