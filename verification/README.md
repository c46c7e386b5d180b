# time_tracker

The logic of a macOS menu-bar time tracker, verified with Verus.

- `src/` — the verified library:
  - `timer` — duration labels such as `1h 5m`;
  - `notification` — the reminder scheduler as a step function over the shared
    state, with its laws (reminders only in work hours and never On Leave,
    idle reminders at least 30 minutes apart, the long-task reminder once per
    task run, force-stop at 18:00);
  - `tray` — task start/stop, tray labels, tray and menu event handling;
  - `sheets` — the persisted settings and the webhook sync decisions;
  - `metrics` — network byte totals and the primary disk's capacity;
  - `text` — decimal rendering and white-space trimming.
- `app/` — the Tauri program around it: windows, tray, notifications, the
  settings file, the HTTP request, system counters and the scheduler thread.
- `tests/` — tests of the library.
