//! Reminder scheduler decisions.
//!
//! Reminders (only during work hours 08:00–18:00, and never while On Leave):
//!   1. Idle reminder — when no task is active, at most once every 30 minutes;
//!      it also force-opens the popup so the user is nudged to fill a task.
//!   2. Long-running task reminder — when a task has been running for more than
//!      3 hours, fired once per task run.
//!
//! Plus: at the end of the work day (18:00) any running task is force-stopped.
//!
//! A test mode shortens every interval, ignores the work-hours gate for
//! reminders and force-stops a task after a short run instead of at 18:00.
//!
//! Instants and durations are nanoseconds on a monotonic clock.

use vstd::prelude::*;

use crate::AppState;
use crate::tray::task_state_after;

verus! {

/// First hour of the work day.
pub const WORK_START_HOUR: u32 = 8;
/// The hour at which the work day ends.
pub const WORK_END_HOUR: u32 = 18;

/// Seconds the scheduler sleeps between ticks.
pub const TICK_SECS: u64 = 60;
/// Minimum time between two idle reminders: 30 minutes.
pub const IDLE_REMINDER_NANOS: u64 = 1_800_000_000_000;
/// A task running at least this long gets the long-task reminder: 3 hours.
pub const LONG_TASK_NANOS: u64 = 10_800_000_000_000;

/// Seconds between ticks in test mode.
pub const TEST_TICK_SECS: u64 = 15;
/// Idle reminder spacing in test mode: 60 seconds.
pub const TEST_IDLE_REMINDER_NANOS: u64 = 60_000_000_000;
/// Long-task threshold in test mode: 90 seconds.
pub const TEST_LONG_TASK_NANOS: u64 = 90_000_000_000;
/// In test mode a task is force-stopped after 120 seconds.
pub const TEST_FORCE_STOP_NANOS: u64 = 120_000_000_000;

/// The scheduler's own state: its mode, and the instant of the last idle
/// reminder (the idle clock starts when the scheduler starts).
pub struct SchedulerState {
    pub test_mode: bool,
    pub last_idle_notify: u64,
}

/// What one scheduler tick asks the app to do.
pub struct TickActions {
    /// Show the idle reminder and force-open the popup.
    pub idle_reminder: bool,
    /// Show the long-running task reminder.
    pub long_task_reminder: bool,
    /// Ask the frontend to stop the running task (and sync it).
    pub force_stop: bool,
}

/// Nanoseconds from `since` to `now`, zero when `now` is earlier (as a monotonic
/// clock's `elapsed` saturates).
pub open spec fn elapsed(now: u64, since: u64) -> nat {
    if now >= since {
        (now - since) as nat
    } else {
        0
    }
}

pub open spec fn idle_every(test_mode: bool) -> nat {
    if test_mode {
        TEST_IDLE_REMINDER_NANOS as nat
    } else {
        IDLE_REMINDER_NANOS as nat
    }
}

pub open spec fn long_task_after(test_mode: bool) -> nat {
    if test_mode {
        TEST_LONG_TASK_NANOS as nat
    } else {
        LONG_TASK_NANOS as nat
    }
}

/// Whether `hour` (0–23) lies in the work day, `[08:00, 18:00)`.
pub open spec fn within_work_hours(test_mode: bool, hour: u32) -> bool {
    test_mode || (WORK_START_HOUR <= hour && hour < WORK_END_HOUR)
}

/// Reminders fire only during work hours and when not On Leave.
pub open spec fn reminders_on(s: AppState, test_mode: bool, hour: u32) -> bool {
    within_work_hours(test_mode, hour) && !s.on_leave
}

pub open spec fn idle_due(s: AppState, sched: SchedulerState, hour: u32, now: u64) -> bool {
    &&& reminders_on(s, sched.test_mode, hour)
    &&& !s.task_active
    &&& elapsed(now, sched.last_idle_notify) >= idle_every(sched.test_mode)
}

pub open spec fn long_task_due(s: AppState, sched: SchedulerState, hour: u32, now: u64) -> bool {
    &&& reminders_on(s, sched.test_mode, hour)
    &&& s.task_active
    &&& s.task_started_at matches Some(start) && elapsed(now, start) >= long_task_after(
        sched.test_mode,
    )
    &&& !s.long_task_notified
}

pub open spec fn force_stop_due(s: AppState, sched: SchedulerState, hour: u32, now: u64) -> bool {
    &&& s.task_active
    &&& if sched.test_mode {
        s.task_started_at matches Some(start) && elapsed(now, start)
            >= TEST_FORCE_STOP_NANOS as nat
    } else {
        hour >= WORK_END_HOUR
    }
}

/// The actions of one tick at local hour `hour` and instant `now`.
pub open spec fn tick_actions(s: AppState, sched: SchedulerState, hour: u32, now: u64) -> TickActions {
    TickActions {
        idle_reminder: idle_due(s, sched, hour, now),
        long_task_reminder: long_task_due(s, sched, hour, now),
        force_stop: force_stop_due(s, sched, hour, now),
    }
}

/// The shared state after a tick: a long-task reminder marks the run as
/// notified.
pub open spec fn state_after_tick(s: AppState, sched: SchedulerState, hour: u32, now: u64) -> AppState {
    AppState {
        long_task_notified: s.long_task_notified || long_task_due(s, sched, hour, now),
        ..s
    }
}

/// The scheduler's state after a tick: an idle reminder restarts the idle
/// clock.
pub open spec fn scheduler_after_tick(
    s: AppState,
    sched: SchedulerState,
    hour: u32,
    now: u64,
) -> SchedulerState {
    SchedulerState {
        test_mode: sched.test_mode,
        last_idle_notify: if idle_due(s, sched, hour, now) {
            now
        } else {
            sched.last_idle_notify
        },
    }
}

impl SchedulerState {
    /// Start the scheduler at instant `now`; the idle clock starts now, so
    /// the first idle reminder comes one interval later.
    pub fn new(test_mode: bool, now: u64) -> (s: Self)
        ensures
            s.test_mode == test_mode,
            s.last_idle_notify == now,
    {
        SchedulerState { test_mode, last_idle_notify: now }
    }

    /// Seconds to sleep between ticks.
    pub fn tick_secs(&self) -> (secs: u64)
        ensures
            secs == (if self.test_mode { TEST_TICK_SECS } else { TICK_SECS }),
    {
        if self.test_mode {
            TEST_TICK_SECS
        } else {
            TICK_SECS
        }
    }
}

/// One scheduler tick at local hour `hour` and monotonic instant `now`.
pub fn scheduler_step(state: &mut AppState, sched: &mut SchedulerState, hour: u32, now: u64) -> (actions: TickActions)
    ensures
        actions == tick_actions(*old(state), *old(sched), hour, now),
        *final(state) == state_after_tick(*old(state), *old(sched), hour, now),
        *final(sched) == scheduler_after_tick(*old(state), *old(sched), hour, now),
{
    let active = state.task_active;
    let within = sched.test_mode || (WORK_START_HOUR <= hour && hour < WORK_END_HOUR);
    let reminders = within && !state.on_leave;
    let idle_every_secs: u64 = if sched.test_mode {
        TEST_IDLE_REMINDER_NANOS
    } else {
        IDLE_REMINDER_NANOS
    };
    let long_after_secs: u64 = if sched.test_mode {
        TEST_LONG_TASK_NANOS
    } else {
        LONG_TASK_NANOS
    };

    // 1) Idle reminder (and force-open the popup).
    let mut idle = false;
    if reminders && !active && now.saturating_sub(sched.last_idle_notify) >= idle_every_secs {
        idle = true;
        sched.last_idle_notify = now;
    }

    // 2) Long-running task reminder, once per task run.
    let mut long = false;
    if reminders && active {
        if let Some(start) = state.task_started_at {
            if now.saturating_sub(start) >= long_after_secs && !state.long_task_notified {
                long = true;
                state.long_task_notified = true;
            }
        }
    }

    // 3) Force-stop a running task at the end of the work day.
    let mut force = false;
    if active {
        force = if sched.test_mode {
            match state.task_started_at {
                Some(start) => now.saturating_sub(start) >= TEST_FORCE_STOP_NANOS,
                None => false,
            }
        } else {
            hour >= WORK_END_HOUR
        };
    }

    TickActions { idle_reminder: idle, long_task_reminder: long, force_stop: force }
}

/// What the frontend and the scheduler do to the shared state over time.
pub enum Event {
    /// A scheduler tick at local hour `hour` and instant `now`.
    Tick { hour: u32, now: u64 },
    /// The frontend reports a task start (`active`) or stop at instant `at`.
    TaskChanged { active: bool, at: u64 },
    /// The On Leave flag is switched.
    LeaveChanged { on_leave: bool },
}

/// The shared and scheduler states after one event.
pub open spec fn apply_event(w: (AppState, SchedulerState), e: Event) -> (AppState, SchedulerState) {
    match e {
        Event::Tick { hour, now } => (
            state_after_tick(w.0, w.1, hour, now),
            scheduler_after_tick(w.0, w.1, hour, now),
        ),
        Event::TaskChanged { active, at } => (task_state_after(w.0, active, at), w.1),
        Event::LeaveChanged { on_leave } => (AppState { on_leave, ..w.0 }, w.1),
    }
}

/// The states after a sequence of events, in order.
pub open spec fn run_events(w: (AppState, SchedulerState), events: Seq<Event>) -> (AppState, SchedulerState)
    decreases events.len(),
{
    if events.len() == 0 {
        w
    } else {
        apply_event(run_events(w, events.drop_last()), events.last())
    }
}

/// Event `i` is a tick that shows the idle reminder.
pub open spec fn idle_reminder_at(w: (AppState, SchedulerState), events: Seq<Event>, i: int) -> bool {
    &&& 0 <= i < events.len()
    &&& events[i] matches Event::Tick { hour, now } && {
        let before = run_events(w, events.take(i));
        idle_due(before.0, before.1, hour, now)
    }
}

/// Event `i` is a tick that shows the long-running task reminder.
pub open spec fn long_reminder_at(w: (AppState, SchedulerState), events: Seq<Event>, i: int) -> bool {
    &&& 0 <= i < events.len()
    &&& events[i] matches Event::Tick { hour, now } && {
        let before = run_events(w, events.take(i));
        long_task_due(before.0, before.1, hour, now)
    }
}

/// The rules of a single tick: reminders fire only during work hours and
/// never On Leave; the idle reminder only when no task is active; the
/// long-task reminder only for a task that has run long enough and has not
/// been reminded of yet; outside test mode a task is force-stopped exactly
/// when one is running at or after 18:00.
pub proof fn reminder_rules(s: AppState, sched: SchedulerState, hour: u32, now: u64)
    ensures
        ({
            let a = tick_actions(s, sched, hour, now);
            &&& (a.idle_reminder || a.long_task_reminder) ==> within_work_hours(sched.test_mode, hour)
                && !s.on_leave
            &&& (!sched.test_mode && (a.idle_reminder || a.long_task_reminder)) ==> 8 <= hour < 18
            &&& a.idle_reminder ==> !s.task_active && elapsed(now, sched.last_idle_notify)
                >= idle_every(sched.test_mode)
            &&& a.long_task_reminder ==> (s.task_active && !s.long_task_notified && (
            s.task_started_at matches Some(start) && elapsed(now, start) >= long_task_after(
                sched.test_mode,
            )))
            &&& !sched.test_mode ==> (a.force_stop <==> (s.task_active && hour >= 18))
        }),
{
}

/// The work-day rules of one tick outside test mode, in plain numbers: the
/// idle reminder shows exactly when the hour is in 08:00–17:59, On Leave is
/// off, no task runs and 30 minutes (1_800_000_000_000 ns) have passed since
/// the idle clock, and it restarts the idle clock at the tick; the long-task
/// reminder shows exactly when the hour is in 08:00–17:59, On Leave is off,
/// a task runs, was started at least 3 hours (10_800_000_000_000 ns) ago and
/// was not reminded of yet, and it marks the run as reminded; a running task
/// is force-stopped exactly from 18:00 on.
pub proof fn work_day_rules(s: AppState, sched: SchedulerState, hour: u32, now: u64)
    requires
        !sched.test_mode,
    ensures
        ({
            let a = tick_actions(s, sched, hour, now);
            let st = state_after_tick(s, sched, hour, now);
            let next = scheduler_after_tick(s, sched, hour, now);
            &&& a.idle_reminder <==> (8 <= hour < 18 && !s.on_leave && !s.task_active && now
                >= sched.last_idle_notify + 1_800_000_000_000)
            &&& next.last_idle_notify == (if a.idle_reminder {
                now
            } else {
                sched.last_idle_notify
            })
            &&& next.test_mode == sched.test_mode
            &&& a.long_task_reminder <==> (8 <= hour < 18 && !s.on_leave && s.task_active
                && !s.long_task_notified && (s.task_started_at matches Some(start) && now >= start
                + 10_800_000_000_000))
            &&& st.long_task_notified == (s.long_task_notified || a.long_task_reminder)
            &&& st.task_active == s.task_active
            &&& st.task_started_at == s.task_started_at
            &&& st.on_leave == s.on_leave
            &&& a.force_stop <==> (s.task_active && hour >= 18)
        }),
{
}

/// The rules of one tick in test mode, in plain numbers: the work-hours gate
/// is off, the idle reminder needs 60 s, the long-task reminder 90 s, and a
/// running task is force-stopped 120 s after its start.
pub proof fn test_mode_rules(s: AppState, sched: SchedulerState, hour: u32, now: u64)
    requires
        sched.test_mode,
    ensures
        ({
            let a = tick_actions(s, sched, hour, now);
            let next = scheduler_after_tick(s, sched, hour, now);
            &&& a.idle_reminder <==> (!s.on_leave && !s.task_active && now >= sched.last_idle_notify
                + 60_000_000_000)
            &&& next.last_idle_notify == (if a.idle_reminder {
                now
            } else {
                sched.last_idle_notify
            })
            &&& a.long_task_reminder <==> (!s.on_leave && s.task_active && !s.long_task_notified && (
            s.task_started_at matches Some(start) && now >= start + 90_000_000_000))
            &&& a.force_stop <==> (s.task_active && (s.task_started_at matches Some(start) && now
                >= start + 120_000_000_000))
        }),
{
}

/// The scheduler's mode never changes.
pub proof fn lemma_mode_fixed(w: (AppState, SchedulerState), events: Seq<Event>)
    ensures
        run_events(w, events).1.test_mode == w.1.test_mode,
    decreases events.len(),
{
    if events.len() > 0 {
        lemma_mode_fixed(w, events.drop_last());
    }
}

/// After an idle reminder at event `i`, the idle clock never goes back
/// before that reminder's instant.
proof fn lemma_idle_clock_holds(w: (AppState, SchedulerState), events: Seq<Event>, i: int, k: int)
    requires
        idle_reminder_at(w, events, i),
        i < k <= events.len(),
    ensures
        run_events(w, events.take(k)).1.last_idle_notify >= events[i]->now,
    decreases k,
{
    let prefix = events.take(k);
    assert(prefix.drop_last() =~= events.take(k - 1));
    assert(prefix.last() == events[k - 1]);
    if k > i + 1 {
        lemma_idle_clock_holds(w, events, i, k - 1);
    }
}

/// Idle reminders are spaced: any two of them, in any sequence of events,
/// lie at least the idle interval (30 minutes outside test mode) apart.
pub proof fn idle_reminders_are_spaced(w: (AppState, SchedulerState), events: Seq<Event>, i: int, j: int)
    requires
        i < j,
        idle_reminder_at(w, events, i),
        idle_reminder_at(w, events, j),
    ensures
        events[j]->now >= events[i]->now + idle_every(w.1.test_mode),
{
    lemma_idle_clock_holds(w, events, i, j);
    lemma_mode_fixed(w, events.take(j));
}

/// After a long-task reminder at event `i`, the run stays marked as
/// notified until the next task start.
proof fn lemma_notified_until_restart(w: (AppState, SchedulerState), events: Seq<Event>, i: int, k: int)
    requires
        long_reminder_at(w, events, i),
        i < k <= events.len(),
        forall|m: int| i < m < k ==> !(#[trigger] events[m] matches Event::TaskChanged { active: true, .. }),
    ensures
        run_events(w, events.take(k)).0.long_task_notified,
    decreases k,
{
    let prefix = events.take(k);
    assert(prefix.drop_last() =~= events.take(k - 1));
    assert(prefix.last() == events[k - 1]);
    if k > i + 1 {
        lemma_notified_until_restart(w, events, i, k - 1);
    }
}

/// The long-running task reminder fires once per task run: between any two
/// such reminders, a new task was started.
pub proof fn long_task_reminder_once_per_run(
    w: (AppState, SchedulerState),
    events: Seq<Event>,
    i: int,
    j: int,
)
    requires
        i < j,
        long_reminder_at(w, events, i),
        long_reminder_at(w, events, j),
    ensures
        exists|k: int| i < k < j && #[trigger] events[k] matches Event::TaskChanged { active: true, .. },
{
    if !exists|k: int| i < k < j && #[trigger] events[k] matches Event::TaskChanged { active: true, .. } {
        lemma_notified_until_restart(w, events, i, j);
    }
}

/// The start instant recorded by the last task start among `events`, if any.
pub open spec fn last_task_start(events: Seq<Event>) -> Option<u64>
    decreases events.len(),
{
    if events.len() == 0 {
        None
    } else {
        match events.last() {
            Event::TaskChanged { active: true, at } => Some(at),
            _ => last_task_start(events.drop_last()),
        }
    }
}

/// Starting with no recorded task start, a recorded start is always the
/// instant of the last task start.
proof fn lemma_start_is_last_start(w: (AppState, SchedulerState), events: Seq<Event>)
    requires
        w.0.task_started_at is None,
    ensures
        run_events(w, events).0.task_started_at matches Some(t) ==> last_task_start(events) == Some(t),
    decreases events.len(),
{
    if events.len() > 0 {
        lemma_start_is_last_start(w, events.drop_last());
    }
}

/// The long-running task reminder never comes early: starting with no task
/// running, every such reminder follows a task start, and comes at least the
/// long-task threshold (3 hours outside test mode) after the instant of the
/// last task start before it.
pub proof fn long_task_reminder_not_early(w: (AppState, SchedulerState), events: Seq<Event>, j: int)
    requires
        w.0.task_started_at is None,
        long_reminder_at(w, events, j),
    ensures
        last_task_start(events.take(j)) matches Some(t) && events[j]->now >= t + long_task_after(
            w.1.test_mode,
        ),
{
    lemma_start_is_last_start(w, events.take(j));
    lemma_mode_fixed(w, events.take(j));
}

/// The idle clock never goes back before the instant the scheduler started.
proof fn lemma_idle_clock_never_earlier(w: (AppState, SchedulerState), events: Seq<Event>)
    ensures
        run_events(w, events).1.last_idle_notify >= w.1.last_idle_notify,
    decreases events.len(),
{
    if events.len() > 0 {
        lemma_idle_clock_never_earlier(w, events.drop_last());
    }
}

/// No idle reminder comes earlier than one interval (30 minutes outside test
/// mode) after the scheduler started (whose start instant is the idle
/// clock's initial value).
pub proof fn first_idle_reminder_not_early(w: (AppState, SchedulerState), events: Seq<Event>, j: int)
    requires
        idle_reminder_at(w, events, j),
    ensures
        events[j]->now >= w.1.last_idle_notify + idle_every(w.1.test_mode),
{
    lemma_idle_clock_never_earlier(w, events.take(j));
    lemma_mode_fixed(w, events.take(j));
}

/// Event `i` is a tick within work hours that sees no task running and
/// On Leave off.
pub open spec fn idle_tick_at(w: (AppState, SchedulerState), events: Seq<Event>, i: int) -> bool {
    events[i] matches Event::Tick { hour, .. } && {
        let before = run_events(w, events.take(i));
        &&& within_work_hours(w.1.test_mode, hour)
        &&& !before.0.task_active
        &&& !before.0.on_leave
    }
}

/// Ticks `i < j` with no tick between them.
pub open spec fn consecutive_ticks(events: Seq<Event>, i: int, j: int) -> bool {
    &&& 0 <= i < j < events.len()
    &&& events[i] is Tick
    &&& events[j] is Tick
    &&& forall|k: int| i < k < j ==> !(#[trigger] events[k] is Tick)
}

/// While no tick is due for the idle reminder, the scheduler state stays as
/// it was (task and leave changes do not touch it).
proof fn lemma_idle_clock_waits(w: (AppState, SchedulerState), events: Seq<Event>, k: int)
    requires
        0 <= k <= events.len(),
        forall|i: int|
            0 <= i < k && #[trigger] events[i] is Tick ==> events[i]->now < w.1.last_idle_notify
                + idle_every(w.1.test_mode),
    ensures
        run_events(w, events.take(k)).1 == w.1,
    decreases k,
{
    if k > 0 {
        lemma_idle_clock_waits(w, events, k - 1);
        let prefix = events.take(k);
        assert(prefix.drop_last() =~= events.take(k - 1));
        assert(prefix.last() == events[k - 1]);
    }
}

/// The first tick at or after `due`, searching from index `k`.
proof fn lemma_first_due_tick(events: Seq<Event>, due: nat, k: int) -> (j: int)
    requires
        0 <= k < events.len(),
        forall|i: int| 0 <= i < k && #[trigger] events[i] is Tick ==> events[i]->now < due,
        events.last() is Tick,
        events.last()->now >= due,
    ensures
        k <= j < events.len(),
        events[j] is Tick,
        forall|i: int| 0 <= i < j && #[trigger] events[i] is Tick ==> events[i]->now < due,
        events[j]->now >= due,
    decreases events.len() - k,
{
    if events[k] is Tick && events[k]->now >= due {
        k
    } else {
        lemma_first_due_tick(events, due, k + 1)
    }
}

/// The last tick at or before index `k`.
proof fn lemma_last_tick_before(events: Seq<Event>, k: int, j: int) -> (i: int)
    requires
        0 <= k < j < events.len(),
        events[0] is Tick,
        forall|m: int| k < m < j ==> !(#[trigger] events[m] is Tick),
    ensures
        0 <= i <= k,
        events[i] is Tick,
        forall|m: int| i < m < j ==> !(#[trigger] events[m] is Tick),
    decreases k,
{
    if events[k] is Tick {
        k
    } else {
        lemma_last_tick_before(events, k - 1, j)
    }
}

/// Idle reminders keep coming: take events that begin and end with a tick,
/// where every tick is within work hours and sees no task running and On
/// Leave off (tasks may start and stop and On Leave may switch in between),
/// consecutive ticks lie at most `gap` apart, the first tick is no earlier
/// than the idle clock, and the last is at least one idle interval (30
/// minutes outside test mode) after the first. Then an idle reminder fires at
/// one of the ticks, no later than one interval plus one gap after the first.
pub proof fn idle_reminder_comes(w: (AppState, SchedulerState), events: Seq<Event>, gap: nat)
    requires
        events.len() > 0,
        events[0] is Tick,
        events.last() is Tick,
        forall|i: int| 0 <= i < events.len() && #[trigger] events[i] is Tick ==> idle_tick_at(w, events, i),
        forall|i: int, j: int|
            #![trigger events[i], events[j]]
            consecutive_ticks(events, i, j) ==> events[j]->now <= events[i]->now + gap,
        w.1.last_idle_notify <= events[0]->now,
        events.last()->now >= events[0]->now + idle_every(w.1.test_mode),
    ensures
        exists|i: int|
            #![trigger idle_reminder_at(w, events, i)]
            idle_reminder_at(w, events, i) && events[i]->now <= events[0]->now + idle_every(
                w.1.test_mode,
            ) + gap,
{
    let due: nat = (w.1.last_idle_notify + idle_every(w.1.test_mode)) as nat;
    let j = lemma_first_due_tick(events, due, 0);
    lemma_idle_clock_waits(w, events, j);
    assert(idle_tick_at(w, events, j));
    if j > 0 {
        let i = lemma_last_tick_before(events, j - 1, j);
        assert(consecutive_ticks(events, i, j));
        assert(events[i]->now < due);
    }
    assert(idle_reminder_at(w, events, j));
}

/// The two reminders the scheduler shows.
pub enum Reminder {
    Idle,
    LongTask,
}

/// Title of every reminder notification.
pub fn reminder_title() -> (t: &'static str)
    ensures
        t@ == "Task Tracker"@,
{
    "Task Tracker"
}

/// Body text of each reminder notification.
pub fn reminder_body(kind: Reminder) -> (body: &'static str)
    ensures
        body@ == (match kind {
            Reminder::Idle => "No active task. Want to start tracking now?"@,
            Reminder::LongTask =>
                "A task has been running for over 3 hours. Still working, or forgot to Stop?"@,
        }),
{
    match kind {
        Reminder::Idle => "No active task. Want to start tracking now?",
        Reminder::LongTask =>
            "A task has been running for over 3 hours. Still working, or forgot to Stop?",
    }
}

} // verus!
