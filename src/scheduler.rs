//! The refresh scheduler and the handling of one fetch outcome.
use vstd::prelude::*;
use crate::alarm::{start_due, AlarmCoordinator};
use crate::app::{error_line, fetch_applied, App, UiMode};
use crate::clock::{local_now, ClockTime};
use crate::history::{bounded_push, MAX_LOG};
use crate::market::PairData;

verus! {

/// Whether a fetch is due: only when configured and monitoring, and then
/// when one was asked for or the interval has run out.
pub open spec fn fetch_due(
    configured: bool,
    ui_mode: UiMode,
    forced: bool,
    elapsed_secs: u64,
    interval_secs: u64,
) -> bool {
    configured && ui_mode == UiMode::Monitoring && (forced || elapsed_secs >= interval_secs)
}

/// Decides, once per tick, whether to fetch now; `elapsed_secs` is the time
/// since the last fetch began, in whole seconds.
pub fn should_fetch_now(
    configured: bool,
    ui_mode: UiMode,
    forced: bool,
    elapsed_secs: u64,
    interval_secs: u64,
) -> (r: bool)
    ensures
        r == fetch_due(configured, ui_mode, forced, elapsed_secs, interval_secs),
{
    configured && ui_mode == UiMode::Monitoring && (forced || elapsed_secs >= interval_secs)
}

/// What taking in a fetch outcome at time `now` makes of state `a`: a record
/// is applied, an error counted and logged.
pub open spec fn outcome_applied(a: App, b: App, now: ClockTime, outcome: Result<PairData, String>) -> bool {
    match outcome {
        Ok(d) => fetch_applied(a, b, now, d),
        Err(e) => {
            &&& b.error_count == crate::app::bump(a.error_count)
            &&& b.log_view() == bounded_push(a.log_view(), error_line(now, e@), MAX_LOG as nat)
            &&& b == (App { log_messages: b.log_messages, error_count: b.error_count, ..a })
        },
    }
}

/// Takes in the outcome of one fetch at time `now` and says whether an alarm
/// is to be started: after a record, where the alarm flag is up and none
/// sounds; never after an error.
pub fn apply_fetch_outcome_at(
    now: ClockTime,
    app: &mut App,
    outcome: Result<PairData, String>,
    alarm: &AlarmCoordinator,
) -> (start: bool)
    requires
        old(app).wf(),
    ensures
        final(app).wf(),
        outcome_applied(*old(app), *final(app), now, outcome),
        start == (outcome is Ok && start_due(*alarm, final(app).alarm_active)),
{
    match outcome {
        Ok(data) => {
            app.update_from_pair_data_at(now, &data);
            alarm.needs_start(app.alarm_active)
        },
        Err(e) => {
            app.add_error_at(now, e);
            false
        },
    }
}

/// [`apply_fetch_outcome_at`] at the current time.
pub fn apply_fetch_outcome(
    app: &mut App,
    outcome: Result<PairData, String>,
    alarm: &AlarmCoordinator,
) -> (start: bool)
    requires
        old(app).wf(),
    ensures
        final(app).wf(),
        exists|t: ClockTime| t.wf() && #[trigger] outcome_applied(*old(app), *final(app), t, outcome),
        start == (outcome is Ok && start_due(*alarm, final(app).alarm_active)),
{
    let now = local_now();
    apply_fetch_outcome_at(now, app, outcome, alarm)
}

} // verus!
