//! Key presses: the form's handler and the monitoring screen's handler.
use vstd::prelude::*;
use crate::alarm::AlarmCoordinator;
use crate::app::{config_applied, App};
use crate::clock::{local_now, stamp, stamp_text, ClockTime};
use crate::history::{bounded_push, MAX_LOG};
use crate::text::trimmed;

verus! {

/// A pressed key, as the handlers tell keys apart.
#[derive(Clone, Copy, Debug, PartialEq, Eq, Structural)]
pub enum Key {
    Enter,
    Esc,
    Tab,
    BackTab,
    Up,
    Down,
    Backspace,
    Char(char),
    Other,
}

/// Log line of a refresh asked for by hand.
pub open spec fn refresh_line(t: ClockTime) -> Seq<char> {
    stamp_text(t) + " 🔄 Manual refresh triggered"@
}

/// Log line of an alarm stopped by hand.
pub open spec fn silenced_line(t: ClockTime) -> Seq<char> {
    stamp_text(t) + " 🔇 Alarm stopped manually"@
}

/// What a key pressed in the form at time `now` makes of state `a` and the
/// fetch request `f`, giving `b` and `g`.
pub open spec fn form_key_applied(
    a: App,
    b: App,
    f: bool,
    g: bool,
    now: ClockTime,
    key: Key,
    shift: bool,
) -> bool {
    let i = a.modal_active_field as int;
    let next = App { modal_active_field: ((i + 1) % 4) as usize, ..a };
    let prev = App { modal_active_field: if i == 0 { 3usize } else { (i - 1) as usize }, ..a };
    match key {
        Key::Enter => if trimmed(a.form_view()[0]).len() > 0 {
            config_applied(a, b, now) && g
        } else {
            b == a && g == f
        },
        Key::Esc => g == f && if a.configured {
            b == (App { modal_open: false, ..a })
        } else {
            b == (App { running: false, ..a })
        },
        Key::Tab => g == f && b == if shift { prev } else { next },
        Key::BackTab | Key::Up => g == f && b == prev,
        Key::Down => g == f && b == next,
        Key::Backspace => {
            &&& g == f
            &&& b.form_view() == if a.form_view()[i].len() > 0 {
                a.form_view().update(i, a.form_view()[i].drop_last())
            } else {
                a.form_view()
            }
            &&& b == (App { modal_fields: b.modal_fields, ..a })
        },
        Key::Char(c) => {
            &&& g == f
            &&& b.form_view() == a.form_view().update(i, a.form_view()[i].push(c))
            &&& b == (App { modal_fields: b.modal_fields, ..a })
        },
        Key::Other => g == f && b == a,
    }
}

/// Handles a key pressed in the form at time `now`. Enter submits the form
/// where the address is not blank and then asks for a fetch; Esc closes the
/// form once configured, else ends the program; Tab and Down move to the next
/// field, Shift+Tab, BackTab and Up to the previous one, wrapping around;
/// Backspace and characters edit the active field.
pub fn handle_modal_input_at(
    now: ClockTime,
    app: &mut App,
    key: Key,
    shift: bool,
    needs_immediate_fetch: &mut bool,
)
    requires
        old(app).wf(),
    ensures
        final(app).wf(),
        form_key_applied(
            *old(app),
            *final(app),
            *old(needs_immediate_fetch),
            *final(needs_immediate_fetch),
            now,
            key,
            shift,
        ),
{
    match key {
        Key::Enter => {
            if app.submit_configuration_form_at(now) {
                *needs_immediate_fetch = true;
            }
        },
        Key::Esc => {
            if app.configured {
                app.close_modal();
            } else {
                app.running = false;
            }
        },
        Key::Tab => {
            if shift {
                app.modal_prev_field();
            } else {
                app.modal_next_field();
            }
        },
        Key::BackTab | Key::Up => {
            app.modal_prev_field();
        },
        Key::Down => {
            app.modal_next_field();
        },
        Key::Backspace => {
            app.modal_backspace();
        },
        Key::Char(c) => {
            app.modal_type_char(c);
        },
        Key::Other => {},
    }
}

/// [`handle_modal_input_at`] at the current time.
pub fn handle_modal_input(app: &mut App, key: Key, shift: bool, needs_immediate_fetch: &mut bool)
    requires
        old(app).wf(),
    ensures
        final(app).wf(),
        exists|t: ClockTime|
            t.wf() && #[trigger] form_key_applied(
                *old(app),
                *final(app),
                *old(needs_immediate_fetch),
                *final(needs_immediate_fetch),
                t,
                key,
                shift,
            ),
{
    let now = local_now();
    handle_modal_input_at(now, app, key, shift, needs_immediate_fetch);
}

/// What a key pressed on the monitoring screen at time `now` makes of state
/// `a`, the fetch request `f` and the alarm `c`, giving `b`, `g` and `d`.
pub open spec fn monitor_key_applied(
    a: App,
    b: App,
    f: bool,
    g: bool,
    c: AlarmCoordinator,
    d: AlarmCoordinator,
    now: ClockTime,
    key: Key,
) -> bool {
    match key {
        Key::Char('q') | Key::Esc => {
            &&& b == (App { running: false, ..a })
            &&& g == f
            &&& !d.sounding()
        },
        Key::Char('r') => {
            &&& g
            &&& d == c
            &&& b.log_view() == bounded_push(a.log_view(), refresh_line(now), MAX_LOG as nat)
            &&& b == (App { log_messages: b.log_messages, ..a })
        },
        Key::Char('c') => {
            &&& g == f
            &&& d == c
            &&& b.form_view() == crate::app::form_of(a)
            &&& b == (App {
                modal_fields: b.modal_fields,
                modal_active_field: 0,
                modal_open: true,
                ..a
            })
        },
        Key::Char('s') => {
            &&& g == f
            &&& !d.sounding()
            &&& if c.sounding() {
                &&& b.log_view() == bounded_push(a.log_view(), silenced_line(now), MAX_LOG as nat)
                &&& b == (App { log_messages: b.log_messages, alarm_active: false, ..a })
            } else {
                b == a
            }
        },
        _ => b == a && g == f && d == c,
    }
}

/// Handles a key pressed on the monitoring screen at time `now`: `q` and Esc
/// end the program and stop the alarm; `r` asks for a fetch and logs it; `c`
/// opens the form; `s` stops a sounding alarm, lowers the alarm flag and logs
/// it. Other keys do nothing.
pub fn handle_normal_input_at(
    now: ClockTime,
    app: &mut App,
    key: Key,
    needs_immediate_fetch: &mut bool,
    alarm: &mut AlarmCoordinator,
)
    requires
        old(app).wf(),
    ensures
        final(app).wf(),
        monitor_key_applied(
            *old(app),
            *final(app),
            *old(needs_immediate_fetch),
            *final(needs_immediate_fetch),
            *old(alarm),
            *final(alarm),
            now,
            key,
        ),
{
    match key {
        Key::Char('q') | Key::Esc => {
            app.running = false;
            alarm.stop();
        },
        Key::Char('r') => {
            *needs_immediate_fetch = true;
            let mut line = stamp(now);
            line.append(" 🔄 Manual refresh triggered");
            app.add_log(line);
        },
        Key::Char('c') => {
            app.open_modal();
        },
        Key::Char('s') => {
            if alarm.stop() {
                app.alarm_active = false;
                let mut line = stamp(now);
                line.append(" 🔇 Alarm stopped manually");
                app.add_log(line);
            }
        },
        _ => {},
    }
}

/// [`handle_normal_input_at`] at the current time.
pub fn handle_normal_input(
    app: &mut App,
    key: Key,
    needs_immediate_fetch: &mut bool,
    alarm: &mut AlarmCoordinator,
)
    requires
        old(app).wf(),
    ensures
        final(app).wf(),
        exists|t: ClockTime|
            t.wf() && #[trigger] monitor_key_applied(
                *old(app),
                *final(app),
                *old(needs_immediate_fetch),
                *final(needs_immediate_fetch),
                *old(alarm),
                *final(alarm),
                t,
                key,
            ),
{
    let now = local_now();
    handle_normal_input_at(now, app, key, needs_immediate_fetch, alarm);
}

} // verus!
