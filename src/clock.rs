//! Wall-clock time of day, as stamped on log lines.
use vstd::prelude::*;
use chrono::Timelike;
use crate::text::{padded_text, push_char, push_padded};

verus! {

/// A local time of day.
#[derive(Clone, Copy, Debug, PartialEq, Eq, Structural)]
pub struct ClockTime {
    pub hour: u32,
    pub minute: u32,
    pub second: u32,
}

impl ClockTime {
    /// Hours, minutes and seconds are in range.
    pub open spec fn wf(&self) -> bool {
        self.hour < 24 && self.minute < 60 && self.second < 60
    }
}

/// `HH:MM:SS`.
pub open spec fn clock_text(t: ClockTime) -> Seq<char> {
    padded_text(t.hour as nat, 2) + seq![':'] + padded_text(t.minute as nat, 2) + seq![':']
        + padded_text(t.second as nat, 2)
}

/// `[HH:MM:SS]`, the prefix of every log line.
pub open spec fn stamp_text(t: ClockTime) -> Seq<char> {
    seq!['['] + clock_text(t) + seq![']']
}

/// Relies on `chrono::Local::now` with `Timelike::{hour, minute, second}`:
/// the local time of day, hour 0 to 23, minute and second 0 to 59.
#[verifier::external_body]
pub fn local_now() -> (r: ClockTime)
    ensures
        r.wf(),
{
    let now = chrono::Local::now();
    ClockTime { hour: now.hour(), minute: now.minute(), second: now.second() }
}

/// Appends `HH:MM:SS`.
pub fn push_clock(s: &mut String, t: ClockTime)
    ensures
        final(s)@ == old(s)@ + clock_text(t),
{
    push_padded(s, t.hour as u128, 2);
    push_char(s, ':');
    push_padded(s, t.minute as u128, 2);
    push_char(s, ':');
    push_padded(s, t.second as u128, 2);
    assert(final(s)@ =~= old(s)@ + clock_text(t));
}

/// A new string holding `[HH:MM:SS]`.
pub fn stamp(t: ClockTime) -> (r: String)
    ensures
        r@ == stamp_text(t),
{
    let mut r = String::new();
    push_char(&mut r, '[');
    push_clock(&mut r, t);
    push_char(&mut r, ']');
    assert(r@ =~= stamp_text(t));
    r
}

} // verus!
