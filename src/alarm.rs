//! The alarm coordinator: holds at most one stop signal of a running alarm.
use vstd::prelude::*;
use std::sync::atomic::{AtomicBool, Ordering};
use std::sync::Arc;

verus! {

/// Asks the alarm behind `stop_flag` to stop; it polls the flag.
pub fn stop_alarm(stop_flag: &Arc<AtomicBool>) {
    stop_flag.store(true, Ordering::Relaxed);
}

/// Idle, or sounding with the stop signal of the one running alarm.
pub struct AlarmCoordinator {
    handle: Option<Arc<AtomicBool>>,
}

/// Whether an alarm is due to start: the alarm flag is up and none sounds.
pub open spec fn start_due(c: AlarmCoordinator, alarm_active: bool) -> bool {
    alarm_active && !c.sounding()
}

impl AlarmCoordinator {
    /// Whether an alarm is sounding.
    pub closed spec fn sounding(&self) -> bool {
        self.handle is Some
    }

    /// An idle coordinator.
    pub fn new() -> (r: AlarmCoordinator)
        ensures
            !r.sounding(),
    {
        AlarmCoordinator { handle: None }
    }

    /// Whether an alarm is sounding.
    pub fn is_sounding(&self) -> (r: bool)
        ensures
            r == self.sounding(),
    {
        self.handle.is_some()
    }

    /// Whether an alarm is to be started now, given the state's alarm flag.
    pub fn needs_start(&self, alarm_active: bool) -> (r: bool)
        ensures
            r == start_due(*self, alarm_active),
    {
        alarm_active && self.handle.is_none()
    }

    /// Takes the stop signal of an alarm just started. Where one sounds
    /// already, the new one is told to stop at once and the old one is kept,
    /// so that at most one is ever outstanding; the result says whether the
    /// new one was kept.
    pub fn attach(&mut self, handle: Arc<AtomicBool>) -> (r: bool)
        ensures
            r == !old(self).sounding(),
            final(self).sounding(),
            !r ==> *final(self) == *old(self),
    {
        if self.handle.is_some() {
            stop_alarm(&handle);
            false
        } else {
            self.handle = Some(handle);
            true
        }
    }

    /// Stops the sounding alarm, if any; stopping an idle coordinator does
    /// nothing. The result says whether one was sounding.
    pub fn stop(&mut self) -> (r: bool)
        ensures
            r == old(self).sounding(),
            !final(self).sounding(),
    {
        match &self.handle {
            Some(h) => {
                stop_alarm(h);
                self.handle = None;
                true
            },
            None => false,
        }
    }
}

/// While an alarm sounds, no other is due to start, whatever the alarm flag.
pub proof fn lemma_sounding_blocks_start(c: AlarmCoordinator, alarm_active: bool)
    requires
        c.sounding(),
    ensures
        !start_due(c, alarm_active),
{
}

} // verus!
