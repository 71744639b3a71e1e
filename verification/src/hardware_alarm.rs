//! Model of the hardware countdown/compare timer capability.
//!
//! The real peripheral is a free-running counter with one compare
//! register. This module models the part of it that the alarm core
//! relies on as plain state: the current counter value, whether a
//! deadline is armed, and the `(reference, dt)` pair it was armed with.
//! The counter only moves when the surrounding (unverified) harness
//! advances it with [`HardwareAlarm::set_now`]; everything the alarm
//! core does with the timer is verified against this state.

use vstd::prelude::*;

verus! {

/// One hardware alarm: a counter running at `frequency` ticks per
/// second and a single armed deadline `reference + dt`.
pub struct HardwareAlarm {
    /// Current value of the free-running counter.
    pub now: u32,
    /// Whether a deadline is currently armed.
    pub armed: bool,
    /// Counter value the armed deadline was measured from.
    pub reference: u32,
    /// Distance of the armed deadline from `reference`.
    pub dt: u32,
    /// Counter ticks per second.
    pub frequency: u32,
}

impl HardwareAlarm {
    /// Absolute tick at which the armed deadline fires.
    pub open spec fn spec_get_alarm(self) -> u32 {
        self.reference.wrapping_add(self.dt)
    }

    /// A fresh timer: counter at zero, nothing armed.
    pub fn new(frequency: u32) -> (r: HardwareAlarm)
        ensures
            r.now == 0,
            !r.armed,
            r.reference == 0,
            r.dt == 0,
            r.frequency == frequency,
    {
        HardwareAlarm { now: 0, armed: false, reference: 0, dt: 0, frequency }
    }

    /// Read the free-running counter.
    pub fn now(&self) -> (r: u32)
        ensures
            r == self.now,
    {
        self.now
    }

    /// Advance (or rewind, for wraparound scenarios) the counter to `t`.
    /// This is the stimulus by which the harness models the passage of
    /// time; it touches nothing but the counter.
    pub fn set_now(&mut self, t: u32)
        ensures
            *final(self) == (HardwareAlarm { now: t, ..*old(self) }),
    {
        self.now = t;
    }

    /// Arm the compare register for the deadline `reference + dt`.
    pub fn set_alarm(&mut self, reference: u32, dt: u32)
        ensures
            *final(self) == (HardwareAlarm { armed: true, reference, dt, ..*old(self) }),
    {
        self.armed = true;
        self.reference = reference;
        self.dt = dt;
    }

    /// Clear the compare register; the counter keeps running.
    pub fn disarm(&mut self)
        ensures
            *final(self) == (HardwareAlarm { armed: false, ..*old(self) }),
    {
        self.armed = false;
    }

    /// Read back the absolute deadline tick the compare register holds.
    pub fn get_alarm(&self) -> (r: u32)
        ensures
            r == self.spec_get_alarm(),
    {
        self.reference.wrapping_add(self.dt)
    }

    /// Whether a deadline is armed.
    pub fn is_armed(&self) -> (r: bool)
        ensures
            r == self.armed,
    {
        self.armed
    }

    /// Smallest deadline distance the hardware can hit reliably.
    pub fn minimum_dt(&self) -> (r: u32)
        ensures
            r == 1,
    {
        1
    }

    /// Counter ticks per second.
    pub fn frequency(&self) -> (r: u32)
        ensures
            r == self.frequency,
    {
        self.frequency
    }
}

} // verus!
