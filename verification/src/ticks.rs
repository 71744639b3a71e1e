//! Wraparound arithmetic on 32-bit tick counters.
//!
//! A tick counter increases monotonically modulo `2^32`, so ticks carry no
//! absolute order. The only meaningful comparison is membership in a
//! half-open window `[start, end)` taken relative to a reference point:
//! `x` is inside the window when the distance from `start` to `x` is
//! smaller than the distance from `start` to `end`, both distances
//! measured with wrapping subtraction.

use vstd::prelude::*;

verus! {

/// Distance travelled by the counter from `from` to `to`, as a wraparound
/// tick count.
pub open spec fn tick_distance(from: u32, to: u32) -> u32 {
    to.wrapping_sub(from)
}

/// `x` lies in the half-open wraparound window `[start, end)`.
pub open spec fn spec_within_range(x: u32, start: u32, end: u32) -> bool {
    tick_distance(start, x) < tick_distance(start, end)
}

/// Wraparound window membership test: `x` is in `[start, end)`.
pub fn within_range(x: u32, start: u32, end: u32) -> (r: bool)
    ensures
        r == spec_within_range(x, start, end),
{
    x.wrapping_sub(start) < end.wrapping_sub(start)
}

/// An alarm armed to fire at tick `alarm`, set when the counter read
/// `reference`, has expired once `now` has left the window
/// `[reference, alarm)`: the counter has travelled at least as far from
/// `reference` as the alarm's target.
pub fn has_expired(alarm: u32, now: u32, reference: u32) -> (r: bool)
    ensures
        r == !spec_within_range(now, reference, alarm),
        r == (tick_distance(reference, now) >= tick_distance(reference, alarm)),
{
    !within_range(now, reference, alarm)
}

/// Adding a duration to a reference and measuring the distance back from
/// the reference returns the duration: the deadline `reference + dt` lies
/// exactly `dt` ticks ahead of `reference`, wraparound or not.
pub proof fn lemma_wrap_add_sub(reference: u32, dt: u32)
    ensures
        tick_distance(reference, reference.wrapping_add(dt)) == dt,
{
}

/// The window `[reference, reference + dt)` contains exactly the ticks
/// whose distance from `reference` is below `dt`, also when
/// `reference + dt` wraps past zero.
pub proof fn lemma_window_membership(x: u32, reference: u32, dt: u32)
    ensures
        spec_within_range(x, reference, reference.wrapping_add(dt)) <==> tick_distance(
            reference,
            x,
        ) < dt,
{
    lemma_wrap_add_sub(reference, dt);
}

} // verus!
