//! Durations and timers, measured in whole milliseconds.
//!
//! All duration arithmetic in the state machine saturates: a timer that
//! would overflow stops at the largest representable value, and a countdown
//! that would pass zero stops at zero.  Neither direction is ever a fault.

use vstd::prelude::*;

verus! {

/// A span of simulation time in milliseconds.
pub type Millis = u64;

/// `a + b`, stopping at `u64::MAX` instead of overflowing.
pub open spec fn sat_add(a: Millis, b: Millis) -> Millis {
    if a + b > u64::MAX {
        u64::MAX
    } else {
        (a + b) as u64
    }
}

/// `a - b`, stopping at zero instead of underflowing.
pub open spec fn sat_sub(a: Millis, b: Millis) -> Millis {
    if a >= b {
        (a - b) as u64
    } else {
        0
    }
}

/// Saturating addition, used to accumulate the prepare timer.
pub fn saturating_add(a: Millis, b: Millis) -> (r: Millis)
    ensures
        r == sat_add(a, b),
{
    if a <= u64::MAX - b {
        a + b
    } else {
        u64::MAX
    }
}

/// Saturating subtraction, used to count the recovery duration down.
pub fn saturating_sub(a: Millis, b: Millis) -> (r: Millis)
    ensures
        r == sat_sub(a, b),
{
    if a >= b {
        a - b
    } else {
        0
    }
}

} // verus!
