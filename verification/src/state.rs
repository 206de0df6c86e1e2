//! The per-entity ability state and its one-tick transition, as a
//! mathematical step function.
//!
//! The phase of the action is derived from the stored flags and timers, and
//! [`Data::phase_spec`] makes that derivation explicit so that the invariants
//! of the machine can be stated over a tagged variant instead of flag
//! combinations.  [`Data::stepped`] and [`Data::emits`] describe one tick of
//! the machine on the state alone; the executable [`crate::machine::advance`]
//! is proved to follow them exactly.

use vstd::prelude::*;
use crate::duration::{Millis, sat_add, sat_sub};

verus! {

/// The ability state carried by an entity that is performing a timed action.
#[derive(Clone, Copy, Debug, PartialEq, Eq)]
pub struct Data {
    /// Can you hold the ability beyond the prepare duration.
    pub holdable: bool,
    /// How long we have to prepare the weapon, in milliseconds.
    pub prepare_duration: Millis,
    /// How long we have already prepared the weapon, in milliseconds.
    pub prepare_timer: Millis,
    /// How long the state has until exiting, in milliseconds.
    pub recover_duration: Millis,
    /// Whether the attack fired already.
    pub exhausted: bool,
}

/// The phase of the action on a given tick, derived from the state and the
/// hold-ability input sampled for that tick.
#[derive(Clone, Copy, Debug, PartialEq, Eq)]
pub enum Phase {
    /// The timer is still running, or the hold input extends the wind-up.
    Preparing,
    /// The one-shot world event fires on this tick.
    Executing,
    /// The recovery countdown is still running.
    Recovering,
    /// The action is over; the machine hands control back to a neutral state.
    Done,
}

impl Data {
    /// A fresh state for an action that has just been triggered: the timer
    /// starts at zero and the attack has not fired.
    pub fn new(holdable: bool, prepare_duration: Millis, recover_duration: Millis) -> (d: Data)
        ensures
            d == (Data {
                holdable,
                prepare_duration,
                prepare_timer: 0,
                recover_duration,
                exhausted: false,
            }),
    {
        Data {
            holdable,
            prepare_duration,
            prepare_timer: 0,
            recover_duration,
            exhausted: false,
        }
    }

    /// The wind-up goes on: the attack has not fired, and either the prepare
    /// timer has not run out, or the state is holdable and the hold input is
    /// asserted this tick.
    pub open spec fn preparing(self, hold: bool) -> bool {
        &&& !self.exhausted
        &&& ((self.holdable && hold) || self.prepare_timer < self.prepare_duration)
    }

    /// The phase the machine is in on a tick that samples `hold`, in the
    /// priority order Preparing, Executing, Recovering, Done.
    pub open spec fn phase_spec(self, hold: bool) -> Phase {
        if self.preparing(hold) {
            Phase::Preparing
        } else if !self.exhausted {
            Phase::Executing
        } else if self.recover_duration != 0 {
            Phase::Recovering
        } else {
            Phase::Done
        }
    }

    /// The executable phase derivation.
    pub fn phase(&self, hold: bool) -> (p: Phase)
        ensures
            p == self.phase_spec(hold),
    {
        if !self.exhausted && ((self.holdable && hold) || self.prepare_timer < self.prepare_duration) {
            Phase::Preparing
        } else if !self.exhausted {
            Phase::Executing
        } else if self.recover_duration != 0 {
            Phase::Recovering
        } else {
            Phase::Done
        }
    }

    /// Whether the tick fires the one-shot world event: exactly the
    /// Executing phase.
    pub open spec fn emits(self, hold: bool) -> bool {
        self.phase_spec(hold) is Executing
    }

    /// The state after one tick of duration `dt` that samples `hold`.
    ///
    /// Preparing accumulates the timer; Executing marks the state exhausted
    /// and leaves the timers alone; Recovering counts the recovery duration
    /// down, never below zero.  A Done state is left unchanged: the machine
    /// exits instead, and a caller that keeps invoking it sees no further
    /// change.
    pub open spec fn stepped(self, hold: bool, dt: Millis) -> Data {
        match self.phase_spec(hold) {
            Phase::Preparing => Data {
                holdable: self.holdable,
                prepare_duration: self.prepare_duration,
                prepare_timer: sat_add(self.prepare_timer, dt),
                recover_duration: self.recover_duration,
                exhausted: false,
            },
            Phase::Executing => Data {
                holdable: self.holdable,
                prepare_duration: self.prepare_duration,
                prepare_timer: self.prepare_timer,
                recover_duration: self.recover_duration,
                exhausted: true,
            },
            Phase::Recovering => Data {
                holdable: self.holdable,
                prepare_duration: self.prepare_duration,
                prepare_timer: self.prepare_timer,
                recover_duration: sat_sub(self.recover_duration, dt),
                exhausted: true,
            },
            Phase::Done => self,
        }
    }
}

} // verus!
