//! Laws of the state machine over whole runs.
//!
//! A run feeds the step function of [`Data`] a sequence of ticks: tick `i`
//! samples the hold input `holds[i]` and lasts `dts[i]` milliseconds.  The
//! proof functions here state the machine's lifetime guarantees: the one-shot
//! event fires exactly once, a fixed wind-up fires when the accumulated
//! timer reaches the prepare duration, a held wind-up lasts as long as the
//! hold input does, the terminal state is idempotent, and the recovery
//! countdown never underflows.

use vstd::prelude::*;
use crate::duration::{Millis, sat_sub};
use crate::state::{Data, Phase};

verus! {

/// The state after the first `n` ticks of a run.
pub open spec fn run_state(s: Data, holds: Seq<bool>, dts: Seq<Millis>, n: int) -> Data
    decreases n,
{
    if n <= 0 {
        s
    } else {
        run_state(s, holds, dts, n - 1).stepped(holds[n - 1], dts[n - 1])
    }
}

/// How many events the first `n` ticks of a run emit.
pub open spec fn run_events(s: Data, holds: Seq<bool>, dts: Seq<Millis>, n: int) -> int
    decreases n,
{
    if n <= 0 {
        0
    } else {
        run_events(s, holds, dts, n - 1) + if run_state(s, holds, dts, n - 1).emits(
            holds[n - 1],
        ) {
            1int
        } else {
            0int
        }
    }
}

/// The total time the first `n` ticks of a run cover.
pub open spec fn total_time(dts: Seq<Millis>, n: int) -> int
    decreases n,
{
    if n <= 0 {
        0
    } else {
        total_time(dts, n - 1) + dts[n - 1]
    }
}

/// One tick emits the event exactly when it flips `exhausted` from false to
/// true, and `exhausted` never goes back: the flip happens at most once in a
/// lifetime, on the executing tick.
pub proof fn lemma_event_is_exhaust_flip(s: Data, hold: bool, dt: Millis)
    ensures
        s.emits(hold) <==> (!s.exhausted && s.stepped(hold, dt).exhausted),
        s.exhausted ==> s.stepped(hold, dt).exhausted,
{
}

/// Exactly-once: a run from an exhausted state emits nothing, and any run
/// emits one event if it ends exhausted after starting fresh, none
/// otherwise.  In particular no run emits more than one event.
pub proof fn lemma_exactly_once(s: Data, holds: Seq<bool>, dts: Seq<Millis>, n: int)
    requires
        0 <= n,
    ensures
        run_events(s, holds, dts, n) == (if !s.exhausted && run_state(
            s,
            holds,
            dts,
            n,
        ).exhausted {
            1int
        } else {
            0int
        }),
        run_events(s, holds, dts, n) <= 1,
        s.exhausted ==> run_state(s, holds, dts, n).exhausted,
    decreases n,
{
    if n > 0 {
        lemma_exactly_once(s, holds, dts, n - 1);
        lemma_event_is_exhaust_flip(run_state(s, holds, dts, n - 1), holds[n - 1], dts[n - 1]);
    }
}

/// Idempotent terminal state: once exhausted with no recovery left, the
/// phase is Done on every input, the tick emits nothing and changes nothing.
pub proof fn lemma_done_terminal(s: Data, hold: bool, dt: Millis)
    requires
        s.exhausted,
        s.recover_duration == 0,
    ensures
        s.phase_spec(hold) is Done,
        !s.emits(hold),
        s.stepped(hold, dt) == s,
{
}

/// The recovery countdown saturates: it counts down by `dt` while recovering
/// and stops at zero rather than underflowing.
pub proof fn lemma_recovery_counts_down(s: Data, hold: bool, dt: Millis)
    requires
        s.exhausted,
        s.recover_duration != 0,
    ensures
        s.phase_spec(hold) is Recovering,
        !s.emits(hold),
        s.stepped(hold, dt).recover_duration == sat_sub(s.recover_duration, dt),
        dt >= s.recover_duration ==> s.stepped(hold, dt).recover_duration == 0,
        dt < s.recover_duration ==> s.stepped(hold, dt).recover_duration == s.recover_duration
            - dt,
{
}

/// A fixed (non-holdable) wind-up started with a zero timer and advanced by
/// ticks of positive duration that sum exactly to the prepare duration stays
/// Preparing throughout, emits nothing, accumulates the timer to exactly the
/// prepare duration, and then executes: on the first tick where the stored
/// timer has reached the duration, whatever the hold input, the machine is
/// in the Executing phase and fires the event.
pub proof fn lemma_fixed_windup_fires(s: Data, holds: Seq<bool>, dts: Seq<Millis>, n: int)
    requires
        !s.exhausted,
        !s.holdable,
        s.prepare_timer == 0,
        0 <= n <= dts.len(),
        n <= holds.len(),
        forall|i: int| 0 <= i < dts.len() ==> dts[i] > 0,
        total_time(dts, dts.len() as int) == s.prepare_duration,
    ensures
        run_state(s, holds, dts, n).prepare_timer == total_time(dts, n),
        !run_state(s, holds, dts, n).exhausted,
        run_state(s, holds, dts, n).holdable == s.holdable,
        run_state(s, holds, dts, n).prepare_duration == s.prepare_duration,
        run_events(s, holds, dts, n) == 0,
        n < dts.len() ==> run_state(s, holds, dts, n).phase_spec(holds[n]) is Preparing,
        n == dts.len() ==> forall|h: bool| run_state(s, holds, dts, n).phase_spec(h)
            is Executing && run_state(s, holds, dts, n).emits(h),
    decreases n,
{
    lemma_total_time_bounds(dts, n, dts.len() as int);
    if n > 0 {
        lemma_fixed_windup_fires(s, holds, dts, n - 1);
        lemma_total_time_bounds(dts, n - 1, dts.len() as int);
    }
}

/// Partial sums of positive tick durations grow strictly: the time covered
/// by `m` ticks is at least the time covered by `n` plus one millisecond per
/// extra tick.
pub proof fn lemma_total_time_bounds(dts: Seq<Millis>, n: int, m: int)
    requires
        0 <= n <= m <= dts.len(),
        forall|i: int| 0 <= i < dts.len() ==> dts[i] > 0,
    ensures
        total_time(dts, n) + (m - n) <= total_time(dts, m),
        total_time(dts, n) >= 0,
    decreases m,
{
    if m > 0 {
        if n == m {
            lemma_total_time_bounds(dts, 0, n - 1);
        } else {
            lemma_total_time_bounds(dts, n, m - 1);
        }
    }
}

/// A holdable wind-up persists: while the state is not exhausted, is
/// holdable, and the hold input stays asserted, every tick is Preparing
/// whatever the timers say, no event fires, and the state stays unexhausted
/// and holdable.
pub proof fn lemma_hold_persists(s: Data, holds: Seq<bool>, dts: Seq<Millis>, n: int)
    requires
        !s.exhausted,
        s.holdable,
        0 <= n <= holds.len(),
        n <= dts.len(),
        forall|i: int| 0 <= i < n ==> holds[i],
    ensures
        !run_state(s, holds, dts, n).exhausted,
        run_state(s, holds, dts, n).holdable,
        run_events(s, holds, dts, n) == 0,
        forall|i: int| 0 <= i < n ==> run_state(s, holds, dts, i).phase_spec(holds[i])
            is Preparing,
    decreases n,
{
    if n > 0 {
        lemma_hold_persists(s, holds, dts, n - 1);
    }
}

/// Releasing the hold fires: a holdable state whose timer has run out
/// executes on the first tick where the hold input is no longer asserted.
pub proof fn lemma_hold_release_fires(s: Data, dt: Millis)
    requires
        !s.exhausted,
        s.holdable,
        s.prepare_timer >= s.prepare_duration,
    ensures
        s.phase_spec(false) is Executing,
        s.emits(false),
        s.stepped(false, dt).exhausted,
{
}

} // verus!
