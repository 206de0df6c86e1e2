//! A deterministic, tick-driven ability state machine.
//!
//! An entity performing a timed action (placing a totem, swinging a weapon,
//! casting a spell) moves through four phases: it prepares, it executes once,
//! it recovers, and it is done.  Each simulation tick the caller hands the
//! machine the entity's current ability state, a kinematic snapshot, the
//! sampled input signals and the elapsed tick duration; the machine returns
//! the next ability state, the locomotion delta to apply, and the world
//! events to dispatch.  The update is a pure function of its arguments, so
//! lockstep replicas that feed it the same inputs stay in agreement.

pub mod duration;
pub mod event;
pub mod laws;
pub mod machine;
pub mod state;
