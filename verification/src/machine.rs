//! The tick update: one invocation per entity per simulation tick.
//!
//! [`advance`] is a pure function of the ability state, the entity snapshot,
//! the input signals and the tick duration; its contract pins every field of
//! the returned update, so two replicas that feed it the same arguments
//! compute the same update.

use vstd::prelude::*;
use crate::duration::{Millis, saturating_add, saturating_sub};
use crate::event::{Alignment, EventQueue, SpawnEvent, TotemKind};
use crate::state::{Data, Phase};

verus! {

/// Read-only kinematic and identity snapshot of the entity for one tick.
///
/// `P` is the caller's position type and `D` its direction type: the machine
/// never reads them, it only copies them into the spawn event.
pub struct EntitySnapshot<P, D> {
    /// Current position.
    pub pos: P,
    /// Current look direction.
    pub look_dir: D,
    /// The entity performing the action.
    pub entity: u64,
    /// The entity's persistent uid, used for the ownership tag.
    pub uid: u64,
    /// The entity's scale in thousandths (1000 is natural size).
    pub scale: u32,
}

/// Player or AI input signals sampled for one tick.
pub struct InputSignals<M> {
    /// Movement vector, opaque to the machine; handed to the movement system.
    pub move_dir: M,
    /// Jump requested this tick.
    pub jump: bool,
    /// The ability key is held down this tick.
    pub hold_ability: bool,
}

/// The locomotion delta the movement system applies for this tick.
#[derive(Clone, Copy, Debug, PartialEq, Eq)]
pub struct Locomotion<M> {
    /// The movement input to apply.
    pub move_dir: M,
    /// Speed multiplier in thousandths of full speed.
    pub speed_permille: u32,
    /// Whether the jump input is honored this tick.
    pub jump: bool,
}

/// What the entity's character state becomes after the tick.
#[derive(Clone, Copy, Debug, PartialEq, Eq)]
pub enum CharacterState {
    /// The action goes on with the given ability state.
    SpawnTotem(Data),
    /// The action is over; the entity returns to a neutral wielding state.
    Wielding,
}

/// The record one tick of the machine returns.
pub struct StateUpdate<P, D, M> {
    /// The entity's next character state.
    pub character: CharacterState,
    /// Locomotion to apply this tick, or nothing while recovering or done.
    pub locomotion: Option<Locomotion<M>>,
    /// World events produced this tick, front first.
    pub events: EventQueue<P, D>,
}

/// Movement speed while the action is in progress, in thousandths of full
/// speed: movement is allowed but slowed while preparing and executing.
pub const ACTION_SPEED_PERMILLE: u32 = 300;

/// The spawn event an execution on this tick produces, built from the
/// snapshot: the object appears at the entity's position, faces its look
/// direction, takes its scale, holds no drop item, and is owned by it.
pub open spec fn spawn_event_spec<P, D>(snapshot: EntitySnapshot<P, D>) -> SpawnEvent<P, D> {
    SpawnEvent {
        pos: snapshot.pos,
        dir: snapshot.look_dir,
        owner: snapshot.entity,
        scale: snapshot.scale,
        drop_item: None,
        kind: TotemKind::Generic,
        alignment: Alignment::Owned(snapshot.uid),
    }
}

/// Whether the tick applies locomotion: every phase except Recovering and
/// Done, with the one speed factor and the jump input honored.
pub open spec fn locomotion_spec<M>(phase: Phase, move_dir: M, jump: bool) -> Option<Locomotion<M>> {
    match phase {
        Phase::Preparing | Phase::Executing => Some(
            Locomotion { move_dir, speed_permille: ACTION_SPEED_PERMILLE, jump },
        ),
        Phase::Recovering | Phase::Done => None,
    }
}

/// Advances one entity's ability state by one tick.
///
/// The contract fixes the whole update: the next character state follows
/// [`Data::stepped`] (or exits to Wielding when the phase is Done), the
/// event queue holds exactly the one spawn event on the executing tick and
/// is empty on every other, and locomotion is applied on every tick except
/// Recovering and Done.
pub fn advance<P, D, M>(
    state: &Data,
    snapshot: EntitySnapshot<P, D>,
    inputs: InputSignals<M>,
    dt: Millis,
) -> (u: StateUpdate<P, D, M>)
    ensures
        u.character == (if state.phase_spec(inputs.hold_ability) is Done {
            CharacterState::Wielding
        } else {
            CharacterState::SpawnTotem(state.stepped(inputs.hold_ability, dt))
        }),
        u.events@ == (if state.emits(inputs.hold_ability) {
            seq![spawn_event_spec(snapshot)]
        } else {
            Seq::<SpawnEvent<P, D>>::empty()
        }),
        u.locomotion == locomotion_spec(
            state.phase_spec(inputs.hold_ability),
            inputs.move_dir,
            inputs.jump,
        ),
{
    let phase = state.phase(inputs.hold_ability);
    let locomotion = match phase {
        Phase::Preparing | Phase::Executing => Some(
            Locomotion {
                move_dir: inputs.move_dir,
                speed_permille: ACTION_SPEED_PERMILLE,
                jump: inputs.jump,
            },
        ),
        Phase::Recovering | Phase::Done => None,
    };
    let mut events = EventQueue::<P, D>::new();
    let character = match phase {
        Phase::Preparing => CharacterState::SpawnTotem(
            Data {
                holdable: state.holdable,
                prepare_duration: state.prepare_duration,
                prepare_timer: saturating_add(state.prepare_timer, dt),
                recover_duration: state.recover_duration,
                exhausted: false,
            },
        ),
        Phase::Executing => {
            events.push_front(
                SpawnEvent {
                    pos: snapshot.pos,
                    dir: snapshot.look_dir,
                    owner: snapshot.entity,
                    scale: snapshot.scale,
                    drop_item: None,
                    kind: TotemKind::Generic,
                    alignment: Alignment::Owned(snapshot.uid),
                },
            );
            CharacterState::SpawnTotem(
                Data {
                    holdable: state.holdable,
                    prepare_duration: state.prepare_duration,
                    prepare_timer: state.prepare_timer,
                    recover_duration: state.recover_duration,
                    exhausted: true,
                },
            )
        },
        Phase::Recovering => CharacterState::SpawnTotem(
            Data {
                holdable: state.holdable,
                prepare_duration: state.prepare_duration,
                prepare_timer: state.prepare_timer,
                recover_duration: saturating_sub(state.recover_duration, dt),
                exhausted: true,
            },
        ),
        Phase::Done => CharacterState::Wielding,
    };
    StateUpdate { character, locomotion, events }
}

} // verus!
