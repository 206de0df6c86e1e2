//! World events produced by the state machine, and the ordered queue that
//! carries them to the dispatcher.
//!
//! The machine inserts its events at the *front* of the queue: within one
//! tick, events from this machine take priority over events that were
//! already queued.  [`EventQueue`] states that ordering contract explicitly,
//! so that a caller merging the queues of several entities can preserve it.

use vstd::prelude::*;

verus! {

/// The kind of world object an execution spawns.
#[derive(Clone, Copy, Debug, PartialEq, Eq)]
pub enum TotemKind {
    /// The plain totem body.
    Generic,
}

/// Who a spawned object answers to.
#[derive(Clone, Copy, Debug, PartialEq, Eq)]
pub enum Alignment {
    /// Owned by the entity with the given persistent uid.
    Owned(u64),
}

/// A request to spawn a world object, produced on the tick where the action
/// executes and consumed by the world-event dispatcher.
///
/// `P` is the caller's position type and `D` its direction type; the machine
/// copies them through without reading them.
#[derive(Clone, Copy, Debug, PartialEq, Eq)]
pub struct SpawnEvent<P, D> {
    /// Where the object appears: the owning entity's position on that tick.
    pub pos: P,
    /// Which way it faces: the owning entity's look direction on that tick.
    pub dir: D,
    /// The entity that performed the action.
    pub owner: u64,
    /// Scale of the spawned object, in thousandths (1000 is natural size).
    pub scale: u32,
    /// An item the object holds and drops when destroyed, by item id.
    pub drop_item: Option<u64>,
    /// What kind of object to spawn.
    pub kind: TotemKind,
    /// Ownership tag for the spawned object.
    pub alignment: Alignment,
}

/// An ordered queue of spawn events.  Index 0 is the front of the queue: the
/// dispatcher drains it front first, so earlier entries take priority.
pub struct EventQueue<P, D> {
    items: Vec<SpawnEvent<P, D>>,
}

impl<P, D> View for EventQueue<P, D> {
    type V = Seq<SpawnEvent<P, D>>;

    closed spec fn view(&self) -> Seq<SpawnEvent<P, D>> {
        self.items@
    }
}

impl<P, D> EventQueue<P, D> {
    /// An empty queue.
    pub fn new() -> (q: EventQueue<P, D>)
        ensures
            q@ == Seq::<SpawnEvent<P, D>>::empty(),
    {
        EventQueue { items: Vec::new() }
    }

    /// Inserts an event at the front of the queue, ahead of everything
    /// already queued.
    pub fn push_front(&mut self, e: SpawnEvent<P, D>)
        ensures
            final(self)@ == old(self)@.insert(0, e),
    {
        self.items.insert(0, e);
    }

    /// How many events are queued.
    pub fn len(&self) -> (n: usize)
        ensures
            n == self@.len(),
    {
        self.items.len()
    }

    /// The event at position `i` (0 is the front).
    pub fn get(&self, i: usize) -> (e: &SpawnEvent<P, D>)
        requires
            i < self@.len(),
        ensures
            *e == self@[i as int],
    {
        &self.items[i]
    }

    /// Moves every event of `newer` to the front of this queue, keeping the
    /// order within `newer`: afterwards the queue reads `newer` first, then
    /// what was already there.  This is the per-tick merge a caller performs
    /// when several machines have produced events.
    pub fn merge_front(&mut self, newer: EventQueue<P, D>)
        ensures
            final(self)@ == newer@ + old(self)@,
    {
        let mut source = newer;
        let ghost orig = source.items@;
        proof {
            assert(source.items@ =~= orig.take(source.items@.len() as int));
            assert(self.items@ =~= orig.skip(source.items@.len() as int) + old(self)@);
        }
        while source.items.len() > 0
            invariant
                source.items@.len() <= orig.len(),
                source.items@ == orig.take(source.items@.len() as int),
                self.items@ == orig.skip(source.items@.len() as int) + old(self)@,
            decreases source.items@.len(),
        {
            let ghost k = source.items@.len() as int;
            let e = source.items.pop().unwrap();
            proof {
                assert(e == orig[k - 1]);
                assert(source.items@ =~= orig.take(k - 1));
            }
            self.items.insert(0, e);
            proof {
                assert(self.items@ =~= orig.skip(k - 1) + old(self)@);
            }
        }
        proof {
            assert(self.items@ =~= orig + old(self)@);
        }
    }
}

} // verus!
