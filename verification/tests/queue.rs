use ability_state::event::{Alignment, EventQueue, SpawnEvent, TotemKind};

type Pos = i32;
type Dir = i32;

fn event(owner: u64) -> SpawnEvent<Pos, Dir> {
    SpawnEvent {
        pos: 0,
        dir: 0,
        owner,
        scale: 1000,
        drop_item: None,
        kind: TotemKind::Generic,
        alignment: Alignment::Owned(owner),
    }
}

#[test]
fn push_front_puts_the_newest_event_first() {
    let mut q: EventQueue<Pos, Dir> = EventQueue::new();
    assert_eq!(q.len(), 0);
    q.push_front(event(1));
    q.push_front(event(2));
    q.push_front(event(3));
    assert_eq!(q.len(), 3);
    assert_eq!(q.get(0).owner, 3);
    assert_eq!(q.get(1).owner, 2);
    assert_eq!(q.get(2).owner, 1);
}

#[test]
fn merge_front_keeps_newer_events_ahead_in_order() {
    // The per-tick merge: a machine's events go to the front of the shared
    // queue, ahead of what was already there, keeping their own order.
    let mut shared: EventQueue<Pos, Dir> = EventQueue::new();
    shared.push_front(event(11));
    shared.push_front(event(10));

    let mut mine: EventQueue<Pos, Dir> = EventQueue::new();
    mine.push_front(event(2));
    mine.push_front(event(1));

    shared.merge_front(mine);
    assert_eq!(shared.len(), 4);
    assert_eq!(shared.get(0).owner, 1);
    assert_eq!(shared.get(1).owner, 2);
    assert_eq!(shared.get(2).owner, 10);
    assert_eq!(shared.get(3).owner, 11);
}

#[test]
fn merge_front_with_empty_queues() {
    let mut shared: EventQueue<Pos, Dir> = EventQueue::new();
    shared.merge_front(EventQueue::new());
    assert_eq!(shared.len(), 0);

    shared.push_front(event(5));
    shared.merge_front(EventQueue::new());
    assert_eq!(shared.len(), 1);
    assert_eq!(shared.get(0).owner, 5);

    let mut only_new: EventQueue<Pos, Dir> = EventQueue::new();
    only_new.push_front(event(6));
    let mut empty: EventQueue<Pos, Dir> = EventQueue::new();
    empty.merge_front(only_new);
    assert_eq!(empty.len(), 1);
    assert_eq!(empty.get(0).owner, 6);
}
