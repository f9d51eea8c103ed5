use chipmunk::{AccessError, Arena, Handle};
use std::cell::Cell;
use std::rc::Rc;

/// A payload that counts how often it is destroyed.
#[derive(Debug)]
struct Probe {
    drops: Rc<Cell<u32>>,
}

impl Drop for Probe {
    fn drop(&mut self) {
        self.drops.set(self.drops.get() + 1);
    }
}

fn probe() -> (Probe, Rc<Cell<u32>>) {
    let drops = Rc::new(Cell::new(0));
    (Probe { drops: drops.clone() }, drops)
}

#[test]
fn wrap_then_release_destroys_the_payload_once() {
    let mut arena: Arena<Probe> = Arena::new();
    let (payload, drops) = probe();
    let handle = Handle::wrap(&mut arena, payload);
    assert_eq!(arena.len(), 1);
    assert_eq!(handle.strong_count(&arena), 1);
    assert_eq!(drops.get(), 0);
    let gone = handle.release(&mut arena);
    assert!(gone.is_some());
    assert_eq!(drops.get(), 0);
    drop(gone);
    assert_eq!(drops.get(), 1);
}

#[test]
fn wrap_then_release_returns_the_payload() {
    let mut arena: Arena<String> = Arena::new();
    let handle = Handle::wrap(&mut arena, String::from("ball"));
    assert_eq!(handle.release(&mut arena), Some(String::from("ball")));
}

#[test]
fn payload_leaves_with_the_last_of_four_handles() {
    let mut arena: Arena<Probe> = Arena::new();
    let (payload, drops) = probe();
    let first = Handle::wrap(&mut arena, payload);
    let second = first.clone(&mut arena).unwrap();
    let third = second.clone(&mut arena).unwrap();
    let fourth = first.clone(&mut arena).unwrap();
    assert_eq!(first.strong_count(&arena), 4);
    assert!(second.release(&mut arena).is_none());
    assert_eq!(first.strong_count(&arena), 3);
    assert!(first.release(&mut arena).is_none());
    assert!(fourth.release(&mut arena).is_none());
    assert_eq!(third.strong_count(&arena), 1);
    assert_eq!(drops.get(), 0);
    let gone = third.release(&mut arena);
    assert!(gone.is_some());
    drop(gone);
    assert_eq!(drops.get(), 1);
    drop(arena);
    assert_eq!(drops.get(), 1);
}

#[test]
fn payload_leaves_with_the_last_of_two_handles() {
    let mut arena: Arena<u32> = Arena::new();
    let first = Handle::wrap(&mut arena, 5);
    let second = first.clone(&mut arena).unwrap();
    assert_eq!(first.release(&mut arena), None);
    assert_eq!(second.release(&mut arena), Some(5));
}

#[test]
fn clone_refers_to_the_same_payload() {
    let mut arena: Arena<(i32, i32, i32)> = Arena::new();
    let handle1 = Handle::wrap(&mut arena, (2, 3, 4));
    let mut handle2 = handle1.clone(&mut arena).unwrap();
    let mut view = handle2.borrow_mut(&mut arena).unwrap();
    {
        let contents = view.get_mut(&mut arena).unwrap();
        contents.0 *= contents.0;
        contents.1 *= contents.1;
        contents.2 *= contents.2;
    }
    view.end(&mut arena);
    let reader = handle1.borrow(&mut arena).unwrap();
    assert_eq!(reader.get(&arena), Some(&(4, 9, 16)));
    reader.end(&mut arena);
}

#[test]
fn upgrade_refers_to_the_same_payload() {
    let mut arena: Arena<(i32, i32, i32)> = Arena::new();
    let handle1 = Handle::wrap(&mut arena, (2, 3, 4));
    let weak = handle1.downgrade();
    assert_eq!(handle1.strong_count(&arena), 1);
    let mut handle2 = weak.upgrade(&mut arena).unwrap();
    assert_eq!(handle1.strong_count(&arena), 2);
    let mut view = handle2.borrow_mut(&mut arena).unwrap();
    *view.get_mut(&mut arena).unwrap() = (4, 9, 16);
    view.end(&mut arena);
    let reader = handle1.borrow(&mut arena).unwrap();
    assert_eq!(reader.get(&arena), Some(&(4, 9, 16)));
}

#[test]
fn downgrade_does_not_count() {
    let mut arena: Arena<u32> = Arena::new();
    let handle = Handle::wrap(&mut arena, 1);
    let weak = handle.downgrade();
    let copy = weak;
    let another = weak.clone();
    assert_eq!(handle.strong_count(&arena), 1);
    assert!(copy.is_alive(&arena));
    assert!(another.is_alive(&arena));
    assert_eq!(handle.release(&mut arena), Some(1));
}

#[test]
fn weak_is_absent_after_the_last_release() {
    let mut arena: Arena<u32> = Arena::new();
    let first = Handle::wrap(&mut arena, 9);
    let second = first.clone(&mut arena).unwrap();
    let weak = first.downgrade();
    assert_eq!(first.release(&mut arena), None);
    let third = weak.upgrade(&mut arena);
    assert!(third.is_some());
    assert_eq!(third.unwrap().release(&mut arena), None);
    assert_eq!(second.release(&mut arena), Some(9));
    assert!(!weak.is_alive(&arena));
    assert!(weak.upgrade(&mut arena).is_none());
    assert!(weak.upgrade(&mut arena).is_none());
}

#[test]
fn a_dead_cell_is_not_used_again() {
    let mut arena: Arena<u32> = Arena::new();
    let old = Handle::wrap(&mut arena, 1);
    let weak = old.downgrade();
    assert_eq!(old.release(&mut arena), Some(1));
    let new = Handle::wrap(&mut arena, 2);
    assert_eq!(arena.len(), 2);
    assert!(weak.upgrade(&mut arena).is_none());
    assert_eq!(new.strong_count(&arena), 1);
}

#[test]
fn reader_waits_for_the_writer() {
    let mut arena: Arena<(u32, u32)> = Arena::new();
    let mut writer = Handle::wrap(&mut arena, (1, 1));
    let reader = writer.clone(&mut arena).unwrap();
    let mut view = writer.borrow_mut(&mut arena).unwrap();
    assert_eq!(reader.borrow(&mut arena).unwrap_err(), AccessError::Busy);
    view.get_mut(&mut arena).unwrap().0 = 2;
    assert_eq!(reader.borrow(&mut arena).unwrap_err(), AccessError::Busy);
    view.get_mut(&mut arena).unwrap().1 = 2;
    assert_eq!(view.get(&arena), Some(&(2, 2)));
    view.end(&mut arena);
    let seen = reader.borrow(&mut arena).unwrap();
    assert_eq!(seen.get(&arena), Some(&(2, 2)));
}

#[test]
fn second_writer_waits_for_the_first() {
    let mut arena: Arena<u32> = Arena::new();
    let mut first = Handle::wrap(&mut arena, 0);
    let mut second = first.clone(&mut arena).unwrap();
    let view = first.borrow_mut(&mut arena).unwrap();
    assert_eq!(second.borrow_mut(&mut arena).unwrap_err(), AccessError::Busy);
    view.end(&mut arena);
    assert!(second.borrow_mut(&mut arena).is_ok());
}

#[test]
fn writer_waits_for_all_readers() {
    let mut arena: Arena<u32> = Arena::new();
    let mut handle = Handle::wrap(&mut arena, 3);
    let one = handle.borrow(&mut arena).unwrap();
    let two = handle.borrow(&mut arena).unwrap();
    let three = handle.borrow(&mut arena).unwrap();
    assert_eq!(one.get(&arena), Some(&3));
    assert_eq!(two.get(&arena), Some(&3));
    assert_eq!(three.get(&arena), Some(&3));
    assert_eq!(handle.borrow_mut(&mut arena).unwrap_err(), AccessError::Busy);
    two.end(&mut arena);
    assert_eq!(handle.borrow_mut(&mut arena).unwrap_err(), AccessError::Busy);
    one.end(&mut arena);
    assert_eq!(handle.borrow_mut(&mut arena).unwrap_err(), AccessError::Busy);
    three.end(&mut arena);
    let view = handle.borrow_mut(&mut arena).unwrap();
    assert_eq!(view.get(&arena), Some(&3));
}

#[test]
fn abandoned_write_poisons_the_cell() {
    let mut arena: Arena<u32> = Arena::new();
    let mut handle = Handle::wrap(&mut arena, 3);
    let mut view = handle.borrow_mut(&mut arena).unwrap();
    *view.get_mut(&mut arena).unwrap() = 4;
    view.abandon(&mut arena);
    assert_eq!(handle.borrow(&mut arena).unwrap_err(), AccessError::Poisoned);
    assert_eq!(handle.borrow_mut(&mut arena).unwrap_err(), AccessError::Poisoned);
    let twin = handle.clone(&mut arena).unwrap();
    assert_eq!(twin.release(&mut arena), None);
    assert_eq!(handle.release(&mut arena), Some(4));
}

#[test]
fn released_handle_leaves_nothing_to_borrow() {
    let mut arena: Arena<u32> = Arena::new();
    let handle = Handle::wrap(&mut arena, 3);
    let mut twin = handle.clone(&mut arena).unwrap();
    let weak = handle.downgrade();
    assert_eq!(handle.release(&mut arena), None);
    let reader = twin.borrow(&mut arena).unwrap();
    reader.end(&mut arena);
    let writer = twin.borrow_mut(&mut arena).unwrap();
    writer.end(&mut arena);
    assert_eq!(twin.release(&mut arena), Some(3));
    assert!(!weak.is_alive(&arena));
}

#[test]
fn handle_of_another_arena_finds_nothing() {
    let mut small: Arena<u32> = Arena::new();
    let mut large: Arena<u32> = Arena::new();
    let _zero = Handle::wrap(&mut large, 0);
    let mut one = Handle::wrap(&mut large, 1);
    assert_eq!(one.borrow(&mut small).unwrap_err(), AccessError::Gone);
    assert_eq!(one.borrow_mut(&mut small).unwrap_err(), AccessError::Gone);
    assert!(one.clone(&mut small).is_none());
    assert_eq!(one.strong_count(&small), 0);
    assert!(one.downgrade().upgrade(&mut small).is_none());
    assert_eq!(small.len(), 0);
    assert_eq!(one.release(&mut small), None);
}

#[test]
fn the_last_handle_takes_the_payload_from_under_a_reader() {
    let mut arena: Arena<Probe> = Arena::new();
    let (payload, drops) = probe();
    let handle = Handle::wrap(&mut arena, payload);
    let weak = handle.downgrade();
    let view = handle.borrow(&mut arena).unwrap();
    assert!(view.get(&arena).is_some());
    assert_eq!(drops.get(), 0);
    let gone = handle.release(&mut arena);
    assert!(gone.is_some());
    drop(gone);
    assert_eq!(drops.get(), 1);
    assert!(view.get(&arena).is_none());
    assert!(!weak.is_alive(&arena));
    assert!(weak.upgrade(&mut arena).is_none());
    view.end(&mut arena);
    assert!(weak.upgrade(&mut arena).is_none());
    assert_eq!(drops.get(), 1);
}

#[test]
fn the_last_handle_takes_the_payload_from_under_a_writer() {
    let mut arena: Arena<u32> = Arena::new();
    let mut handle = Handle::wrap(&mut arena, 8);
    let weak = handle.downgrade();
    let mut view = handle.borrow_mut(&mut arena).unwrap();
    *view.get_mut(&mut arena).unwrap() = 9;
    assert_eq!(handle.release(&mut arena), Some(9));
    assert_eq!(view.get(&arena), None);
    assert!(view.get_mut(&mut arena).is_none());
    assert!(weak.upgrade(&mut arena).is_none());
    view.end(&mut arena);
    assert!(!weak.is_alive(&arena));
}

#[test]
fn upgrade_follows_the_strong_count() {
    let mut arena: Arena<u32> = Arena::new();
    let first = Handle::wrap(&mut arena, 1);
    let weak = first.downgrade();
    let view = first.borrow(&mut arena).unwrap();
    assert_eq!(first.strong_count(&arena), 1);
    let second = weak.upgrade(&mut arena).unwrap();
    assert_eq!(second.strong_count(&arena), 2);
    assert_eq!(first.release(&mut arena), None);
    assert_eq!(second.strong_count(&arena), 1);
    assert_eq!(view.get(&arena), Some(&1));
    let third = weak.upgrade(&mut arena).unwrap();
    assert_eq!(second.release(&mut arena), None);
    let probe = third.downgrade();
    assert_eq!(third.release(&mut arena), Some(1));
    assert!(probe.upgrade(&mut arena).is_none());
    assert!(weak.upgrade(&mut arena).is_none());
    view.end(&mut arena);
    assert!(weak.upgrade(&mut arena).is_none());
}

#[test]
fn cells_do_not_disturb_each_other() {
    let mut arena: Arena<u32> = Arena::new();
    let mut a = Handle::wrap(&mut arena, 1);
    let mut b = Handle::wrap(&mut arena, 2);
    let wa = a.borrow_mut(&mut arena).unwrap();
    let mut wb = b.borrow_mut(&mut arena).unwrap();
    *wb.get_mut(&mut arena).unwrap() = 20;
    assert_eq!(wa.get(&arena), Some(&1));
    wb.end(&mut arena);
    wa.end(&mut arena);
    assert_eq!(a.release(&mut arena), Some(1));
    assert_eq!(b.release(&mut arena), Some(20));
}
