use std::cell::RefCell;
use std::rc::Rc;

use chat_room::room::{Fanout, Room, NOT_FOUND};

type Sink = Rc<RefCell<Vec<u8>>>;

fn sink() -> Sink {
    Rc::new(RefCell::new(Vec::new()))
}

/// Performs the writes of a fan-out on the handles that the room holds.
fn deliver(room: &Room<Sink>, out: &Fanout) {
    for id in &out.recipients {
        if let Some(sock) = room.stream(*id) {
            sock.borrow_mut().extend_from_slice(&out.bytes);
        }
    }
}

fn sorted(mut ids: Vec<usize>) -> Vec<usize> {
    ids.sort();
    ids
}

#[test]
fn new_room_is_empty_and_named() {
    let room: Room<Sink> = Room::new("Test");
    assert_eq!(room.name(), "Test");
    assert_eq!(room.client_count(), 0);
    assert!(!room.contains(0));
    assert!(room.stream(0).is_none());
}

#[test]
fn broadcast_reaches_the_other_client_only() {
    let mut room: Room<Sink> = Room::new("Test");
    let (zero, one) = (sink(), sink());
    room.add_client(0, zero.clone());
    room.add_client(1, one.clone());

    let out = room.broadcast(&0, String::from("hi"));
    assert_eq!(out.bytes, b"hi".to_vec());
    assert_eq!(out.recipients, vec![1]);
    deliver(&room, &out);

    assert_eq!(*one.borrow(), b"hi".to_vec());
    assert!(zero.borrow().is_empty());
}

#[test]
fn broadcast_skips_a_removed_client() {
    let mut room: Room<Sink> = Room::new("Test");
    let (zero, one, two) = (sink(), sink(), sink());
    room.add_client(0, zero.clone());
    room.add_client(1, one.clone());
    room.add_client(2, two.clone());
    assert!(room.cleanup_client(1).is_ok());

    let out = room.broadcast(&0, String::from("x"));
    assert_eq!(out.recipients, vec![2]);
    deliver(&room, &out);

    assert_eq!(*two.borrow(), b"x".to_vec());
    assert!(one.borrow().is_empty());
    assert!(zero.borrow().is_empty());
}

#[test]
fn broadcast_names_every_other_client_once() {
    let mut room: Room<Sink> = Room::new("Test");
    for id in 0..20 {
        room.add_client(id, sink());
    }
    let out = room.broadcast(&7, String::from("all"));
    let mut expected: Vec<usize> = (0..20).collect();
    expected.retain(|id| *id != 7);
    assert_eq!(sorted(out.recipients), expected);
    assert_eq!(room.client_count(), 20);
}

#[test]
fn broadcast_from_a_stranger_reaches_everyone() {
    let mut room: Room<Sink> = Room::new("Test");
    room.add_client(3, sink());
    room.add_client(4, sink());
    let out = room.broadcast(&9, String::from("psst"));
    assert_eq!(sorted(out.recipients), vec![3, 4]);
}

#[test]
fn broadcast_in_an_empty_room_reaches_nobody() {
    let mut room: Room<Sink> = Room::new("Test");
    let out = room.broadcast(&0, String::from("anyone?"));
    assert!(out.recipients.is_empty());
    assert_eq!(out.bytes, b"anyone?".to_vec());
}

#[test]
fn broadcast_to_oneself_alone_reaches_nobody() {
    let mut room: Room<Sink> = Room::new("Test");
    let zero = sink();
    room.add_client(0, zero.clone());
    let out = room.broadcast(&0, String::from("echo"));
    assert!(out.recipients.is_empty());
    deliver(&room, &out);
    assert!(zero.borrow().is_empty());
}

#[test]
fn broadcast_sends_text_as_utf8() {
    let mut room: Room<Sink> = Room::new("Test");
    room.add_client(0, sink());
    let out = room.broadcast(&1, String::from("h\u{e9}\u{20ac}"));
    assert_eq!(out.bytes, vec![0x68, 0xc3, 0xa9, 0xe2, 0x82, 0xac]);
}

#[test]
fn consecutive_broadcasts_arrive_in_order() {
    let mut room: Room<Sink> = Room::new("Test");
    let (zero, one) = (sink(), sink());
    room.add_client(0, zero.clone());
    room.add_client(1, one.clone());
    let first = room.broadcast(&0, String::from("a"));
    deliver(&room, &first);
    let second = room.broadcast(&0, String::from("b"));
    deliver(&room, &second);
    let reply = room.broadcast(&1, String::from("c"));
    deliver(&room, &reply);
    assert_eq!(*one.borrow(), b"ab".to_vec());
    assert_eq!(*zero.borrow(), b"c".to_vec());
}

#[test]
fn removing_a_stranger_fails_and_changes_nothing() {
    let mut room: Room<Sink> = Room::new("Test");
    room.add_client(0, sink());
    room.add_client(1, sink());

    let err = room.cleanup_client(5).unwrap_err();
    assert_eq!(err.description(), NOT_FOUND);
    assert_eq!(err.description(), "client {} was not found and could not be removed)");

    assert_eq!(room.client_count(), 2);
    assert!(room.contains(0));
    assert!(room.contains(1));
    assert!(!room.contains(5));
}

#[test]
fn removing_twice_fails_the_second_time() {
    let mut room: Room<Sink> = Room::new("Test");
    room.add_client(0, sink());
    assert!(room.cleanup_client(0).is_ok());
    assert!(!room.contains(0));
    assert!(room.cleanup_client(0).is_err());
    assert_eq!(room.client_count(), 0);
}

#[test]
fn removing_from_an_empty_room_fails() {
    let mut room: Room<Sink> = Room::new("Test");
    assert!(room.cleanup_client(0).is_err());
    assert_eq!(room.client_count(), 0);
}

#[test]
fn count_is_additions_less_successful_removals() {
    let mut room: Room<Sink> = Room::new("Test");
    let mut added = 0;
    let mut removed = 0;
    for id in 0..10 {
        room.add_client(id, sink());
        added += 1;
        assert_eq!(room.client_count(), added - removed);
    }
    for id in [3, 3, 11, 0, 9, 9] {
        if room.cleanup_client(id).is_ok() {
            removed += 1;
        }
        assert_eq!(room.client_count(), added - removed);
    }
    assert_eq!(removed, 3);
    assert_eq!(room.client_count(), 7);
}

#[test]
fn adding_under_a_taken_identifier_replaces_the_handle() {
    let mut room: Room<Sink> = Room::new("Test");
    let (old, new) = (sink(), sink());
    room.add_client(0, old.clone());
    room.add_client(0, new.clone());
    assert_eq!(room.client_count(), 1);
    assert!(Rc::ptr_eq(room.stream(0).unwrap(), &new));
    assert_eq!(Rc::strong_count(&old), 1);
}

#[test]
fn stream_gives_the_registered_handle() {
    let mut room: Room<Sink> = Room::new("Test");
    let one = sink();
    room.add_client(1, one.clone());
    assert!(Rc::ptr_eq(room.stream(1).unwrap(), &one));
    assert!(room.stream(2).is_none());
}

#[test]
fn removal_drops_the_handle() {
    let mut room: Room<Sink> = Room::new("Test");
    let one = sink();
    room.add_client(1, one.clone());
    assert_eq!(Rc::strong_count(&one), 2);
    assert!(room.cleanup_client(1).is_ok());
    assert_eq!(Rc::strong_count(&one), 1);
}

#[test]
fn largest_identifier_is_an_identifier_like_any_other() {
    let mut room: Room<Sink> = Room::new("Test");
    room.add_client(usize::MAX, sink());
    room.add_client(0, sink());
    let out = room.broadcast(&0, String::from("far"));
    assert_eq!(out.recipients, vec![usize::MAX]);
    assert!(room.cleanup_client(usize::MAX).is_ok());
    assert_eq!(room.client_count(), 1);
}
