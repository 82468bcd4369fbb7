use chat_room::client::{Action, Event, State};
use chat_room::server::Server;

#[test]
fn new_server_has_an_empty_room() {
    let server: Server<&str> = Server::new("Cool Chat Room");
    assert_eq!(server.room().name(), "Cool Chat Room");
    assert_eq!(server.room().client_count(), 0);
    assert_eq!(server.next_id(), 0);
}

#[test]
fn clients_are_numbered_from_zero_in_order() {
    let mut server: Server<&str> = Server::new("Test");
    for expected in 0..5 {
        let client = server.accept((), "writer").unwrap();
        assert_eq!(client.id(), expected);
        assert_eq!(client.state(), State::Greeting);
        assert!(client.buf.iter().all(|b| *b == 0));
        assert!(server.room().contains(expected));
        assert_eq!(server.room().client_count(), expected + 1);
        assert_eq!(server.next_id(), expected + 1);
    }
}

#[test]
fn accept_files_the_writer_and_hands_the_reader_on() {
    let mut server: Server<&str> = Server::new("Test");
    let client = server.accept("read half", "write half").unwrap();
    assert_eq!(client.sock, "read half");
    assert_eq!(server.room().stream(client.id()), Some(&"write half"));
}

#[test]
fn identifier_of_a_client_that_left_is_not_used_again() {
    let mut server: Server<&str> = Server::new("Test");
    let mut first = server.accept((), "a").unwrap();
    assert!(matches!(server.handle(&mut first, Event::GreetingSent), Ok(Action::Read)));
    assert!(matches!(server.handle(&mut first, Event::Closed), Ok(Action::Stop)));
    assert!(!server.room().contains(0));

    assert_eq!(server.next_id(), 1);
    let second = server.accept((), "b").unwrap();
    assert_eq!(second.id(), 1);
    assert!(!server.room().contains(0));
    assert_eq!(server.room().client_count(), 1);
}

#[test]
fn count_is_accepted_less_departed() {
    let mut server: Server<&str> = Server::new("Test");
    let mut workers = Vec::new();
    for _ in 0..6 {
        let mut worker = server.accept((), "w").unwrap();
        assert!(matches!(server.handle(&mut worker, Event::GreetingSent), Ok(Action::Read)));
        workers.push(worker);
    }
    let mut departed = 0;
    for worker in workers.iter_mut().step_by(2) {
        assert!(matches!(server.handle(worker, Event::Closed), Ok(Action::Stop)));
        departed += 1;
        assert_eq!(server.room().client_count(), 6 - departed);
    }
    assert_eq!(server.room().client_count(), 3);
}

#[test]
fn server_steps_a_worker_through_its_room() {
    let mut server: Server<&str> = Server::new("Test");
    let mut alice = server.accept((), "a").unwrap();
    let _bob = server.accept((), "b").unwrap();

    match server.handle(&mut alice, Event::Connected) {
        Ok(Action::Greet(text)) => assert_eq!(text, "Hello welcome to the Room: Test"),
        other => panic!("expected the greeting, got {:?}", other),
    }
    assert!(matches!(server.handle(&mut alice, Event::GreetingSent), Ok(Action::Read)));

    alice.buf[..2].copy_from_slice(b"hi");
    match server.handle(&mut alice, Event::Received(2)) {
        Ok(Action::Deliver(out)) => {
            assert_eq!(out.bytes, b"hi".to_vec());
            assert_eq!(out.recipients, vec![1]);
        }
        other => panic!("expected a delivery, got {:?}", other),
    }
    assert_eq!(server.room().name(), "Test");
    assert_eq!(server.room().client_count(), 2);
}

#[test]
fn failed_greeting_leaves_the_registry_as_it_is() {
    let mut server: Server<&str> = Server::new("Test");
    let mut client = server.accept((), "w").unwrap();
    assert!(matches!(server.handle(&mut client, Event::GreetingFailed), Ok(Action::Stop)));
    assert_eq!(client.state(), State::Terminated);
    assert!(server.room().contains(0));
}
