//! The connection worker: one client's buffer, identifier and place in the
//! protocol, and the step it takes on each thing that its transport reports.
//!
//! The worker does no input or output. Its owner performs the [`Action`] that
//! a step returns and comes back with the [`Event`] that resulted, holding the
//! room exclusively from the call of [`Client::handle`] until the writes of an
//! [`Action::Deliver`] are done.

use vstd::prelude::*;
use vstd::utf8::valid_utf8;
use crate::errors::{ChatError, ChatErrorKind};
use crate::room::{Fanout, Room, RoomView, NOT_FOUND};
use crate::text::{decode_lossy, greeting, greeting_of, lossy_text};

verus! {

/// The capacity of a worker's read buffer, and so the most that one read
/// brings in.
pub const BUFFER_SIZE: usize = 512;

/// Where a worker stands. While it reads it passes, within one step, through
/// broadcasting what came in or through taking its client off the registry.
#[derive(Clone, Copy, Debug, PartialEq, Eq, Structural)]
pub enum State {
    /// The client has yet to get its greeting.
    Greeting,
    /// The worker waits for the outcome of a read.
    Reading,
    /// The worker is done and has nothing more to do with the room.
    Terminated,
}

/// What the transport reported since the last step.
#[derive(Clone, Copy, Debug, PartialEq, Eq, Structural)]
pub enum Event {
    /// The connection was accepted and the worker started.
    Connected,
    /// The greeting went out.
    GreetingSent,
    /// The greeting could not be sent. This is fatal to the worker, and the
    /// transport's error is its owner's to pass on.
    GreetingFailed,
    /// A read put this many bytes at the start of the buffer. A read of no
    /// bytes is how a transport says that the peer has closed.
    Received(usize),
    /// The peer closed the connection, or the pipe is broken.
    Closed,
    /// The read failed in some other way.
    ReadFailed,
}

impl Event {
    /// Whether this event ends the connection: the peer closed, the read
    /// failed, or the read brought nothing.
    pub open spec fn ends_connection(self) -> bool {
        match self {
            Event::Closed | Event::ReadFailed => true,
            Event::Received(count) => count == 0,
            _ => false,
        }
    }
}

/// What the worker's owner is to do next.
#[derive(Debug)]
pub enum Action {
    /// Send this text to the worker's own client, then report
    /// [`Event::GreetingSent`] or [`Event::GreetingFailed`].
    Greet(String),
    /// Read into the buffer and report the outcome.
    Read,
    /// Write the bytes to each recipient's handle, skipping those whose write
    /// fails, then read.
    Deliver(Fanout),
    /// Stop: the worker has terminated.
    Stop,
}

/// A buffer with nothing in it: all zeros.
pub open spec fn blank() -> Seq<u8> {
    Seq::new(BUFFER_SIZE as nat, |i: int| 0u8)
}

/// The bytes that a read of `count` bytes left at the start of `buf`. No read
/// brings more than the buffer holds.
pub open spec fn received(buf: Seq<u8>, count: usize) -> Seq<u8> {
    buf.take(if count < BUFFER_SIZE { count as int } else { BUFFER_SIZE as int })
}

/// The state in which `event` leaves a worker that was in `state`. An event
/// that the state does not wait for changes nothing.
pub open spec fn next_state(state: State, event: Event) -> State {
    match state {
        State::Greeting => match event {
            Event::GreetingSent => State::Reading,
            Event::GreetingFailed => State::Terminated,
            _ => State::Greeting,
        },
        State::Reading => if event.ends_connection() {
            State::Terminated
        } else {
            State::Reading
        },
        State::Terminated => State::Terminated,
    }
}

/// What a worker is to its callers.
pub struct ClientView<R> {
    pub id: usize,
    pub state: State,
    pub buf: Seq<u8>,
    pub sock: R,
}

/// Whether `action` is the right answer of the worker `before` to `event`, in
/// a room that looks like `room`.
///
/// - A worker that has yet to greet asks for the greeting to be sent until it
///   hears what became of it; then it reads, or stops if sending failed.
/// - A worker that reads answers bytes with their broadcast: the bytes read,
///   decoded lossily, for everyone but its own client. Bytes that are valid
///   UTF-8 go out unchanged. It stops when the connection ends, and goes on
///   reading on any other event.
/// - A worker that has terminated stops.
pub open spec fn answers<R, S>(
    action: Action,
    before: ClientView<R>,
    room: RoomView<S>,
    event: Event,
) -> bool {
    match before.state {
        State::Greeting => match event {
            Event::GreetingSent => action is Read,
            Event::GreetingFailed => action is Stop,
            _ => action matches Action::Greet(text) && text@ == greeting_of(room.name),
        },
        State::Reading => match event {
            Event::Received(count) => if count > 0 {
                let bytes = received(before.buf, count);
                &&& action matches Action::Deliver(out)
                &&& out.is_broadcast(room.clients, before.id, lossy_text(bytes))
                &&& valid_utf8(bytes) ==> out.bytes@ == bytes
            } else {
                action is Stop
            },
            Event::Closed | Event::ReadFailed => action is Stop,
            _ => action is Read,
        },
        State::Terminated => action is Stop,
    }
}

/// The whole of one step: how the worker and the room stand after `event`,
/// and what the step returned.
///
/// - The state moves as [`next_state`] says.
/// - The buffer is blank again after every read that was broadcast.
/// - The registry changes only when the connection of a reading worker ends:
///   then the worker's own client is off it, whatever the read reported.
/// - The step fails exactly when that client was not on the registry.
pub open spec fn stepped<R, S>(
    before: ClientView<R>,
    room: RoomView<S>,
    event: Event,
    after: ClientView<R>,
    room_after: RoomView<S>,
    res: Result<Action, ChatError>,
) -> bool {
    let broadcasts = before.state == State::Reading && !event.ends_connection()
        && event is Received;
    let leaves = before.state == State::Reading && event.ends_connection();
    &&& after.id == before.id
    &&& after.sock == before.sock
    &&& after.state == next_state(before.state, event)
    &&& after.buf == if broadcasts {
        blank()
    } else {
        before.buf
    }
    &&& room_after.name == room.name
    &&& room_after.clients == if leaves {
        room.clients.remove(before.id)
    } else {
        room.clients
    }
    &&& if leaves && !room.clients.contains_key(before.id) {
        res matches Err(err) && err.kind() == ChatErrorKind::RemoveClientError(NOT_FOUND)
    } else {
        res matches Ok(action) && answers(action, before, room, event)
    }
}

/// One client's connection as its worker holds it: the read half, the read
/// buffer, the identifier, and where the worker stands.
pub struct Client<R> {
    /// The read buffer. Reads go to its start.
    pub buf: [u8; BUFFER_SIZE],
    /// The half of the connection that the worker reads from.
    pub sock: R,
    id: usize,
    state: State,
}

impl<R> View for Client<R> {
    type V = ClientView<R>;

    closed spec fn view(&self) -> ClientView<R> {
        ClientView { id: self.id, state: self.state, buf: self.buf@, sock: self.sock }
    }
}

impl<R> Client<R> {
    /// The worker for the client `id`, which reads from `sock`. It starts
    /// with a blank buffer and has yet to greet.
    pub fn new(id: usize, sock: R) -> (client: Self)
        ensures
            client@ == (ClientView { id, state: State::Greeting, buf: blank(), sock }),
    {
        let client = Client { buf: [0u8; BUFFER_SIZE], sock, id, state: State::Greeting };
        assert(client.buf@ =~= blank());
        client
    }

    /// The client's identifier.
    pub fn id(&self) -> (id: usize)
        ensures
            id == self@.id,
    {
        self.id
    }

    /// Where the worker stands.
    pub fn state(&self) -> (state: State)
        ensures
            state == self@.state,
    {
        self.state
    }

    /// Takes one step: the worker's answer to `event`, as [`stepped`] defines
    /// it. The step fails only if the client was to leave the registry and
    /// was not on it; the worker has terminated then all the same.
    pub fn handle<S>(&mut self, room: &mut Room<S>, event: Event) -> (res: Result<
        Action,
        ChatError,
    >)
        ensures
            stepped(old(self)@, old(room)@, event, final(self)@, final(room)@, res),
    {
        match self.state {
            State::Greeting => match event {
                Event::GreetingSent => {
                    self.state = State::Reading;
                    Ok(Action::Read)
                },
                Event::GreetingFailed => {
                    self.state = State::Terminated;
                    Ok(Action::Stop)
                },
                _ => Ok(Action::Greet(greeting(room.name()))),
            },
            State::Reading => match event {
                Event::Received(count) => {
                    if count > 0 {
                        Ok(Action::Deliver(self.relay(room, count)))
                    } else {
                        self.leave(room)
                    }
                },
                Event::Closed | Event::ReadFailed => self.leave(room),
                _ => Ok(Action::Read),
            },
            State::Terminated => Ok(Action::Stop),
        }
    }

    /// Broadcasts the first `count` bytes of the buffer as text and blanks
    /// the buffer.
    fn relay<S>(&mut self, room: &mut Room<S>, count: usize) -> (out: Fanout)
        ensures
            final(self)@ == (ClientView { buf: blank(), ..old(self)@ }),
            final(room)@ == old(room)@,
            out.is_broadcast(
                old(room)@.clients,
                old(self)@.id,
                lossy_text(received(old(self)@.buf, count)),
            ),
            valid_utf8(received(old(self)@.buf, count)) ==> out.bytes@ == received(
                old(self)@.buf,
                count,
            ),
    {
        let len = if count < BUFFER_SIZE {
            count
        } else {
            BUFFER_SIZE
        };
        let text = decode_lossy(&self.buf[0..len]);
        proof {
            if valid_utf8(received(self.buf@, count)) {
                vstd::utf8::decode_utf8_encode_utf8(received(self.buf@, count));
            }
        }
        let out = room.broadcast(&self.id, text);
        self.buf = [0u8; BUFFER_SIZE];
        assert(self.buf@ =~= blank());
        out
    }

    /// Takes the client off the registry and terminates.
    fn leave<S>(&mut self, room: &mut Room<S>) -> (res: Result<Action, ChatError>)
        ensures
            final(self)@ == (ClientView { state: State::Terminated, ..old(self)@ }),
            final(room)@.name == old(room)@.name,
            final(room)@.clients == old(room)@.clients.remove(old(self)@.id),
            old(room)@.clients.contains_key(old(self)@.id) ==> res matches Ok(Action::Stop),
            !old(room)@.clients.contains_key(old(self)@.id) ==> (res matches Err(err) && err.kind()
                == ChatErrorKind::RemoveClientError(NOT_FOUND)),
    {
        self.state = State::Terminated;
        match room.cleanup_client(self.id) {
            Ok(()) => Ok(Action::Stop),
            Err(err) => Err(err),
        }
    }
}

} // verus!
