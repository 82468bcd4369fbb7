//! The server: the room together with the counter that names its clients.
//!
//! Identifiers are handed out in order, from zero, each once. Every client
//! enters the room through [`Server::accept`], so an identifier on the
//! registry was always fresh when it went on, and one that has left never
//! comes back.

use vstd::prelude::*;
use crate::client::{stepped, blank, Action, Client, ClientView, Event, State};
use crate::errors::ChatError;
use crate::room::{Room, RoomView};

verus! {

/// What a server is to its callers: its room and the next identifier.
pub struct ServerView<S> {
    pub room: RoomView<S>,
    pub next_id: usize,
}

/// A room and the source of its clients' identifiers.
pub struct Server<S> {
    room: Room<S>,
    next_id: usize,
}

impl<S> ServerView<S> {
    /// Whether every identifier on the registry has been handed out already.
    /// This holds of every server at all times, so a new client's identifier
    /// is never one that is, or was, on the registry.
    pub open spec fn ids_are_spent(self) -> bool {
        forall|id: usize| self.room.clients.contains_key(id) ==> id < self.next_id
    }
}

impl<S> View for Server<S> {
    type V = ServerView<S>;

    closed spec fn view(&self) -> ServerView<S> {
        ServerView { room: self.room@, next_id: self.next_id }
    }
}

impl<S> Server<S> {
    /// Every identifier on the registry has been handed out.
    #[verifier::type_invariant]
    spec fn sound(self) -> bool {
        forall|id: usize| self.room@.clients.contains_key(id) ==> id < self.next_id
    }

    /// A server with an empty room called `name`. Its first client will be 0.
    pub fn new(name: &str) -> (server: Self)
        ensures
            server@.next_id == 0,
            server@.room.name == name@,
            server@.room.clients == Map::<usize, S>::empty(),
            server@.ids_are_spent(),
    {
        Server { room: Room::new(name), next_id: 0 }
    }

    /// The room.
    pub fn room(&self) -> (room: &Room<S>)
        ensures
            room@ == self@.room,
            self@.ids_are_spent(),
    {
        proof {
            use_type_invariant(self);
        }
        &self.room
    }

    /// The identifier that the next client will get.
    pub fn next_id(&self) -> (id: usize)
        ensures
            id == self@.next_id,
            self@.ids_are_spent(),
    {
        proof {
            use_type_invariant(self);
        }
        self.next_id
    }

    /// Takes a new connection in: names it, files `writer` on the registry
    /// under that name, and returns the worker that reads from `reader`.
    /// Returns `None`, and drops both halves, when the identifiers have run
    /// out.
    pub fn accept<R>(&mut self, reader: R, writer: S) -> (client: Option<Client<R>>)
        ensures
            final(self)@.room.name == old(self)@.room.name,
            final(self)@.ids_are_spent(),
            match client {
                Some(worker) => {
                    let id = old(self)@.next_id;
                    &&& id < usize::MAX
                    &&& worker@ == (ClientView {
                        id,
                        state: State::Greeting,
                        buf: blank(),
                        sock: reader,
                    })
                    &&& final(self)@.next_id == id + 1
                    &&& !old(self)@.room.clients.contains_key(id)
                    &&& final(self)@.room.clients == old(self)@.room.clients.insert(id, writer)
                },
                None => old(self)@.next_id == usize::MAX && final(self)@ == old(self)@,
            },
    {
        proof {
            use_type_invariant(&*self);
        }
        if self.next_id == usize::MAX {
            return None;
        }
        let id = self.next_id;
        self.next_id = id + 1;
        // The room is worked on outside the server, so that the server is
        // sound at every point where the work could be cut short.
        let mut room = Room::new("");
        std::mem::swap(&mut room, &mut self.room);
        room.add_client(id, writer);
        self.room = room;
        Some(Client::new(id, reader))
    }

    /// Lets `client` take one step in this server's room.
    pub fn handle<R>(&mut self, client: &mut Client<R>, event: Event) -> (res: Result<
        Action,
        ChatError,
    >)
        ensures
            final(self)@.next_id == old(self)@.next_id,
            final(self)@.ids_are_spent(),
            stepped(old(client)@, old(self)@.room, event, final(client)@, final(self)@.room, res),
    {
        proof {
            use_type_invariant(&*self);
        }
        let mut room = Room::new("");
        std::mem::swap(&mut room, &mut self.room);
        let res = client.handle(&mut room, event);
        self.room = room;
        res
    }
}

} // verus!
