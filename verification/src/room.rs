//! The room: the registry of connected clients and the fan-out of messages.
//!
//! A room owns one writable handle per connected client, filed under the
//! client's identifier. It never touches a handle itself: a broadcast names
//! the clients to write to and the bytes to write, and whoever holds the room
//! performs the writes through [`Room::stream`].

use std::collections::HashMap;
use vstd::prelude::*;
use vstd::std_specs::hash::*;
use vstd::std_specs::iter::IteratorSpec;
use vstd::utf8::encode_utf8;
use crate::errors::{ChatError, ChatErrorKind};

verus! {

broadcast use group_hash_axioms;

/// The message of the error that a failed removal returns.
pub const NOT_FOUND: &'static str = "client {} was not found and could not be removed)";

/// The clients that a message from `sender` goes to: everyone registered but
/// the sender.
pub open spec fn recipients_of<S>(clients: Map<usize, S>, sender: usize) -> Set<usize> {
    clients.dom().remove(sender)
}

/// One message on its way out: the bytes to write and the clients to write
/// them to. A write that fails is skipped, the others still take place.
#[derive(Debug)]
pub struct Fanout {
    /// The bytes that each recipient gets.
    pub bytes: Vec<u8>,
    /// The identifiers of the recipients, each once, in no particular order.
    pub recipients: Vec<usize>,
}

impl Fanout {
    /// Holds when this is the broadcast of `text` by `sender` to a registry
    /// that holds `clients`: the bytes are the text in UTF-8, and the
    /// recipients are the registered clients other than the sender, each once.
    pub open spec fn is_broadcast<S>(
        &self,
        clients: Map<usize, S>,
        sender: usize,
        text: Seq<char>,
    ) -> bool {
        &&& self.bytes@ == encode_utf8(text)
        &&& self.recipients@.no_duplicates()
        &&& self.recipients@.to_set() == recipients_of(clients, sender)
    }
}

/// What a room is to its callers: a name and a map from identifiers to handles.
pub struct RoomView<S> {
    pub name: Seq<char>,
    pub clients: Map<usize, S>,
}

/// The shared broadcast domain: its name and the registry of connected
/// clients. `S` is the writable handle kept for each client.
pub struct Room<S> {
    name: String,
    clients: HashMap<usize, S>,
}

impl<S> View for Room<S> {
    type V = RoomView<S>;

    closed spec fn view(&self) -> RoomView<S> {
        RoomView { name: self.name@, clients: self.clients@ }
    }
}

/// Whether `id` is one of the first `upto` keys.
spec fn among(keys: Seq<&usize>, upto: int, id: usize) -> bool {
    exists|i: int| 0 <= i < upto && *(#[trigger] keys[i]) == id
}

impl<S> Room<S> {
    /// An empty room called `name`.
    pub fn new(name: &str) -> (room: Self)
        ensures
            room@.name == name@,
            room@.clients == Map::<usize, S>::empty(),
    {
        Room { name: String::from_str(name), clients: HashMap::new() }
    }

    /// The room's name.
    pub fn name(&self) -> (name: &str)
        ensures
            name@ == self@.name,
    {
        self.name.as_str()
    }

    /// The number of registered clients.
    pub fn client_count(&self) -> (count: usize)
        ensures
            count == self@.clients.len(),
    {
        self.clients.len()
    }

    /// Whether a client is registered under `id`.
    pub fn contains(&self, id: usize) -> (found: bool)
        ensures
            found == self@.clients.contains_key(id),
    {
        self.clients.contains_key(&id)
    }

    /// The handle registered under `id`, if there is one.
    pub fn stream(&self, id: usize) -> (handle: Option<&S>)
        ensures
            match handle {
                Some(sock) => self@.clients.contains_key(id) && *sock == self@.clients[id],
                None => !self@.clients.contains_key(id),
            },
    {
        self.clients.get(&id)
    }

    /// Files `sock` under `id`. A handle already filed under `id` is replaced
    /// and dropped, so no identifier ever has two entries.
    pub fn add_client(&mut self, id: usize, sock: S)
        ensures
            final(self)@.name == old(self)@.name,
            final(self)@.clients == old(self)@.clients.insert(id, sock),
    {
        self.clients.insert(id, sock);
    }

    /// Removes the entry of `id` and drops its handle. Fails, and changes
    /// nothing, exactly when no client is registered under `id`.
    pub fn cleanup_client(&mut self, id: usize) -> (res: Result<(), ChatError>)
        ensures
            final(self)@.name == old(self)@.name,
            final(self)@.clients == old(self)@.clients.remove(id),
            old(self)@.clients.contains_key(id) ==> res is Ok,
            !old(self)@.clients.contains_key(id) ==> final(self)@ == old(self)@ && (res matches Err(
                err,
            ) && err.kind() == ChatErrorKind::RemoveClientError(NOT_FOUND)),
    {
        match self.clients.remove(&id) {
            Some(_) => Ok(()),
            None => {
                assert(self.clients@ =~= old(self).clients@);
                Err(ChatError::new(ChatErrorKind::RemoveClientError(NOT_FOUND)))
            },
        }
    }

    /// Plans the broadcast of `msg` from `sender_id`: the bytes of the
    /// message, for every registered client other than the sender, each once.
    /// The sender need not be registered. The registry is left as it is; the
    /// caller keeps the room to itself until the writes are done, so that no
    /// client comes or goes in between.
    pub fn broadcast(&mut self, sender_id: &usize, msg: String) -> (out: Fanout)
        ensures
            final(self)@ == old(self)@,
            out.is_broadcast(old(self)@.clients, *sender_id, msg@),
            !out.recipients@.contains(*sender_id),
    {
        let mut recipients: Vec<usize> = Vec::new();
        let ghost keys = self.clients.keys().remaining();
        for id in it: self.clients.keys()
            invariant
                it.seq() == keys,
                keys.no_duplicates(),
                recipients@.no_duplicates(),
                forall|j: int|
                    0 <= j < recipients.len() ==> #[trigger] recipients[j] != *sender_id && among(
                        keys,
                        it.index(),
                        recipients[j],
                    ),
                forall|i: int|
                    0 <= i < it.index() && *#[trigger] keys[i] != *sender_id
                        ==> recipients@.contains(*keys[i]),
        {
            assert(*keys[it.index()] == *id);
            if *id != *sender_id {
                let ghost earlier = recipients@;
                recipients.push(*id);
                proof {
                    assert forall|i: int|
                        0 <= i < it.index() + 1 && *#[trigger] keys[i] != *sender_id implies recipients@.contains(
                        *keys[i],
                    ) by {
                        if i < it.index() {
                            let j = choose|j: int| 0 <= j < earlier.len() && earlier[j] == *keys[i];
                            assert(recipients@[j] == *keys[i]);
                        } else {
                            assert(recipients@[earlier.len() as int] == *keys[i]);
                        }
                    }
                }
            }
        }
        proof {
            let dom = self.clients@.dom();
            assert(keys.unref().to_set() == dom);
            assert forall|id: usize| recipients@.to_set().contains(id) <==> recipients_of(
                self.clients@,
                *sender_id,
            ).contains(id) by {
                if recipients@.contains(id) {
                    let j = choose|j: int| 0 <= j < recipients.len() && recipients[j] == id;
                    assert(among(keys, keys.len() as int, recipients[j]));
                    let i = choose|i: int| 0 <= i < keys.len() && *(#[trigger] keys[i]) == id;
                    assert(keys.unref()[i] == id);
                    assert(keys.unref().to_set().contains(id));
                }
                if dom.contains(id) && id != *sender_id {
                    assert(keys.unref().contains(id));
                    let i = choose|i: int| 0 <= i < keys.len() && keys.unref()[i] == id;
                    assert(*keys[i] == id);
                }
            }
            assert(recipients@.to_set() =~= recipients_of(self.clients@, *sender_id));
        }
        Fanout { bytes: msg.as_str().as_bytes_vec(), recipients }
    }
}

} // verus!
