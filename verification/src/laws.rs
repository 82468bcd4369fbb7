//! What holds of the registry over time, and of every broadcast.

use vstd::prelude::*;
use crate::client::{stepped, Action, ClientView, Event, State};
use crate::errors::ChatError;
use crate::room::{recipients_of, Fanout, RoomView};
use crate::server::ServerView;

verus! {

/// One change to a registry: what [`crate::room::Room::add_client`] and
/// [`crate::room::Room::cleanup_client`] do to it.
pub enum Change<S> {
    /// A handle is filed under an identifier.
    Add(usize, S),
    /// The entry of an identifier is removed, if there is one.
    Remove(usize),
}

/// The registry after one change.
pub open spec fn apply<S>(clients: Map<usize, S>, change: Change<S>) -> Map<usize, S> {
    match change {
        Change::Add(id, sock) => clients.insert(id, sock),
        Change::Remove(id) => clients.remove(id),
    }
}

/// The registry after a run of changes, the first of them first.
pub open spec fn after<S>(clients: Map<usize, S>, changes: Seq<Change<S>>) -> Map<usize, S>
    decreases changes.len(),
{
    if changes.len() == 0 {
        clients
    } else {
        apply(after(clients, changes.drop_last()), changes.last())
    }
}

/// How many of the changes add a client.
pub open spec fn additions<S>(changes: Seq<Change<S>>) -> nat
    decreases changes.len(),
{
    if changes.len() == 0 {
        0
    } else {
        additions(changes.drop_last()) + if changes.last() is Add {
            1nat
        } else {
            0nat
        }
    }
}

/// How many of the changes are removals that succeed: the client was on the
/// registry when its turn came.
pub open spec fn removals<S>(clients: Map<usize, S>, changes: Seq<Change<S>>) -> nat
    decreases changes.len(),
{
    if changes.len() == 0 {
        0
    } else {
        let earlier = changes.drop_last();
        removals(clients, earlier) + if changes.last() matches Change::Remove(id) && after(
            clients,
            earlier,
        ).contains_key(id) {
            1nat
        } else {
            0nat
        }
    }
}

/// Whether every identifier that the changes add is fresh: not on the
/// registry when its turn comes.
pub open spec fn additions_are_fresh<S>(clients: Map<usize, S>, changes: Seq<Change<S>>) -> bool
    decreases changes.len(),
{
    changes.len() > 0 ==> {
        let earlier = changes.drop_last();
        &&& additions_are_fresh(clients, earlier)
        &&& changes.last() matches Change::Add(id, _) ==> !after(clients, earlier).contains_key(id)
    }
}

/// Whether none of the changes adds `id`.
pub open spec fn never_adds<S>(changes: Seq<Change<S>>, id: usize) -> bool {
    forall|i: int|
        0 <= i < changes.len() ==> !(#[trigger] changes[i] matches Change::Add(added, _) && added
            == id)
}

/// Nothing leaks and nothing is counted twice: after any run of changes that
/// adds fresh identifiers only, the registry holds as many clients as it held
/// before, plus those added, minus those whose removal succeeded.
pub proof fn lemma_count_is_additions_less_removals<S>(
    clients: Map<usize, S>,
    changes: Seq<Change<S>>,
)
    requires
        clients.dom().finite(),
        additions_are_fresh(clients, changes),
    ensures
        after(clients, changes).dom().finite(),
        after(clients, changes).len() + removals(clients, changes) == clients.len() + additions(
            changes,
        ),
    decreases changes.len(),
{
    if changes.len() > 0 {
        lemma_count_is_additions_less_removals(clients, changes.drop_last());
    }
}

/// A client that is off the registry stays off it for as long as its
/// identifier is not added again.
pub proof fn lemma_absent_stays_absent<S>(
    clients: Map<usize, S>,
    changes: Seq<Change<S>>,
    id: usize,
)
    requires
        !clients.contains_key(id),
        never_adds(changes, id),
    ensures
        !after(clients, changes).contains_key(id),
    decreases changes.len(),
{
    if changes.len() > 0 {
        let earlier = changes.drop_last();
        assert forall|i: int| 0 <= i < earlier.len() implies !(#[trigger] earlier[i] matches Change::Add(
            added,
            _,
        ) && added == id) by {
            assert(earlier[i] == changes[i]);
        }
        lemma_absent_stays_absent(clients, earlier, id);
        assert(changes.last() == changes[changes.len() - 1]);
    }
}

/// A broadcast goes to every registered client other than the sender exactly
/// once, and to nobody else: not to the sender, and not to anyone who is off
/// the registry.
pub proof fn lemma_broadcast_reaches_each_other_client_once<S>(
    out: Fanout,
    clients: Map<usize, S>,
    sender: usize,
    text: Seq<char>,
)
    requires
        out.is_broadcast(clients, sender, text),
    ensures
        !out.recipients@.contains(sender),
        forall|id: usize| !clients.contains_key(id) ==> !out.recipients@.contains(id),
        forall|id: usize|
            clients.contains_key(id) && id != sender ==> exists|i: int|
                0 <= i < out.recipients@.len() && #[trigger] out.recipients@[i] == id,
        forall|i: int, j: int|
            0 <= i < out.recipients@.len() && 0 <= j < out.recipients@.len()
                && out.recipients@[i] == out.recipients@[j] ==> i == j,
{
    let to = out.recipients@;
    assert forall|id: usize| to.contains(id) <==> recipients_of(clients, sender).contains(id) by {
        assert(to.to_set().contains(id) <==> to.contains(id));
    }
    assert forall|id: usize| clients.contains_key(id) && id != sender implies exists|i: int|
        0 <= i < to.len() && #[trigger] to[i] == id by {
        assert(to.contains(id));
    }
}

/// What a server adds is fresh: its next identifier is on nobody's entry, so
/// taking a client in under it is an addition that the count above allows
/// for, and it brings back no client that has left.
pub proof fn lemma_server_adds_fresh_identifiers<S>(server: ServerView<S>, writer: S, gone: usize)
    requires
        server.ids_are_spent(),
        gone < server.next_id,
        !server.room.clients.contains_key(gone),
    ensures
        !server.room.clients.contains_key(server.next_id),
        additions_are_fresh(server.room.clients, seq![Change::Add(server.next_id, writer)]),
        !apply(server.room.clients, Change::Add(server.next_id, writer)).contains_key(gone),
{
    let changes = seq![Change::Add(server.next_id, writer)];
    assert(changes.drop_last() =~= Seq::<Change<S>>::empty());
    assert(additions_are_fresh(server.room.clients, changes.drop_last()));
    assert(after(server.room.clients, changes.drop_last()) == server.room.clients);
}

/// Once the connection of a reading worker has ended, the worker has
/// terminated and its client is off the registry; and for as long as its
/// identifier is not added again, it stays off, and no broadcast names it as a
/// recipient.
pub proof fn lemma_departed_client_is_written_to_no_more<R, S>(
    before: ClientView<R>,
    room: RoomView<S>,
    event: Event,
    left: ClientView<R>,
    room_left: RoomView<S>,
    res: Result<Action, ChatError>,
    changes: Seq<Change<S>>,
    out: Fanout,
    sender: usize,
    text: Seq<char>,
)
    requires
        before.state == State::Reading,
        event.ends_connection(),
        stepped(before, room, event, left, room_left, res),
        never_adds(changes, before.id),
        out.is_broadcast(after(room_left.clients, changes), sender, text),
    ensures
        left.state == State::Terminated,
        !room_left.clients.contains_key(before.id),
        !after(room_left.clients, changes).contains_key(before.id),
        !out.recipients@.contains(before.id),
{
    lemma_absent_stays_absent(room_left.clients, changes, before.id);
    lemma_broadcast_reaches_each_other_client_once(
        out,
        after(room_left.clients, changes),
        sender,
        text,
    );
}

} // verus!
