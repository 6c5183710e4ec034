//! What holds of the network actor over any message and any run of messages.

use crate::address::{decimal, digit, listening_bytes, listening_text};
use crate::handle::{
    remote_peer_id, reports_connected, reports_disconnected, reports_received,
};
use crate::identity::PeerId;
use crate::message::{
    internal_form, ChannelCommand, ChannelInitializationParameter, InternalNetworkActorMessage,
    NetworkActorCommand, NetworkActorEvent, NetworkActorMessage, NetworkRequestId,
    NetworkServiceEvent, PeerActorMessage,
};
use crate::network::{
    announcement, command_reaction, event_of, event_reaction, peer_lookup, reaction,
    spawned_reaction, still_known, NetworkAction, PeerLookup, Refusal,
};
use crate::session::SessionContext;
use std::sync::Arc;
use vstd::prelude::*;

verus! {

/// The known peers once `message` is handled to the end: where it asks for a peer actor, `actor`
/// is the one that is spawned.
pub open spec fn settled<A, M, T>(
    known: Map<Seq<u8>, Arc<A>>,
    message: NetworkActorMessage<M, T>,
    actor: Arc<A>,
) -> Map<Seq<u8>, Arc<A>> {
    let actions = reaction(known, message);
    if actions.len() == 1 && actions[0] is SpawnPeer {
        still_known(known, message).insert(actions[0]->id@, actor)
    } else {
        still_known(known, message)
    }
}

/// The known peers once all `messages` are handled, one after the other; `actors[i]` is the actor
/// that is spawned if message `i` asks for one.
pub open spec fn run<A, M, T>(
    known: Map<Seq<u8>, Arc<A>>,
    messages: Seq<NetworkActorMessage<M, T>>,
    actors: Seq<Arc<A>>,
) -> Map<Seq<u8>, Arc<A>>
    decreases messages.len(),
{
    if messages.len() == 0 {
        known
    } else {
        let last = messages.len() - 1;
        settled(run(known, messages.drop_last(), actors), messages[last], actors[last])
    }
}

/// Whether `message` says that the peer `id` connected.
pub open spec fn connects<M, T>(message: NetworkActorMessage<M, T>, id: Seq<u8>) -> bool {
    event_of(message) matches Some(NetworkActorEvent::PeerConnected(i, _)) && i@ == id
}

/// Whether `message` says that the peer `id` disconnected.
pub open spec fn disconnects<M, T>(message: NetworkActorMessage<M, T>, id: Seq<u8>) -> bool {
    event_of(message) matches Some(NetworkActorEvent::PeerDisconnected(i, _)) && i@ == id
}

/// Telling the request id apart loses nothing and adds nothing: different messages stay different,
/// and every internal message comes from one.
pub proof fn law_internal_form_is_one_to_one<M, T>(
    a: NetworkActorMessage<M, T>,
    b: NetworkActorMessage<M, T>,
    internal: InternalNetworkActorMessage<M, T>,
)
    ensures
        internal_form(a) == internal_form(b) ==> a == b,
        exists|message: NetworkActorMessage<M, T>| #[trigger] internal_form(message) == internal,
{
    let message = match internal {
        InternalNetworkActorMessage::Command(None, command) => NetworkActorMessage::Command(
            command,
        ),
        InternalNetworkActorMessage::Command(Some(id), command) => NetworkActorMessage::Request(
            id,
            command,
        ),
        InternalNetworkActorMessage::Event(None, event) => NetworkActorMessage::Event(event),
        InternalNetworkActorMessage::Event(Some(id), event) => NetworkActorMessage::Response(
            id,
            event,
        ),
    };
    assert(internal_form(message) == internal);
}

/// A command is handled the same whether or not it came as a request.
pub proof fn law_command_ignores_request_id<A, M, T>(
    known: Map<Seq<u8>, Arc<A>>,
    id: NetworkRequestId,
    command: NetworkActorCommand<M, T>,
)
    ensures
        reaction(known, NetworkActorMessage::<M, T>::Request(id, command)) == reaction(
            known,
            NetworkActorMessage::<M, T>::Command(command),
        ),
        still_known(known, NetworkActorMessage::<M, T>::Request(id, command)) == known,
        still_known(known, NetworkActorMessage::<M, T>::Command(command)) == known,
{
}

/// What is done about a message is what is done about the command or the event in it. Only to an
/// event does the id of a request matter: it is the one that the event answers.
pub proof fn law_reaction_to_content<A, M, T>(
    known: Map<Seq<u8>, Arc<A>>,
    id: NetworkRequestId,
    command: NetworkActorCommand<M, T>,
    event: NetworkActorEvent<M>,
)
    ensures
        reaction(known, NetworkActorMessage::<M, T>::Command(command)) == command_reaction(
            known,
            command,
        ),
        reaction(known, NetworkActorMessage::<M, T>::Request(id, command)) == command_reaction(
            known,
            command,
        ),
        reaction(known, NetworkActorMessage::<M, T>::Event(event)) == event_reaction::<A, M, T>(
            known,
            None,
            event,
        ),
        reaction(known, NetworkActorMessage::<M, T>::Response(id, event)) == event_reaction::<
            A,
            M,
            T,
        >(known, Some(id), event),
{
}

/// The request that `message` belongs to, if it belongs to one.
pub open spec fn request_of<M, T>(message: NetworkActorMessage<M, T>) -> Option<NetworkRequestId> {
    match message {
        NetworkActorMessage::Request(id, _) => Some(id),
        NetworkActorMessage::Response(id, _) => Some(id),
        _ => None,
    }
}

/// What the event actor hears of is an event: a response, under the id of its request, if the
/// event answers one, and an event without an id otherwise.
pub proof fn law_emitted_under_request_id<A, M, T>(
    known: Map<Seq<u8>, Arc<A>>,
    message: NetworkActorMessage<M, T>,
    i: int,
)
    requires
        0 <= i < reaction(known, message).len(),
        reaction(known, message)[i] is Emit,
    ensures
        event_of(message) is Some,
        exists|event: NetworkServiceEvent|
            reaction(known, message)[i] == NetworkAction::<A, M, T>::Emit(
                #[trigger] announcement(request_of(message), event),
            ),
{
    let emitted = reaction(known, message)[i];
    let id = request_of(message);
    match event_of(message) {
        Some(NetworkActorEvent::NetworkServiceEvent(e)) => {
            assert(emitted == NetworkAction::<A, M, T>::Emit(announcement(id, e)));
        },
        Some(NetworkActorEvent::PeerDisconnected(_, session)) => {
            let e = NetworkServiceEvent::PeerDisConnected(session.address);
            assert(emitted == NetworkAction::<A, M, T>::Emit(announcement(id, e)));
        },
        _ => {},
    }
}

/// A service event reaches the outside observers, whether or not it answers a request: the event
/// actor hears of it, exactly once and of nothing else.
pub proof fn law_service_event_is_emitted<A, M, T>(
    known: Map<Seq<u8>, Arc<A>>,
    message: NetworkActorMessage<M, T>,
)
    requires
        event_of(message) matches Some(NetworkActorEvent::NetworkServiceEvent(_)),
    ensures
        event_of(message) matches Some(NetworkActorEvent::NetworkServiceEvent(event)) && reaction(
            known,
            message,
        ) == seq![
            NetworkAction::<A, M, T>::Emit(announcement(request_of(message), event)),
        ],
{
}

/// An announcement tells which event it is and which request it answers.
pub proof fn law_announcement_is_one_to_one<M>(
    id_a: Option<NetworkRequestId>,
    a: NetworkServiceEvent,
    id_b: Option<NetworkRequestId>,
    b: NetworkServiceEvent,
)
    requires
        announcement::<M>(id_a, a) == announcement::<M>(id_b, b),
    ensures
        id_a == id_b,
        a == b,
{
}

/// A new peer is announced with its address, and after that its actor hears of the session.
pub proof fn law_new_peer_is_announced_first<A, M, T>(
    request_id: Option<NetworkRequestId>,
    session: SessionContext,
    actor: Arc<A>,
)
    ensures
        ({
            let actions = spawned_reaction::<A, M, T>(request_id, session, actor);
            let event = NetworkServiceEvent::PeerConnected(session.address);
            &&& actions.len() == 2
            &&& actions[0] == NetworkAction::<A, M, T>::Emit(announcement(request_id, event))
            &&& actions[1] == NetworkAction::<A, M, T>::SendToPeer {
                actor,
                message: PeerActorMessage::Connected(session),
            }
        }),
{
}

/// The end of a known peer is announced with its address, and after that its actor hears of it.
pub proof fn law_departing_peer_is_announced_first<A, M, T>(
    known: Map<Seq<u8>, Arc<A>>,
    message: NetworkActorMessage<M, T>,
)
    requires
        event_of(message) matches Some(NetworkActorEvent::PeerDisconnected(id, _))
            && known.contains_key(id@),
    ensures
        event_of(message) matches Some(NetworkActorEvent::PeerDisconnected(id, session)) && {
            let actions = reaction(known, message);
            let event = NetworkServiceEvent::PeerDisConnected(session.address);
            &&& actions.len() == 2
            &&& actions[0] == NetworkAction::<A, M, T>::Emit(
                announcement(request_of(message), event),
            )
            &&& actions[1] == NetworkAction::<A, M, T>::SendToPeer {
                actor: known[id@],
                message: PeerActorMessage::Disconnected(session),
            }
        },
{
}

/// No message is passed over in silence.
pub proof fn law_no_silence<A, M, T>(
    known: Map<Seq<u8>, Arc<A>>,
    message: NetworkActorMessage<M, T>,
)
    ensures
        reaction(known, message).len() > 0,
{
}

/// The known peers change only as one connects or disconnects.
pub proof fn law_only_connections_change_peers<A, M, T>(
    known: Map<Seq<u8>, Arc<A>>,
    message: NetworkActorMessage<M, T>,
    actor: Arc<A>,
)
    requires
        forall|id: Seq<u8>| !connects(message, id) && !disconnects(message, id),
    ensures
        settled(known, message, actor) == known,
{
    match event_of(message) {
        Some(NetworkActorEvent::PeerConnected(id, _)) => {
            assert(connects(message, id@));
        },
        Some(NetworkActorEvent::PeerDisconnected(id, _)) => {
            assert(disconnects(message, id@));
        },
        _ => {},
    }
}

/// A message changes nothing for a peer that it does not report as connected or disconnected.
pub proof fn law_other_peers_stay<A, M, T>(
    known: Map<Seq<u8>, Arc<A>>,
    message: NetworkActorMessage<M, T>,
    actor: Arc<A>,
    id: Seq<u8>,
)
    requires
        !connects(message, id),
        !disconnects(message, id),
    ensures
        settled(known, message, actor).contains_key(id) == known.contains_key(id),
        known.contains_key(id) ==> settled(known, message, actor)[id] == known[id],
{
}

/// A peer that connects is known from then on. If it was known already, its actor stays and the
/// event is refused; if not, the spawned actor is its actor.
pub proof fn law_connect<A, M, T>(
    known: Map<Seq<u8>, Arc<A>>,
    message: NetworkActorMessage<M, T>,
    actor: Arc<A>,
    id: Seq<u8>,
)
    requires
        connects(message, id),
    ensures
        settled(known, message, actor) == (if known.contains_key(id) {
            known
        } else {
            known.insert(id, actor)
        }),
        known.contains_key(id) <==> reaction(known, message).len() == 1 && (reaction(
            known,
            message,
        )[0] matches NetworkAction::Refuse(Refusal::DuplicatedPeer(i)) && i@ == id),
{
}

/// A peer that disconnects is unknown from then on. If it was known, its actor hears of it last of
/// all; if not, the event is refused and nothing changes.
pub proof fn law_disconnect<A, M, T>(
    known: Map<Seq<u8>, Arc<A>>,
    message: NetworkActorMessage<M, T>,
    actor: Arc<A>,
    id: Seq<u8>,
)
    requires
        disconnects(message, id),
    ensures
        settled(known, message, actor) == known.remove(id),
        known.contains_key(id) ==> (reaction(known, message).last() matches
            NetworkAction::SendToPeer { actor: told, message: PeerActorMessage::Disconnected(_) }
            && told == known[id]),
        !known.contains_key(id) ==> settled(known, message, actor) == known && reaction(
            known,
            message,
        ).len() == 1 && (reaction(known, message)[0] matches NetworkAction::Refuse(
            Refusal::RemovedPeerNotFound(i),
        ) && i@ == id),
{
    if !known.contains_key(id) {
        assert(known.remove(id) =~= known);
    }
}

/// A peer that connects and disconnects leaves the known peers as they were before, and the actor
/// that was spawned for it is the one that hears of the end.
pub proof fn law_disconnect_undoes_connect<A, M, T>(
    known: Map<Seq<u8>, Arc<A>>,
    connect: NetworkActorMessage<M, T>,
    disconnect: NetworkActorMessage<M, T>,
    actor: Arc<A>,
    unused: Arc<A>,
    id: Seq<u8>,
)
    requires
        !known.contains_key(id),
        connects(connect, id),
        disconnects(disconnect, id),
    ensures
        ({
            let between = settled(known, connect, actor);
            &&& settled(between, disconnect, unused) == known
            &&& reaction(between, disconnect).last() matches NetworkAction::SendToPeer {
                actor: told,
                message: PeerActorMessage::Disconnected(_),
            } && told == actor
        }),
{
    let between = settled(known, connect, actor);
    law_connect(known, connect, actor, id);
    law_disconnect(between, disconnect, unused, id);
    assert(between.remove(id) =~= known);
}

/// What goes to a peer actor goes to the actor of a known peer, except for the greeting of a new
/// one.
pub proof fn law_peer_actors_are_known<A, M, T>(
    known: Map<Seq<u8>, Arc<A>>,
    message: NetworkActorMessage<M, T>,
    i: int,
)
    requires
        0 <= i < reaction(known, message).len(),
    ensures
        reaction(known, message)[i] matches NetworkAction::SendToPeer { actor, .. }
            ==> known.contains_value(actor),
        reaction(known, message)[i] matches NetworkAction::SpawnChannel { peer_actor, .. }
            ==> known.contains_value(peer_actor),
{
}

/// A message from a known peer reaches its actor as it came, and one from an unknown peer reaches
/// nobody.
pub proof fn law_peer_message<A, M, T>(
    known: Map<Seq<u8>, Arc<A>>,
    message: NetworkActorMessage<M, T>,
)
    requires
        event_of(message) matches Some(NetworkActorEvent::PeerMessage(_, _, _)),
    ensures
        event_of(message) matches Some(NetworkActorEvent::PeerMessage(id, session, m)) && reaction(
            known,
            message,
        ) == (if known.contains_key(id@) {
            seq![
                NetworkAction::<A, M, T>::SendToPeer {
                    actor: known[id@],
                    message: PeerActorMessage::ReceivedMessage(session, m),
                },
            ]
        } else {
            seq![NetworkAction::<A, M, T>::Refuse(Refusal::SenderNotFound(id))]
        }),
{
}

/// What is commanded about a peer is done with its actor if the peer is known, and refused if not.
pub proof fn law_command_about_peer<A, M, T>(
    known: Map<Seq<u8>, Arc<A>>,
    command: NetworkActorCommand<M, T>,
)
    ensures
        command matches NetworkActorCommand::SendPcnMessage(to) ==> command_reaction(known, command)
            == (match peer_lookup(known, to.peer_id) {
            PeerLookup::Found(actor) => seq![
                NetworkAction::<A, M, T>::SendToPeer {
                    actor,
                    message: PeerActorMessage::SendMessage(to.message),
                },
            ],
            PeerLookup::Create(id) => seq![
                NetworkAction::<A, M, T>::Refuse(Refusal::ReceiverNotFound(id)),
            ],
        }),
        command matches NetworkActorCommand::ControlPcnChannel(ChannelCommand::OpenChannel(open))
            ==> command_reaction(known, command) == (match peer_lookup(known, open.peer_id) {
            PeerLookup::Found(peer_actor) => seq![
                NetworkAction::<A, M, T>::SpawnChannel {
                    peer_actor,
                    parameter: ChannelInitializationParameter::OpenChannelCommand(open),
                },
            ],
            PeerLookup::Create(id) => seq![
                NetworkAction::<A, M, T>::Refuse(Refusal::ChannelPeerNotFound(id)),
            ],
        }),
{
}

/// A peer actor that was created is found from then on, nothing changes for other peers, and the
/// peer counts as connected: a report that it connected is refused.
pub proof fn law_created_peer_is_found<A, M, T>(
    known: Map<Seq<u8>, Arc<A>>,
    id: PeerId,
    actor: Arc<A>,
    other: PeerId,
    message: NetworkActorMessage<M, T>,
    unused: Arc<A>,
)
    requires
        peer_lookup(known, id) is Create,
        connects(message, id@),
    ensures
        ({
            let created = known.insert(id@, actor);
            &&& peer_lookup(created, id) == PeerLookup::Found(actor)
            &&& other@ != id@ ==> peer_lookup(created, other) == peer_lookup(known, other)
            &&& settled(created, message, unused) == created
            &&& reaction(created, message)[0] is Refuse
        }),
{
    law_connect(known.insert(id@, actor), message, unused, id@);
}

/// The life of a session whose remote node is new and has a key: its opening makes the node known
/// with the actor that is spawned, what comes in over it goes to that actor, and its end is
/// announced, told to that actor and leaves the known peers as they were.
pub proof fn law_session_life<A, M, T>(
    known: Map<Seq<u8>, Arc<A>>,
    session: SessionContext,
    m: M,
    opened: Option<NetworkActorMessage<M, T>>,
    incoming: Option<NetworkActorMessage<M, T>>,
    closed: Option<NetworkActorMessage<M, T>>,
    actor: Arc<A>,
    unused: Arc<A>,
)
    requires
        remote_peer_id(session) matches Some(id) && !known.contains_key(id),
        reports_connected(opened, session),
        reports_received(incoming, session, Some(m)),
        reports_disconnected(closed, session),
    ensures
        opened is Some,
        incoming is Some,
        closed is Some,
        ({
            let open = settled(known, opened->0, actor);
            &&& open == known.insert(remote_peer_id(session)->0, actor)
            &&& reaction(open, incoming->0) == seq![
                NetworkAction::<A, M, T>::SendToPeer {
                    actor,
                    message: PeerActorMessage::ReceivedMessage(session, m),
                },
            ]
            &&& settled(open, incoming->0, unused) == open
            &&& reaction(open, closed->0) == seq![
                NetworkAction::<A, M, T>::Emit(
                    announcement(None, NetworkServiceEvent::PeerDisConnected(session.address)),
                ),
                NetworkAction::<A, M, T>::SendToPeer {
                    actor,
                    message: PeerActorMessage::Disconnected(session),
                },
            ]
            &&& settled(open, closed->0, unused) == known
        }),
{
    let id = remote_peer_id(session)->0;
    law_connect(known, opened->0, actor, id);
    law_disconnect_undoes_connect(known, opened->0, closed->0, actor, unused, id);
}

/// After any run of messages a peer is known if and only if it connected, or was known at the
/// start, and did not disconnect since.
pub proof fn law_known_after_run<A, M, T>(
    known: Map<Seq<u8>, Arc<A>>,
    messages: Seq<NetworkActorMessage<M, T>>,
    actors: Seq<Arc<A>>,
    id: Seq<u8>,
)
    requires
        messages.len() == actors.len(),
    ensures
        run(known, messages, actors).contains_key(id) <==> {
            ||| known.contains_key(id) && no_disconnect_since(messages, 0, id)
            ||| exists|k: int|
                0 <= k < messages.len() && #[trigger] connects(messages[k], id)
                    && no_disconnect_since(messages, k + 1, id)
        },
    decreases messages.len(),
{
    if messages.len() > 0 {
        let last = messages.len() - 1;
        let front = messages.drop_last();
        let between = run(known, front, actors);
        lemma_run_ignores_later_actors(known, front, actors, actors.drop_last());
        law_known_after_run(known, front, actors.drop_last(), id);
        assert forall|k: int| 0 <= k <= last implies #[trigger] no_disconnect_since(
            messages,
            k,
            id,
        ) == (no_disconnect_since(front, k, id) && !disconnects(messages[last], id)) by {
            if no_disconnect_since(messages, k, id) {
                assert(!disconnects(messages[last], id));
                assert forall|j: int| k <= j < front.len() implies !disconnects(
                    #[trigger] front[j],
                    id,
                ) by {
                    assert(!disconnects(messages[j], id));
                }
            }
            if no_disconnect_since(front, k, id) && !disconnects(messages[last], id) {
                assert forall|j: int| k <= j < messages.len() implies !disconnects(
                    #[trigger] messages[j],
                    id,
                ) by {
                    if j < last {
                        assert(!disconnects(front[j], id));
                    }
                }
            }
        }
        assert(no_disconnect_since(messages, last + 1, id));
        if connects(messages[last], id) {
            law_connect(between, messages[last], actors[last], id);
        } else if disconnects(messages[last], id) {
            law_disconnect(between, messages[last], actors[last], id);
            assert forall|k: int| 0 <= k < messages.len() && #[trigger] connects(
                messages[k],
                id,
            ) implies !no_disconnect_since(messages, k + 1, id) by {
                assert(k < last);
            }
        } else {
            law_other_peers_stay(between, messages[last], actors[last], id);
            if between.contains_key(id) && !(known.contains_key(id) && no_disconnect_since(
                front,
                0,
                id,
            )) {
                let k = choose|k: int|
                    0 <= k < front.len() && #[trigger] connects(front[k], id)
                        && no_disconnect_since(front, k + 1, id);
                assert(connects(messages[k], id));
            }
            if exists|k: int|
                0 <= k < messages.len() && #[trigger] connects(messages[k], id)
                    && no_disconnect_since(messages, k + 1, id) {
                let k = choose|k: int|
                    0 <= k < messages.len() && #[trigger] connects(messages[k], id)
                        && no_disconnect_since(messages, k + 1, id);
                assert(k < last);
                assert(connects(front[k], id));
            }
        }
    }
}

/// Whether the peer `id` does not disconnect in `messages` from index `from` on.
pub open spec fn no_disconnect_since<M, T>(
    messages: Seq<NetworkActorMessage<M, T>>,
    from: int,
    id: Seq<u8>,
) -> bool {
    forall|j: int| from <= j < messages.len() ==> !disconnects(#[trigger] messages[j], id)
}

/// After any run of messages a known peer has the actor that was spawned when it last became
/// known: message `k` made it known, and it did not disconnect since.
pub proof fn law_actor_after_run<A, M, T>(
    known: Map<Seq<u8>, Arc<A>>,
    messages: Seq<NetworkActorMessage<M, T>>,
    actors: Seq<Arc<A>>,
    id: Seq<u8>,
    k: int,
)
    requires
        messages.len() == actors.len(),
        0 <= k < messages.len(),
        !run(known, messages.take(k), actors.take(k)).contains_key(id),
        connects(messages[k], id),
        no_disconnect_since(messages, k + 1, id),
    ensures
        run(known, messages, actors).contains_key(id),
        run(known, messages, actors)[id] == actors[k],
    decreases messages.len(),
{
    let last = messages.len() - 1;
    let front = messages.drop_last();
    let between = run(known, front, actors);
    lemma_run_ignores_later_actors(known, front, actors, actors.drop_last());
    if k == last {
        assert(messages.take(k) =~= front);
        assert(actors.take(k) =~= actors.drop_last());
        law_connect(between, messages[last], actors[last], id);
    } else {
        assert(front.take(k) =~= messages.take(k));
        assert(actors.drop_last().take(k) =~= actors.take(k));
        assert forall|j: int| k + 1 <= j < front.len() implies !disconnects(
            #[trigger] front[j],
            id,
        ) by {
            assert(!disconnects(messages[j], id));
        }
        law_actor_after_run(known, front, actors.drop_last(), id, k);
        assert(!disconnects(messages[last], id));
        if connects(messages[last], id) {
            law_connect(between, messages[last], actors[last], id);
        } else {
            law_other_peers_stay(between, messages[last], actors[last], id);
        }
    }
}

/// A run depends on no actor beyond those of its messages.
proof fn lemma_run_ignores_later_actors<A, M, T>(
    known: Map<Seq<u8>, Arc<A>>,
    messages: Seq<NetworkActorMessage<M, T>>,
    a: Seq<Arc<A>>,
    b: Seq<Arc<A>>,
)
    requires
        messages.len() <= a.len(),
        messages.len() <= b.len(),
        forall|i: int| 0 <= i < messages.len() ==> a[i] == b[i],
    ensures
        run(known, messages, a) == run(known, messages, b),
    decreases messages.len(),
{
    if messages.len() > 0 {
        lemma_run_ignores_later_actors(known, messages.drop_last(), a, b);
        assert(a[messages.len() - 1] == b[messages.len() - 1]);
    }
}

/// Sessions with the owner of one key are sessions with one peer.
pub proof fn law_same_key_same_peer(a: SessionContext, b: SessionContext)
    requires
        a.remote_pubkey is Some,
        b.remote_pubkey is Some,
        a.remote_pubkey->0@ == b.remote_pubkey->0@,
    ensures
        remote_peer_id(a) is Some,
        remote_peer_id(a) == remote_peer_id(b),
{
}

/// Different numbers are written differently.
proof fn lemma_decimal_injective(a: nat, b: nat)
    requires
        decimal(a) == decimal(b),
    ensures
        a == b,
    decreases a,
{
    lemma_decimal_nonempty(a / 10);
    lemma_decimal_nonempty(b / 10);
    assert(decimal(a).last() == digit(a % 10));
    assert(decimal(b).last() == digit(b % 10));
    assert(a % 10 == b % 10);
    if a >= 10 && b >= 10 {
        assert(decimal(a).drop_last() =~= decimal(a / 10));
        assert(decimal(b).drop_last() =~= decimal(b / 10));
        lemma_decimal_injective(a / 10, b / 10);
    }
}

proof fn lemma_decimal_nonempty(n: nat)
    ensures
        decimal(n).len() > 0,
    decreases n,
{
    if n >= 10 {
        lemma_decimal_nonempty(n / 10);
    }
}

/// Services on different ports listen on different addresses.
pub proof fn law_ports_have_their_own_address(a: u16, b: u16)
    requires
        a != b,
    ensures
        listening_text(a) != listening_text(b),
        listening_bytes(a) != listening_bytes(b),
{
    if listening_text(a) == listening_text(b) {
        let head = "/ip4/127.0.0.1/tcp/"@;
        assert(listening_text(a).skip(head.len() as int) =~= decimal(a as nat));
        assert(listening_text(b).skip(head.len() as int) =~= decimal(b as nat));
        lemma_decimal_injective(a as nat, b as nat);
    }
    if listening_bytes(a) == listening_bytes(b) {
        assert(listening_bytes(a)[6] == listening_bytes(b)[6]);
        assert(listening_bytes(a)[7] == listening_bytes(b)[7]);
    }
}

} // verus!
