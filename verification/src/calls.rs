//! How the results of calls relate to each other and to their arguments.
//!
//! Each law holds of whatever the calls in its premises return.

use crate::address::{
    listening_address, listening_address_text, multiaddr_accepts, multiaddr_of_text, Multiaddr,
};
use crate::effects::number;
use crate::handle::Handle;
use crate::identity::{peer_id_of_key, valid_peer_id, PeerId, PublicKey};
use crate::message::{
    ChannelCommand, ChannelInitializationParameter, Event, EventActorMessage,
    InternalNetworkActorMessage, NetworkActorCommand, NetworkActorEvent, NetworkActorMessage,
    NetworkRequestId, NetworkResponse, NetworkServiceEvent, PeerActorMessage,
};
use crate::network::{
    NetworkAction, NetworkActor, NetworkActorState, PeerLookup, Refusal, StartPlan,
};
use crate::peers::PeerTable;
use crate::session::SessionContext;
use std::sync::Arc;
use vstd::prelude::*;

verus! {

/// The four constructors of a message hold what they are given.
pub proof fn law_new_message<M, T>(
    id: NetworkRequestId,
    command: NetworkActorCommand<M, T>,
    event: NetworkActorEvent<M>,
    message: NetworkActorMessage<M, T>,
)
    ensures
        call_ensures(NetworkActorMessage::<M, T>::new_command, (command,), message) ==> message
            == NetworkActorMessage::<M, T>::Command(command),
        call_ensures(NetworkActorMessage::<M, T>::new_request, (id, command), message) ==> message
            == NetworkActorMessage::<M, T>::Request(id, command),
        call_ensures(NetworkActorMessage::<M, T>::new_event, (event,), message) ==> message
            == NetworkActorMessage::<M, T>::Event(event),
        call_ensures(NetworkActorMessage::<M, T>::new_response, (id, event), message) ==> message
            == NetworkActorMessage::<M, T>::Response(id, event),
{
}

/// Telling the request id apart keeps it, and keeps the command or the event.
pub proof fn law_into_internal<M, T>(
    id: NetworkRequestId,
    command: NetworkActorCommand<M, T>,
    event: NetworkActorEvent<M>,
    message: NetworkActorMessage<M, T>,
    internal: InternalNetworkActorMessage<M, T>,
)
    requires
        call_ensures(
            <InternalNetworkActorMessage<M, T> as From<NetworkActorMessage<M, T>>>::from,
            (message,),
            internal,
        ),
    ensures
        message == NetworkActorMessage::<M, T>::Command(command) ==> internal
            == InternalNetworkActorMessage::<M, T>::Command(None, command),
        message == NetworkActorMessage::<M, T>::Request(id, command) ==> internal
            == InternalNetworkActorMessage::<M, T>::Command(Some(id), command),
        message == NetworkActorMessage::<M, T>::Event(event) ==> internal
            == InternalNetworkActorMessage::<M, T>::Event(None, event),
        message == NetworkActorMessage::<M, T>::Response(id, event) ==> internal
            == InternalNetworkActorMessage::<M, T>::Event(Some(id), event),
{
}

/// Bytes make a peer id if and only if they are one. The id gives back the bytes that it was made
/// of, a copy of it is the same id, and two ids name the same peer if and only if they have the
/// same bytes.
pub proof fn law_peer_id_keeps_bytes(
    bytes: Vec<u8>,
    made: Option<PeerId>,
    id: PeerId,
    other: PeerId,
    own_bytes: &[u8],
    other_bytes: &[u8],
    copy: PeerId,
    same: bool,
)
    requires
        call_ensures(PeerId::from_bytes, (bytes,), made),
        call_ensures(PeerId::as_bytes, (&id,), own_bytes),
        call_ensures(PeerId::as_bytes, (&other,), other_bytes),
        call_ensures(PeerId::clone, (&id,), copy),
        call_ensures(PeerId::same, (&id, &other), same),
    ensures
        made is Some <==> valid_peer_id(bytes@),
        made == Some(id) ==> own_bytes@ == bytes@,
        copy == id,
        same <==> own_bytes@ == other_bytes@,
{
}

/// The id of a node has the bytes that are derived from all the bytes of its key: 0x12, which stands
/// for SHA-256, then the digest length 32, then the digest. It can be made of those bytes again.
pub proof fn law_peer_id_of_key(
    key: PublicKey,
    id: PeerId,
    own_bytes: &[u8],
    bytes: Vec<u8>,
    again: Option<PeerId>,
    same: bool,
)
    requires
        call_ensures(PeerId::from_public_key, (&key,), id),
        call_ensures(PeerId::as_bytes, (&id,), own_bytes),
        bytes@ == own_bytes@,
        call_ensures(PeerId::from_bytes, (bytes,), again),
    ensures
        key@ == key.raw@,
        own_bytes@ == peer_id_of_key(key.raw@),
        own_bytes@.len() == 34,
        own_bytes@[0] == 0x12,
        own_bytes@[1] == 32,
        again is Some,
        call_ensures(PeerId::same, (&id, &again->0), same) ==> same,
{
}

/// Bytes make an address if and only if they are taken for the encoding of one, as the encoding of
/// an address is. The address gives back the bytes that it was made of, and a copy of it is the same
/// address.
pub proof fn law_address_keeps_bytes(
    bytes: Vec<u8>,
    made: Option<Multiaddr>,
    address: Multiaddr,
    own_bytes: &[u8],
    copy: Multiaddr,
)
    requires
        call_ensures(Multiaddr::from_bytes, (bytes,), made),
        call_ensures(Multiaddr::as_bytes, (&address,), own_bytes),
        call_ensures(Multiaddr::clone, (&address,), copy),
    ensures
        made is Some <==> multiaddr_accepts(bytes@, usize::BITS as nat),
        made == Some(address) ==> own_bytes@ == bytes@,
        bytes@ == own_bytes@ ==> made is Some,
        copy == address,
{
}

/// The service listens on the loopback interface at its port: the text of its address ends in
/// digits that read as the port, that text is parsed to its encoding, and the last two bytes of the
/// encoding make up the port.
pub proof fn law_listening_call(port: u16, text: String, address: Multiaddr, bytes: &[u8])
    requires
        call_ensures(listening_address_text, (port,), text),
        call_ensures(listening_address, (port,), address),
        call_ensures(Multiaddr::as_bytes, (&address,), bytes),
    ensures
        text@.take(19) == "/ip4/127.0.0.1/tcp/"@,
        number(text@.skip(19)) == port,
        text@.len() > 20 ==> text@[19] != '0',
        forall|i: int| 19 <= i < text@.len() ==> '0' <= #[trigger] text@[i] <= '9',
        multiaddr_of_text(text@) == Some(bytes@),
        bytes@.len() == 8,
        bytes@.take(6) == seq![4u8, 127, 0, 0, 1, 6],
        bytes@[6] * 256 + bytes@[7] == port,
{
    crate::effects::law_listening_address(port);
}

/// A table without peers has no actor for anybody.
pub proof fn law_empty_table<A>(table: PeerTable<A>, asked: PeerId, found: Option<&Arc<A>>)
    requires
        call_ensures(PeerTable::<A>::new, (), table),
        call_ensures(PeerTable::<A>::get, (&table, &asked), found),
    ensures
        found is None,
{
}

/// An actor that is put into the table is found under its id, whatever the table held before, and
/// under every other id the same is found as before.
pub proof fn law_insert_then_get<A>(
    table: &mut PeerTable<A>,
    id: PeerId,
    actor: Arc<A>,
    asked: PeerId,
    before: Option<&Arc<A>>,
    found: Option<&Arc<A>>,
)
    requires
        call_ensures(PeerTable::<A>::get, (&*old(table), &asked), before),
        call_ensures(PeerTable::<A>::insert, (table, id, actor), ()),
        call_ensures(PeerTable::<A>::get, (&*final(table), &asked), found),
    ensures
        asked@ == id@ ==> found == Some(&actor),
        asked@ != id@ ==> found == before,
{
}

/// A peer that is taken out of the table is no longer found, what is handed back is the actor that
/// was found before, and under every other id the same is found as before.
pub proof fn law_remove_then_get<A>(
    table: &mut PeerTable<A>,
    id: PeerId,
    removed: Option<Arc<A>>,
    asked: PeerId,
    before: Option<&Arc<A>>,
    found: Option<&Arc<A>>,
)
    requires
        call_ensures(PeerTable::<A>::get, (&*old(table), &asked), before),
        call_ensures(PeerTable::<A>::remove, (table, &id), removed),
        call_ensures(PeerTable::<A>::get, (&*final(table), &asked), found),
    ensures
        asked@ == id@ ==> found is None,
        asked@ == id@ ==> (match before {
            Some(actor) => removed == Some(*actor),
            None => removed is None,
        }),
        asked@ != id@ ==> found == before,
{
}

/// The node starts with the channel protocol, on the listening address of its port and under the
/// id that is derived from all the bytes of its key. It knows nobody.
pub proof fn law_start<E, A>(
    network: NetworkActor<E>,
    port: u16,
    key: PublicKey,
    plan: StartPlan<A>,
    address: Multiaddr,
    own: &PeerId,
    asked: PeerId,
    lookup: PeerLookup<A>,
)
    requires
        call_ensures(NetworkActor::<E>::pre_start::<A>, (&network, port, &key), plan),
        call_ensures(listening_address, (port,), address),
        call_ensures(NetworkActorState::<A>::peer_id, (&plan.state,), own),
        call_ensures(NetworkActorState::<A>::get_or_create_peer, (&plan.state, asked), lookup),
    ensures
        plan.protocol_id == 42,
        plan.listening_address@ == address@,
        own@ == peer_id_of_key(key.raw@),
        lookup == PeerLookup::<A>::Create(asked),
{
}

/// A state gives back the id that it was made with, and knows nobody.
pub proof fn law_new_state<A>(
    id: PeerId,
    state: NetworkActorState<A>,
    own: &PeerId,
    asked: PeerId,
    lookup: PeerLookup<A>,
)
    requires
        call_ensures(NetworkActorState::<A>::new, (id,), state),
        call_ensures(NetworkActorState::<A>::peer_id, (&state,), own),
        call_ensures(NetworkActorState::<A>::get_or_create_peer, (&state, asked), lookup),
    ensures
        own@ == id@,
        lookup == PeerLookup::<A>::Create(asked),
{
}

/// An actor that is added is handed back and found under its id from then on. Every other peer is
/// looked up as before, and the node keeps its own id.
pub proof fn law_add_peer<A>(
    state: &mut NetworkActorState<A>,
    id: PeerId,
    actor: Arc<A>,
    same: Arc<A>,
    asked: PeerId,
    before: PeerLookup<A>,
    after: PeerLookup<A>,
    own_before: &PeerId,
    own_after: &PeerId,
)
    requires
        call_ensures(NetworkActorState::<A>::get_or_create_peer, (&*old(state), asked), before),
        call_ensures(NetworkActorState::<A>::peer_id, (&*old(state),), own_before),
        call_ensures(NetworkActorState::<A>::add_peer, (state, id, actor), same),
        call_ensures(NetworkActorState::<A>::get_or_create_peer, (&*final(state), asked), after),
        call_ensures(NetworkActorState::<A>::peer_id, (&*final(state),), own_after),
    ensures
        same == actor,
        asked@ == id@ ==> after == PeerLookup::Found(actor),
        asked@ != id@ ==> after == before,
        own_after@ == own_before@,
{
}

/// Once its actor was spawned, a new peer is found with that actor. Every other peer is looked up
/// as before, and the node keeps its own id. The event actor hears of the address first, and the
/// peer actor of the session after that.
pub proof fn law_spawned_peer_is_found<E, A, M, T>(
    network: NetworkActor<E>,
    request_id: Option<NetworkRequestId>,
    id: PeerId,
    session: SessionContext,
    actor: Arc<A>,
    state: &mut NetworkActorState<A>,
    actions: Vec<NetworkAction<A, M, T>>,
    asked: PeerId,
    before: PeerLookup<A>,
    after: PeerLookup<A>,
    own_before: &PeerId,
    own_after: &PeerId,
)
    requires
        call_ensures(NetworkActorState::<A>::get_or_create_peer, (&*old(state), asked), before),
        call_ensures(NetworkActorState::<A>::peer_id, (&*old(state),), own_before),
        call_ensures(
            NetworkActor::<E>::peer_spawned::<A, M, T>,
            (&network, request_id, id, session, actor, state),
            actions,
        ),
        call_ensures(NetworkActorState::<A>::get_or_create_peer, (&*final(state), asked), after),
        call_ensures(NetworkActorState::<A>::peer_id, (&*final(state),), own_after),
    ensures
        asked@ == id@ ==> after == PeerLookup::Found(actor),
        asked@ != id@ ==> after == before,
        own_after@ == own_before@,
        ({
            let event = NetworkServiceEvent::PeerConnected(session.address);
            actions@ == seq![
                NetworkAction::<A, M, T>::Emit(
                    EventActorMessage::ProcessEvent(
                        match request_id {
                            Some(answered) => Event::NetworkResponse(
                                NetworkResponse {
                                    id: answered,
                                    response: NetworkActorEvent::NetworkServiceEvent(event),
                                },
                            ),
                            None => Event::NetworkServiceEvent(event),
                        },
                    ),
                ),
                NetworkAction::<A, M, T>::SendToPeer {
                    actor,
                    message: PeerActorMessage::Connected(session),
                },
            ]
        }),
{
}

/// A peer is looked up after a message as before it, unless the message says that it disconnected:
/// then it is found no more. The node keeps its own id.
pub proof fn law_lookup_after_message<E, A, M, T>(
    network: NetworkActor<E>,
    message: NetworkActorMessage<M, T>,
    state: &mut NetworkActorState<A>,
    actions: Vec<NetworkAction<A, M, T>>,
    asked: PeerId,
    before: PeerLookup<A>,
    after: PeerLookup<A>,
    own_before: &PeerId,
    own_after: &PeerId,
)
    requires
        call_ensures(NetworkActorState::<A>::get_or_create_peer, (&*old(state), asked), before),
        call_ensures(NetworkActorState::<A>::peer_id, (&*old(state),), own_before),
        call_ensures(
            NetworkActor::<E>::handle::<A, M, T>,
            (&network, message, state),
            actions,
        ),
        call_ensures(NetworkActorState::<A>::get_or_create_peer, (&*final(state), asked), after),
        call_ensures(NetworkActorState::<A>::peer_id, (&*final(state),), own_after),
    ensures
        own_after@ == own_before@,
        message matches NetworkActorMessage::Event(NetworkActorEvent::PeerDisconnected(id, _))
            ==> after == (if asked@ == id@ {
            PeerLookup::Create(asked)
        } else {
            before
        }),
        message matches NetworkActorMessage::Response(_, NetworkActorEvent::PeerDisconnected(id, _))
            ==> after == (if asked@ == id@ {
            PeerLookup::Create(asked)
        } else {
            before
        }),
        !(message matches NetworkActorMessage::Event(NetworkActorEvent::PeerDisconnected(_, _)))
            && !(message matches NetworkActorMessage::Response(
            _,
            NetworkActorEvent::PeerDisconnected(_, _),
        )) ==> after == before,
{
}

/// What is commanded about a peer is done with the actor under which the peer is looked up, and
/// refused if there is none.
pub proof fn law_command_follows_lookup<E, A, M, T>(
    network: NetworkActor<E>,
    message: NetworkActorMessage<M, T>,
    command: NetworkActorCommand<M, T>,
    request: NetworkRequestId,
    state: &mut NetworkActorState<A>,
    actions: Vec<NetworkAction<A, M, T>>,
    asked: PeerId,
    lookup: PeerLookup<A>,
)
    requires
        call_ensures(NetworkActorState::<A>::get_or_create_peer, (&*old(state), asked), lookup),
        message == NetworkActorMessage::<M, T>::Command(command) || message
            == NetworkActorMessage::<M, T>::Request(request, command),
        call_ensures(
            NetworkActor::<E>::handle::<A, M, T>,
            (&network, message, state),
            actions,
        ),
    ensures
        command matches NetworkActorCommand::ControlPcnChannel(ChannelCommand::OpenChannel(open))
            ==> open.peer_id == asked ==> actions@ == seq![
            match lookup {
                PeerLookup::Found(peer_actor) => NetworkAction::<A, M, T>::SpawnChannel {
                    peer_actor,
                    parameter: ChannelInitializationParameter::OpenChannelCommand(open),
                },
                PeerLookup::Create(_) => NetworkAction::Refuse(Refusal::ChannelPeerNotFound(asked)),
            },
        ],
        command matches NetworkActorCommand::SendPcnMessage(to) ==> to.peer_id == asked
            ==> actions@ == seq![
            match lookup {
                PeerLookup::Found(actor) => NetworkAction::<A, M, T>::SendToPeer {
                    actor,
                    message: PeerActorMessage::SendMessage(to.message),
                },
                PeerLookup::Create(_) => NetworkAction::Refuse(Refusal::ReceiverNotFound(asked)),
            },
        ],
        command matches NetworkActorCommand::SendPcnMessageToSession(to) ==> actions@ == seq![
            NetworkAction::<A, M, T>::SendToSession {
                session_id: to.session_id,
                protocol_id: 42,
                payload: to.message,
            },
        ],
        command matches NetworkActorCommand::ConnectPeer(address) ==> actions@ == seq![
            NetworkAction::<A, M, T>::Dial(address),
        ],
{
}

/// What is told of a peer goes by how the peer is looked up: a new one gets an actor, a known one
/// is not connected twice, its actor hears of what it sends and of its end, and nothing is done
/// about the messages and the end of an unknown one.
pub proof fn law_event_follows_lookup<E, A, M, T>(
    network: NetworkActor<E>,
    message: NetworkActorMessage<M, T>,
    request_id: Option<NetworkRequestId>,
    event: NetworkActorEvent<M>,
    state: &mut NetworkActorState<A>,
    actions: Vec<NetworkAction<A, M, T>>,
    asked: PeerId,
    lookup: PeerLookup<A>,
)
    requires
        call_ensures(NetworkActorState::<A>::get_or_create_peer, (&*old(state), asked), lookup),
        match request_id {
            Some(id) => message == NetworkActorMessage::<M, T>::Response(id, event),
            None => message == NetworkActorMessage::<M, T>::Event(event),
        },
        call_ensures(
            NetworkActor::<E>::handle::<A, M, T>,
            (&network, message, state),
            actions,
        ),
    ensures
        event matches NetworkActorEvent::PeerConnected(id, session) ==> id == asked ==> actions@
            == seq![
            match lookup {
                PeerLookup::Create(_) => NetworkAction::<A, M, T>::SpawnPeer {
                    request_id,
                    id,
                    session,
                },
                PeerLookup::Found(_) => NetworkAction::Refuse(Refusal::DuplicatedPeer(id)),
            },
        ],
        event matches NetworkActorEvent::PeerMessage(id, session, sent) ==> id == asked ==> actions@
            == seq![
            match lookup {
                PeerLookup::Found(actor) => NetworkAction::<A, M, T>::SendToPeer {
                    actor,
                    message: PeerActorMessage::ReceivedMessage(session, sent),
                },
                PeerLookup::Create(_) => NetworkAction::Refuse(Refusal::SenderNotFound(id)),
            },
        ],
        event matches NetworkActorEvent::PeerDisconnected(id, session) ==> id == asked
            ==> lookup is Create ==> actions@ == seq![
            NetworkAction::<A, M, T>::Refuse(Refusal::RemovedPeerNotFound(id)),
        ],
        event matches NetworkActorEvent::PeerDisconnected(id, session) ==> id == asked ==> (
        lookup matches PeerLookup::Found(actor) ==> actions@.len() == 2 && actions@[1]
            == NetworkAction::<A, M, T>::SendToPeer {
            actor,
            message: PeerActorMessage::Disconnected(session),
        }),
{
}

/// The announcement of an end, and that of a service event, is what the network actor emits on
/// its own for the same event and the same request.
pub proof fn law_handle_emits<E, A, M, T>(
    network: NetworkActor<E>,
    message: NetworkActorMessage<M, T>,
    request_id: Option<NetworkRequestId>,
    event: NetworkActorEvent<M>,
    state: &mut NetworkActorState<A>,
    actions: Vec<NetworkAction<A, M, T>>,
    emitted: EventActorMessage<M>,
)
    requires
        match request_id {
            Some(id) => message == NetworkActorMessage::<M, T>::Response(id, event),
            None => message == NetworkActorMessage::<M, T>::Event(event),
        },
        match event {
            NetworkActorEvent::NetworkServiceEvent(e) => call_ensures(
                NetworkActor::<E>::emit_event_or_response::<M>,
                (&network, request_id, e),
                emitted,
            ),
            NetworkActorEvent::PeerDisconnected(id, session) => old(state).known().contains_key(id@)
                && call_ensures(
                NetworkActor::<E>::emit_event_or_response::<M>,
                (&network, request_id, NetworkServiceEvent::PeerDisConnected(session.address)),
                emitted,
            ),
            _ => false,
        },
        call_ensures(
            NetworkActor::<E>::handle::<A, M, T>,
            (&network, message, state),
            actions,
        ),
    ensures
        actions@.len() == (if event is NetworkServiceEvent {
            1int
        } else {
            2
        }),
        actions@[0] == NetworkAction::<A, M, T>::Emit(emitted),
{
}

/// What is emitted of an event holds it as it is: under the id of the request that it answers, if
/// it answers one, and without an id otherwise.
pub proof fn law_emitted<E, M>(
    network: NetworkActor<E>,
    id: NetworkRequestId,
    event: NetworkServiceEvent,
    message: EventActorMessage<M>,
)
    ensures
        call_ensures(NetworkActor::<E>::emit_event::<M>, (&network, event), message) || call_ensures(
            NetworkActor::<E>::emit_event_or_response::<M>,
            (&network, None, event),
            message,
        ) ==> message == EventActorMessage::<M>::ProcessEvent(Event::NetworkServiceEvent(event)),
        call_ensures(NetworkActor::<E>::emit_response::<M>, (&network, id, event), message)
            || call_ensures(
            NetworkActor::<E>::emit_event_or_response::<M>,
            (&network, Some(id), event),
            message,
        ) ==> message == EventActorMessage::<M>::ProcessEvent(
            Event::NetworkResponse(
                NetworkResponse { id, response: NetworkActorEvent::NetworkServiceEvent(event) },
            ),
        ),
{
}

/// The handle keeps the actor that it reports to, and passes service events on as they are.
pub proof fn law_handle_passes_on<N, M, T>(
    actor: N,
    handle: Handle<N>,
    id: NetworkRequestId,
    event: NetworkServiceEvent,
    message: NetworkActorMessage<M, T>,
)
    ensures
        call_ensures(Handle::<N>::new, (actor,), handle) ==> handle.actor == actor,
        call_ensures(Handle::<N>::emit_event::<M, T>, (&handle, event), message) ==> message
            == NetworkActorMessage::<M, T>::Event(NetworkActorEvent::NetworkServiceEvent(event)),
        call_ensures(Handle::<N>::emit_response::<M, T>, (&handle, id, event), message) ==> message
            == NetworkActorMessage::<M, T>::Response(
            id,
            NetworkActorEvent::NetworkServiceEvent(event),
        ),
{
}

/// What the service says of itself is passed on as an event that ends in its own words, with the
/// kind of the event in front.
pub proof fn law_service_text<N, M, T>(
    handle: Handle<N>,
    said: &str,
    message: NetworkActorMessage<M, T>,
)
    ensures
        call_ensures(Handle::<N>::handle_error::<M, T>, (&handle, said), message) ==> (
        message matches NetworkActorMessage::Event(
            NetworkActorEvent::NetworkServiceEvent(NetworkServiceEvent::ServiceError(text)),
        ) && text@.len() == 15 + said@.len() && text@.take(15) == "Service error: "@ && text@.skip(
            15,
        ) == said@),
        call_ensures(Handle::<N>::handle_event::<M, T>, (&handle, said), message) ==> (
        message matches NetworkActorMessage::Event(
            NetworkActorEvent::NetworkServiceEvent(NetworkServiceEvent::ServiceEvent(text)),
        ) && text@.len() == 15 + said@.len() && text@.take(15) == "Service event: "@ && text@.skip(
            15,
        ) == said@),
{
    reveal_strlit("Service error: ");
    reveal_strlit("Service event: ");
    let error = "Service error: "@ + said@;
    let event = "Service event: "@ + said@;
    assert(error.take(15) =~= "Service error: "@);
    assert(error.skip(15) =~= said@);
    assert(event.take(15) =~= "Service event: "@);
    assert(event.skip(15) =~= said@);
}

/// The opening of a session, its end and what comes in over it are reported of the node that owns
/// the key of the session, which is the node that starts with that key. Nothing is reported of a
/// session without a key.
pub proof fn law_session_is_reported<N, E, A, M, T>(
    handle: Handle<N>,
    session: SessionContext,
    network: NetworkActor<E>,
    port: u16,
    key: PublicKey,
    plan: StartPlan<A>,
    remote: &PeerId,
    message: Option<NetworkActorMessage<M, T>>,
)
    requires
        call_ensures(NetworkActor::<E>::pre_start::<A>, (&network, port, &key), plan),
        call_ensures(NetworkActorState::<A>::peer_id, (&plan.state,), remote),
    ensures
        call_ensures(Handle::<N>::connected::<M, T>, (&handle, session), message) ==> {
            &&& session.remote_pubkey is None ==> message is None
            &&& session.remote_pubkey == Some(key) ==> (message matches Some(
                NetworkActorMessage::Event(NetworkActorEvent::PeerConnected(id, s)),
            ) && id@ == remote@ && id@ == peer_id_of_key(key.raw@) && s == session)
        },
        call_ensures(Handle::<N>::disconnected::<M, T>, (&handle, session), message) ==> {
            &&& session.remote_pubkey is None ==> message is None
            &&& session.remote_pubkey == Some(key) ==> (message matches Some(
                NetworkActorMessage::Event(NetworkActorEvent::PeerDisconnected(id, s)),
            ) && id@ == remote@ && id@ == peer_id_of_key(key.raw@) && s == session)
        },
{
}

/// What comes in over a session is read by `decode` in all the data, and reported as it was read,
/// of the node that owns the key of the session. Nothing is reported where nothing was read, or
/// where the session has no key.
pub proof fn law_data_is_reported<N, M, T, D: FnOnce(&[u8]) -> Option<M>>(
    handle: Handle<N>,
    session: SessionContext,
    data: &[u8],
    decode: D,
    message: Option<NetworkActorMessage<M, T>>,
)
    requires
        call_ensures(
            Handle::<N>::received::<M, T, D>,
            (&handle, session, data, decode),
            message,
        ),
    ensures
        exists|decoded: Option<M>| #[trigger]
            call_ensures(decode, (data,), decoded) && match (session.remote_pubkey, decoded) {
                (Some(key), Some(sent)) => message matches Some(
                    NetworkActorMessage::Event(NetworkActorEvent::PeerMessage(id, s, m)),
                ) && id@ == peer_id_of_key(key.raw@) && s == session && m == sent,
                _ => message is None,
            },
{
}

/// What is reported in the name of a node names that node, and holds the session and what was read
/// as they are. Nothing is reported in nobody's name, nor where nothing was read.
pub proof fn law_named_reports<N, M, T>(
    handle: Handle<N>,
    id: PeerId,
    session: SessionContext,
    sent: M,
    decoded: Option<M>,
    message: Option<NetworkActorMessage<M, T>>,
)
    ensures
        call_ensures(Handle::<N>::connected_as::<M, T>, (&handle, Some(id), session), message)
            ==> message == Some(
            NetworkActorMessage::<M, T>::Event(NetworkActorEvent::PeerConnected(id, session)),
        ),
        call_ensures(Handle::<N>::disconnected_as::<M, T>, (&handle, Some(id), session), message)
            ==> message == Some(
            NetworkActorMessage::<M, T>::Event(NetworkActorEvent::PeerDisconnected(id, session)),
        ),
        call_ensures(
            Handle::<N>::received_from::<M, T>,
            (&handle, Some(id), session, Some(sent)),
            message,
        ) ==> message == Some(
            NetworkActorMessage::<M, T>::Event(NetworkActorEvent::PeerMessage(id, session, sent)),
        ),
        call_ensures(Handle::<N>::connected_as::<M, T>, (&handle, None, session), message)
            ==> message is None,
        call_ensures(Handle::<N>::disconnected_as::<M, T>, (&handle, None, session), message)
            ==> message is None,
        call_ensures(
            Handle::<N>::received_from::<M, T>,
            (&handle, None, session, decoded),
            message,
        ) ==> message is None,
        call_ensures(
            Handle::<N>::received_from::<M, T>,
            (&handle, Some(id), session, None),
            message,
        ) ==> message is None,
{
}

} // verus!
