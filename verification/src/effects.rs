//! What each operation does, in terms of what goes in and what comes out.

use crate::address::{decimal, listening_bytes, listening_text, Multiaddr};
use crate::handle::{remote_peer_id, reports_connected, reports_disconnected, reports_received};
use crate::identity::{peer_id_of_key, valid_peer_id, PeerId};
use crate::message::{
    internal_form, ChannelCommand, ChannelInitializationParameter, Event, EventActorMessage,
    InternalNetworkActorMessage, NetworkActorCommand, NetworkActorEvent, NetworkActorMessage,
    NetworkRequestId, NetworkResponse, NetworkServiceEvent, OpenChannelCommand,
    PCNMessageWithPeerId, PCNMessageWithSessionId, PeerActorMessage,
};
use crate::network::{
    announcement, event_message, peer_lookup, reaction, response_message, spawned_reaction,
    still_known, NetworkAction, PeerLookup, Refusal,
};
use crate::session::{SessionContext, PCN_PROTOCOL_ID};
use std::sync::Arc;
use vstd::prelude::*;

verus! {

/// A channel with a known peer is opened: one channel actor is spawned, with the actor of that peer
/// and the command as it came. With an unknown peer nothing is opened. Whether somebody waits for
/// the response makes no difference.
pub proof fn law_open_channel<A, M, T>(
    known: Map<Seq<u8>, Arc<A>>,
    open: OpenChannelCommand<T>,
    id: NetworkRequestId,
    message: NetworkActorMessage<M, T>,
)
    requires
        ({
            let command = NetworkActorCommand::ControlPcnChannel(ChannelCommand::OpenChannel(open));
            message == NetworkActorMessage::<M, T>::Command(command) || message
                == NetworkActorMessage::<M, T>::Request(id, command)
        }),
    ensures
        known.contains_key(open.peer_id@) ==> reaction(known, message) == seq![
            NetworkAction::<A, M, T>::SpawnChannel {
                peer_actor: known[open.peer_id@],
                parameter: ChannelInitializationParameter::OpenChannelCommand(open),
            },
        ],
        !known.contains_key(open.peer_id@) ==> reaction(known, message) == seq![
            NetworkAction::<A, M, T>::Refuse(Refusal::ChannelPeerNotFound(open.peer_id)),
        ],
        still_known(known, message) == known,
{
}

/// A message for a known peer goes to the actor of that peer as it is, once and nowhere else. One
/// for an unknown peer is refused.
pub proof fn law_send_to_peer<A, M, T>(
    known: Map<Seq<u8>, Arc<A>>,
    to: PCNMessageWithPeerId<M>,
    id: NetworkRequestId,
    message: NetworkActorMessage<M, T>,
)
    requires
        message == NetworkActorMessage::<M, T>::Command(NetworkActorCommand::SendPcnMessage(to))
            || message == NetworkActorMessage::<M, T>::Request(
            id,
            NetworkActorCommand::SendPcnMessage(to),
        ),
    ensures
        known.contains_key(to.peer_id@) ==> reaction(known, message) == seq![
            NetworkAction::<A, M, T>::SendToPeer {
                actor: known[to.peer_id@],
                message: PeerActorMessage::SendMessage(to.message),
            },
        ],
        !known.contains_key(to.peer_id@) ==> reaction(known, message) == seq![
            NetworkAction::<A, M, T>::Refuse(Refusal::ReceiverNotFound(to.peer_id)),
        ],
        still_known(known, message) == known,
{
}

/// A message for a session goes to that session as it is, over the channel protocol, whoever is
/// known.
pub proof fn law_send_to_session<A, M, T>(
    known: Map<Seq<u8>, Arc<A>>,
    to: PCNMessageWithSessionId<M>,
    id: NetworkRequestId,
    message: NetworkActorMessage<M, T>,
)
    requires
        ({
            let command = NetworkActorCommand::SendPcnMessageToSession(to);
            message == NetworkActorMessage::<M, T>::Command(command) || message
                == NetworkActorMessage::<M, T>::Request(id, command)
        }),
    ensures
        reaction(known, message) == seq![
            NetworkAction::<A, M, T>::SendToSession {
                session_id: to.session_id,
                protocol_id: 42,
                payload: to.message,
            },
        ],
        PCN_PROTOCOL_ID == 42,
        still_known(known, message) == known,
{
}

/// A command to connect dials the address that it names, whoever is known.
pub proof fn law_dial<A, M, T>(
    known: Map<Seq<u8>, Arc<A>>,
    address: Multiaddr,
    id: NetworkRequestId,
    message: NetworkActorMessage<M, T>,
)
    requires
        message == NetworkActorMessage::<M, T>::Command(NetworkActorCommand::ConnectPeer(address))
            || message == NetworkActorMessage::<M, T>::Request(
            id,
            NetworkActorCommand::ConnectPeer(address),
        ),
    ensures
        reaction(known, message) == seq![NetworkAction::<A, M, T>::Dial(address)],
        still_known(known, message) == known,
{
}

/// A peer that connects and is not known gets an actor: under its own id, for its own session and
/// in the name of the request that the event answers. One that is known is refused. Nobody becomes
/// known or unknown by the event alone.
pub proof fn law_peer_connected<A, M, T>(
    known: Map<Seq<u8>, Arc<A>>,
    id: PeerId,
    session: SessionContext,
    request: NetworkRequestId,
)
    ensures
        ({
            let event = NetworkActorEvent::PeerConnected(id, session);
            let told = NetworkActorMessage::<M, T>::Event(event);
            let answered = NetworkActorMessage::<M, T>::Response(request, event);
            let refused = seq![NetworkAction::<A, M, T>::Refuse(Refusal::DuplicatedPeer(id))];
            &&& !known.contains_key(id@) ==> reaction(known, told) == seq![
                NetworkAction::<A, M, T>::SpawnPeer { request_id: None, id, session },
            ]
            &&& !known.contains_key(id@) ==> reaction(known, answered) == seq![
                NetworkAction::<A, M, T>::SpawnPeer { request_id: Some(request), id, session },
            ]
            &&& known.contains_key(id@) ==> reaction(known, told) == refused
            &&& known.contains_key(id@) ==> reaction(known, answered) == refused
            &&& still_known(known, told) == known
            &&& still_known(known, answered) == known
        }),
{
}

/// The actor that was spawned for a new peer hears of the session as it is, after the event actor
/// heard of the address of the session: as the response to the request, if there is one, and as an
/// event otherwise.
pub proof fn law_peer_spawned<A, M, T>(
    session: SessionContext,
    actor: Arc<A>,
    request: NetworkRequestId,
)
    ensures
        spawned_reaction::<A, M, T>(None, session, actor) == seq![
            NetworkAction::<A, M, T>::Emit(
                EventActorMessage::ProcessEvent(
                    Event::NetworkServiceEvent(NetworkServiceEvent::PeerConnected(session.address)),
                ),
            ),
            NetworkAction::<A, M, T>::SendToPeer {
                actor,
                message: PeerActorMessage::Connected(session),
            },
        ],
        spawned_reaction::<A, M, T>(Some(request), session, actor) == seq![
            NetworkAction::<A, M, T>::Emit(
                EventActorMessage::ProcessEvent(
                    Event::NetworkResponse(
                        NetworkResponse {
                            id: request,
                            response: NetworkActorEvent::NetworkServiceEvent(
                                NetworkServiceEvent::PeerConnected(session.address),
                            ),
                        },
                    ),
                ),
            ),
            NetworkAction::<A, M, T>::SendToPeer {
                actor,
                message: PeerActorMessage::Connected(session),
            },
        ],
{
}

/// A known peer that disconnects is unknown from then on, and every other peer stays with its
/// actor. The event actor hears of the address of the session: as the response to the request, if
/// there is one, and as an event otherwise. After that the actor of the peer hears of the session
/// as it is. A peer that is not known is refused, and nothing changes.
pub proof fn law_peer_disconnected<A, M, T>(
    known: Map<Seq<u8>, Arc<A>>,
    id: PeerId,
    session: SessionContext,
    request: NetworkRequestId,
    other: Seq<u8>,
    message: NetworkActorMessage<M, T>,
)
    requires
        message == NetworkActorMessage::<M, T>::Event(
            NetworkActorEvent::PeerDisconnected(id, session),
        ) || message == NetworkActorMessage::<M, T>::Response(
            request,
            NetworkActorEvent::PeerDisconnected(id, session),
        ),
    ensures
        known.contains_key(id@) && message is Event ==> reaction(known, message) == seq![
            NetworkAction::<A, M, T>::Emit(
                EventActorMessage::ProcessEvent(
                    Event::NetworkServiceEvent(
                        NetworkServiceEvent::PeerDisConnected(session.address),
                    ),
                ),
            ),
            NetworkAction::<A, M, T>::SendToPeer {
                actor: known[id@],
                message: PeerActorMessage::Disconnected(session),
            },
        ],
        known.contains_key(id@) && message is Response ==> reaction(known, message) == seq![
            NetworkAction::<A, M, T>::Emit(
                EventActorMessage::ProcessEvent(
                    Event::NetworkResponse(
                        NetworkResponse {
                            id: request,
                            response: NetworkActorEvent::NetworkServiceEvent(
                                NetworkServiceEvent::PeerDisConnected(session.address),
                            ),
                        },
                    ),
                ),
            ),
            NetworkAction::<A, M, T>::SendToPeer {
                actor: known[id@],
                message: PeerActorMessage::Disconnected(session),
            },
        ],
        !known.contains_key(id@) ==> reaction(known, message) == seq![
            NetworkAction::<A, M, T>::Refuse(Refusal::RemovedPeerNotFound(id)),
        ],
        !known.contains_key(id@) ==> still_known(known, message) == known,
        !still_known(known, message).contains_key(id@),
        other != id@ ==> still_known(known, message).contains_key(other) == known.contains_key(
            other,
        ),
        other != id@ && known.contains_key(other) ==> still_known(known, message)[other]
            == known[other],
{
    if !known.contains_key(id@) {
        assert(known.remove(id@) =~= known);
    }
}

/// What a known peer sends reaches the actor of that peer as it came, once and with the session
/// that it came over. What an unknown peer sends is refused.
pub proof fn law_peer_sends<A, M, T>(
    known: Map<Seq<u8>, Arc<A>>,
    id: PeerId,
    session: SessionContext,
    sent: M,
    request: NetworkRequestId,
    message: NetworkActorMessage<M, T>,
)
    requires
        message == NetworkActorMessage::<M, T>::Event(
            NetworkActorEvent::PeerMessage(id, session, sent),
        ) || message == NetworkActorMessage::<M, T>::Response(
            request,
            NetworkActorEvent::PeerMessage(id, session, sent),
        ),
    ensures
        known.contains_key(id@) ==> reaction(known, message) == seq![
            NetworkAction::<A, M, T>::SendToPeer {
                actor: known[id@],
                message: PeerActorMessage::ReceivedMessage(session, sent),
            },
        ],
        !known.contains_key(id@) ==> reaction(known, message) == seq![
            NetworkAction::<A, M, T>::Refuse(Refusal::SenderNotFound(id)),
        ],
        still_known(known, message) == known,
{
}

/// The event actor hears of every service event as it is, whoever is known: as the response to the
/// request that it answers, if it answers one, and as an event otherwise.
pub proof fn law_service_event<A, M, T>(
    known: Map<Seq<u8>, Arc<A>>,
    event: NetworkServiceEvent,
    request: NetworkRequestId,
)
    ensures
        ({
            let told = NetworkActorMessage::<M, T>::Event(
                NetworkActorEvent::NetworkServiceEvent(event),
            );
            let answered = NetworkActorMessage::<M, T>::Response(
                request,
                NetworkActorEvent::NetworkServiceEvent(event),
            );
            &&& reaction(known, told) == seq![
                NetworkAction::<A, M, T>::Emit(
                    EventActorMessage::ProcessEvent(Event::NetworkServiceEvent(event)),
                ),
            ]
            &&& reaction(known, answered) == seq![
                NetworkAction::<A, M, T>::Emit(
                    EventActorMessage::ProcessEvent(
                        Event::NetworkResponse(
                            NetworkResponse {
                                id: request,
                                response: NetworkActorEvent::NetworkServiceEvent(event),
                            },
                        ),
                    ),
                ),
            ]
            &&& still_known(known, told) == known
            &&& still_known(known, answered) == known
        }),
{
}

/// An announcement holds the event as it is: under the id of the request that it answers, if it
/// answers one, and without an id otherwise.
pub proof fn law_announcement<M>(id: NetworkRequestId, event: NetworkServiceEvent)
    ensures
        ({
            let response = EventActorMessage::<M>::ProcessEvent(
                Event::NetworkResponse(
                    NetworkResponse { id, response: NetworkActorEvent::NetworkServiceEvent(event) },
                ),
            );
            announcement::<M>(Some(id), event) == response && response_message::<M>(id, event)
                == response
        }),
        ({
            let told = EventActorMessage::<M>::ProcessEvent(Event::NetworkServiceEvent(event));
            announcement::<M>(None, event) == told && event_message::<M>(event) == told
        }),
{
}

/// A peer is looked up under its own id: its actor is found if it is known, and otherwise an actor
/// has to be created for just this peer.
pub proof fn law_lookup<A>(known: Map<Seq<u8>, Arc<A>>, id: PeerId)
    ensures
        known.contains_key(id@) ==> peer_lookup(known, id) == PeerLookup::Found(known[id@]),
        !known.contains_key(id@) ==> peer_lookup(known, id) == PeerLookup::<A>::Create(id),
{
}

/// A message and its internal form hold the same command or event, and the same request id if there
/// is one.
pub proof fn law_internal_form<M, T>(
    id: NetworkRequestId,
    command: NetworkActorCommand<M, T>,
    event: NetworkActorEvent<M>,
)
    ensures
        internal_form(NetworkActorMessage::<M, T>::Command(command))
            == InternalNetworkActorMessage::<M, T>::Command(None, command),
        internal_form(NetworkActorMessage::<M, T>::Request(id, command))
            == InternalNetworkActorMessage::<M, T>::Command(Some(id), command),
        internal_form(NetworkActorMessage::<M, T>::Event(event))
            == InternalNetworkActorMessage::<M, T>::Event(None, event),
        internal_form(NetworkActorMessage::<M, T>::Response(id, event))
            == InternalNetworkActorMessage::<M, T>::Event(Some(id), event),
{
}

/// The remote node of a session is the one whose id is derived from all the bytes of the session's
/// key. A session without a key has no remote node.
pub proof fn law_remote_peer(session: SessionContext)
    ensures
        session.remote_pubkey matches Some(key) ==> remote_peer_id(session) == Some(
            peer_id_of_key(key.raw@),
        ),
        session.remote_pubkey is None ==> remote_peer_id(session) is None,
{
}

/// What is reported of a session names the node that owns its key, and holds the session and what
/// was sent over it as they are. Nothing is reported of a session without a key, nor of data in
/// which nothing was read, and something is reported of every other.
pub proof fn law_reports<M, T>(
    message: Option<NetworkActorMessage<M, T>>,
    session: SessionContext,
    decoded: Option<M>,
)
    ensures
        reports_connected(message, session) && session.remote_pubkey is Some ==> (message matches
            Some(NetworkActorMessage::Event(NetworkActorEvent::PeerConnected(id, s))) && s
            == session && id@ == peer_id_of_key(session.remote_pubkey->0.raw@)),
        reports_disconnected(message, session) && session.remote_pubkey is Some ==> (
        message matches Some(NetworkActorMessage::Event(NetworkActorEvent::PeerDisconnected(id, s)))
            && s == session && id@ == peer_id_of_key(session.remote_pubkey->0.raw@)),
        reports_received(message, session, decoded) && session.remote_pubkey is Some
            && decoded is Some ==> (message matches Some(
            NetworkActorMessage::Event(NetworkActorEvent::PeerMessage(id, s, m)),
        ) && s == session && m == decoded->0 && id@ == peer_id_of_key(
            session.remote_pubkey->0.raw@,
        )),
        reports_connected(message, session) && session.remote_pubkey is None ==> message is None,
        reports_disconnected(message, session) && session.remote_pubkey is None ==> message is None,
        reports_received(message, session, decoded) && (session.remote_pubkey is None
            || decoded is None) ==> message is None,
{
}

/// The number that `text` reads as, if it consists of decimal digits.
pub open spec fn number(text: Seq<char>) -> int
    decreases text.len(),
{
    if text.len() == 0 {
        0
    } else {
        10 * number(text.drop_last()) + (text.last() as int - '0' as int)
    }
}

/// A number in decimal consists of digits, reads as that number and has no leading zero.
pub proof fn law_decimal(n: nat)
    ensures
        decimal(n).len() > 0,
        forall|i: int| 0 <= i < decimal(n).len() ==> '0' <= #[trigger] decimal(n)[i] <= '9',
        number(decimal(n)) == n,
        decimal(n).len() > 1 ==> decimal(n)[0] != '0',
    decreases n,
{
    reveal_with_fuel(number, 2);
    if n >= 10 {
        law_decimal(n / 10);
        assert(decimal(n).drop_last() =~= decimal(n / 10));
        assert(n / 10 < 10 ==> decimal(n / 10).len() == 1 && decimal(n / 10)[0] as int == '0' as int
            + n / 10);
    }
}

/// The text of the listening address is that of the loopback interface and TCP, followed by digits
/// that read as the port. Its encoding is the code of IPv4, the octets of the loopback interface,
/// the code of TCP, and two bytes that make up the port.
pub proof fn law_listening_address(port: u16)
    ensures
        ({
            let text = listening_text(port);
            &&& text.len() > 19
            &&& text.take(19) == "/ip4/127.0.0.1/tcp/"@
            &&& forall|i: int| 19 <= i < text.len() ==> '0' <= #[trigger] text[i] <= '9'
            &&& number(text.skip(19)) == port
            &&& text.len() > 20 ==> text[19] != '0'
        }),
        listening_bytes(port).len() == 8,
        listening_bytes(port).take(6) == seq![4u8, 127, 0, 0, 1, 6],
        listening_bytes(port)[6] * 256 + listening_bytes(port)[7] == port,
{
    reveal_strlit("/ip4/127.0.0.1/tcp/");
    let text = listening_text(port);
    let digits = decimal(port as nat);
    law_decimal(port as nat);
    assert(text.skip(19) =~= digits);
    assert(text.take(19) =~= "/ip4/127.0.0.1/tcp/"@);
    assert forall|i: int| 19 <= i < text.len() implies '0' <= #[trigger] text[i] <= '9' by {
        assert(text[i] == digits[i - 19]);
    }
    assert(text[19] == digits[0]);
}

/// The bytes that are a peer id: 0x12, which stands for SHA-256, then the digest length 32, then
/// any 32 bytes; or the same with 0x12 written in ten bytes, whose last is even and not zero.
pub proof fn law_peer_id_bytes(bytes: Seq<u8>)
    ensures
        valid_peer_id(bytes) <==> {
            ||| bytes.len() == 34 && bytes.take(2) == seq![0x12u8, 32]
            ||| bytes.len() == 43 && bytes.take(9) == seq![
                0x92u8,
                0x80,
                0x80,
                0x80,
                0x80,
                0x80,
                0x80,
                0x80,
                0x80,
            ] && 2 <= bytes[9] <= 126 && bytes[9] % 2 == 0 && bytes[10] == 32
        },
{
    let short = seq![0x12u8, 32];
    let long = seq![0x92u8, 0x80, 0x80, 0x80, 0x80, 0x80, 0x80, 0x80, 0x80];
    if bytes.len() == 34 && bytes.take(2) == short {
        assert(bytes[0] == bytes.take(2)[0]);
        assert(bytes[1] == bytes.take(2)[1]);
    }
    if bytes.len() == 43 && bytes.take(9) == long {
        assert forall|i: int| 0 <= i < 9 implies #[trigger] bytes[i] == long[i] by {
            assert(bytes[i] == bytes.take(9)[i]);
        }
    }
    if valid_peer_id(bytes) {
        if bytes.len() == 34 {
            assert(bytes.take(2) =~= short);
        } else {
            assert(bytes.take(9) =~= long);
        }
    }
}

} // verus!
