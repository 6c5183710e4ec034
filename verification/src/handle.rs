//! The callbacks of the p2p service: what each of them tells the network actor.

use crate::identity::{peer_id_of_key, PeerId};
use crate::message::{NetworkActorEvent, NetworkActorMessage, NetworkRequestId, NetworkServiceEvent};
use crate::session::SessionContext;
use vstd::prelude::*;
use vstd::string::StringExecFns;

verus! {

/// The service handle. `N` is the type of a reference to the network actor.
#[derive(Clone, Debug)]
pub struct Handle<N> {
    pub actor: N,
}

/// The id of the node at the other end of `session`, if its key is known.
pub open spec fn remote_peer_id(session: SessionContext) -> Option<Seq<u8>> {
    match session.remote_pubkey {
        Some(key) => Some(peer_id_of_key(key@)),
        None => None,
    }
}

/// Whether `message` reports that the remote node of `session` connected, or says nothing because
/// its key is not known.
pub open spec fn reports_connected<M, T>(
    message: Option<NetworkActorMessage<M, T>>,
    session: SessionContext,
) -> bool {
    match message {
        Some(NetworkActorMessage::Event(NetworkActorEvent::PeerConnected(id, s))) => {
            remote_peer_id(session) == Some(id@) && s == session
        },
        Some(_) => false,
        None => remote_peer_id(session) is None,
    }
}

/// Whether `message` reports that the remote node of `session` disconnected, or says nothing
/// because its key is not known.
pub open spec fn reports_disconnected<M, T>(
    message: Option<NetworkActorMessage<M, T>>,
    session: SessionContext,
) -> bool {
    match message {
        Some(NetworkActorMessage::Event(NetworkActorEvent::PeerDisconnected(id, s))) => {
            remote_peer_id(session) == Some(id@) && s == session
        },
        Some(_) => false,
        None => remote_peer_id(session) is None,
    }
}

/// Whether `message` passes on what the remote node of `session` sent, or says nothing because
/// nothing could be decoded or its key is not known.
pub open spec fn reports_received<M, T>(
    message: Option<NetworkActorMessage<M, T>>,
    session: SessionContext,
    decoded: Option<M>,
) -> bool {
    match message {
        Some(NetworkActorMessage::Event(NetworkActorEvent::PeerMessage(id, s, m))) => {
            remote_peer_id(session) == Some(id@) && s == session && decoded == Some(m)
        },
        Some(_) => false,
        None => remote_peer_id(session) is None || decoded is None,
    }
}

/// The id of the node at the other end of `session`, if its key is known.
fn remote_peer(session: &SessionContext) -> (id: Option<PeerId>)
    ensures
        match id {
            Some(id) => remote_peer_id(*session) == Some(id@),
            None => remote_peer_id(*session) is None,
        },
{
    match &session.remote_pubkey {
        Some(key) => Some(PeerId::from_public_key(key)),
        None => None,
    }
}

impl<N> Handle<N> {
    /// The handle that reports to `actor`.
    pub fn new(actor: N) -> (handle: Self)
        ensures
            handle.actor == actor,
    {
        Handle { actor }
    }

    /// The message for a service event that answers no request.
    pub fn emit_event<M, T>(&self, event: NetworkServiceEvent) -> (message: NetworkActorMessage<
        M,
        T,
    >)
        ensures
            message == NetworkActorMessage::<M, T>::Event(
                NetworkActorEvent::NetworkServiceEvent(event),
            ),
    {
        NetworkActorMessage::new_event(NetworkActorEvent::NetworkServiceEvent(event))
    }

    /// The message for a service event that answers the request `id`.
    pub fn emit_response<M, T>(&self, id: NetworkRequestId, event: NetworkServiceEvent) -> (message:
        NetworkActorMessage<M, T>)
        ensures
            message == NetworkActorMessage::<M, T>::Response(
                id,
                NetworkActorEvent::NetworkServiceEvent(event),
            ),
    {
        NetworkActorMessage::new_response(id, NetworkActorEvent::NetworkServiceEvent(event))
    }

    /// A session opened: the remote node is connected, unless its key is not known.
    pub fn connected<M, T>(&self, session: SessionContext) -> (message: Option<
        NetworkActorMessage<M, T>,
    >)
        ensures
            reports_connected(message, session),
    {
        self.connected_as(remote_peer(&session), session)
    }

    /// A session opened with the node `peer_id`.
    pub fn connected_as<M, T>(&self, peer_id: Option<PeerId>, session: SessionContext) -> (message:
        Option<NetworkActorMessage<M, T>>)
        ensures
            message == (match peer_id {
                Some(id) => Some(
                    NetworkActorMessage::<M, T>::Event(
                        NetworkActorEvent::PeerConnected(id, session),
                    ),
                ),
                None => None,
            }),
    {
        match peer_id {
            Some(id) => Some(
                NetworkActorMessage::new_event(NetworkActorEvent::PeerConnected(id, session)),
            ),
            None => None,
        }
    }

    /// A session closed: the remote node is disconnected, unless its key is not known.
    pub fn disconnected<M, T>(&self, session: SessionContext) -> (message: Option<
        NetworkActorMessage<M, T>,
    >)
        ensures
            reports_disconnected(message, session),
    {
        self.disconnected_as(remote_peer(&session), session)
    }

    /// A session with the node `peer_id` closed.
    pub fn disconnected_as<M, T>(&self, peer_id: Option<PeerId>, session: SessionContext) -> (
    message: Option<NetworkActorMessage<M, T>>)
        ensures
            message == (match peer_id {
                Some(id) => Some(
                    NetworkActorMessage::<M, T>::Event(
                        NetworkActorEvent::PeerDisconnected(id, session),
                    ),
                ),
                None => None,
            }),
    {
        match peer_id {
            Some(id) => Some(
                NetworkActorMessage::new_event(NetworkActorEvent::PeerDisconnected(id, session)),
            ),
            None => None,
        }
    }

    /// Data came in over a session: what `decode` reads in it is passed on. Data that it reads
    /// nothing in, or that comes from a node whose key is not known, is dropped.
    pub fn received<M, T, D: FnOnce(&[u8]) -> Option<M>>(
        &self,
        session: SessionContext,
        data: &[u8],
        decode: D,
    ) -> (message: Option<NetworkActorMessage<M, T>>)
        requires
            call_requires(decode, (data,)),
        ensures
            exists|decoded: Option<M>|
                call_ensures(decode, (data,), decoded) && #[trigger] reports_received(
                    message,
                    session,
                    decoded,
                ),
    {
        let decoded = decode(data);
        let message = self.received_from(remote_peer(&session), session, decoded);
        assert(reports_received(message, session, decoded));
        message
    }

    /// Data came in over a session with the node `peer_id`, and `decoded` is what it holds.
    pub fn received_from<M, T>(
        &self,
        peer_id: Option<PeerId>,
        session: SessionContext,
        decoded: Option<M>,
    ) -> (message: Option<NetworkActorMessage<M, T>>)
        ensures
            message == (match (peer_id, decoded) {
                (Some(id), Some(m)) => Some(
                    NetworkActorMessage::<M, T>::Event(
                        NetworkActorEvent::PeerMessage(id, session, m),
                    ),
                ),
                _ => None,
            }),
    {
        match decoded {
            Some(m) => match peer_id {
                Some(id) => Some(
                    NetworkActorMessage::new_event(NetworkActorEvent::PeerMessage(id, session, m)),
                ),
                None => None,
            },
            None => None,
        }
    }

    /// The service reports an error, which reads `error`.
    pub fn handle_error<M, T>(&self, error: &str) -> (message: NetworkActorMessage<M, T>)
        ensures
            match message {
                NetworkActorMessage::Event(
                    NetworkActorEvent::NetworkServiceEvent(NetworkServiceEvent::ServiceError(text)),
                ) => text@ == "Service error: "@ + error@,
                _ => false,
            },
    {
        let text = String::from_str("Service error: ").concat(error);
        self.emit_event(NetworkServiceEvent::ServiceError(text))
    }

    /// The service reports an event, which reads `event`.
    pub fn handle_event<M, T>(&self, event: &str) -> (message: NetworkActorMessage<M, T>)
        ensures
            match message {
                NetworkActorMessage::Event(
                    NetworkActorEvent::NetworkServiceEvent(NetworkServiceEvent::ServiceEvent(text)),
                ) => text@ == "Service event: "@ + event@,
                _ => false,
            },
    {
        let text = String::from_str("Service event: ").concat(event);
        self.emit_event(NetworkServiceEvent::ServiceEvent(text))
    }
}

} // verus!
