//! The messages of the network actor and of the actors that it talks to.
//!
//! `M` is the type of a channel message between two peers, `T` that of the terms on which a
//! channel is opened. The network actor carries values of both and looks into neither.

use crate::address::Multiaddr;
use crate::identity::PeerId;
use crate::session::{SessionContext, SessionId};
use vstd::prelude::*;
use vstd::std_specs::convert::FromSpecImpl;

verus! {

/// The number by which the sender of a request recognises the response.
pub type NetworkRequestId = u64;

/// A command with the id under which its sender wants the response.
#[derive(Clone, Debug, PartialEq, Eq)]
pub struct NetworkRequest<M, T> {
    pub id: NetworkRequestId,
    pub request: NetworkActorCommand<M, T>,
}

/// An event that answers the request with this id.
#[derive(Clone, Debug, PartialEq, Eq)]
pub struct NetworkResponse<M> {
    pub id: NetworkRequestId,
    pub response: NetworkActorEvent<M>,
}

/// A message for a peer.
#[derive(Clone, Debug, PartialEq, Eq)]
pub struct PCNMessageWithPeerId<M> {
    pub peer_id: PeerId,
    pub message: M,
}

/// A message for the other end of a session.
#[derive(Clone, Debug, PartialEq, Eq)]
pub struct PCNMessageWithSessionId<M> {
    pub session_id: SessionId,
    pub message: M,
}

/// The request to open a channel with a peer.
#[derive(Clone, Debug, PartialEq, Eq)]
pub struct OpenChannelCommand<T> {
    pub peer_id: PeerId,
    pub terms: T,
}

/// A command to the channels of this node.
#[derive(Clone, Debug, PartialEq, Eq)]
pub enum ChannelCommand<T> {
    OpenChannel(OpenChannelCommand<T>),
}

/// What a channel actor starts with.
#[derive(Clone, Debug, PartialEq, Eq)]
pub enum ChannelInitializationParameter<T> {
    OpenChannelCommand(OpenChannelCommand<T>),
}

/// What the network actor can be told to do.
#[derive(Clone, Debug, PartialEq, Eq)]
pub enum NetworkActorCommand<M, T> {
    /// Dial the address.
    ConnectPeer(Multiaddr),
    /// Send a message to a peer. For internal use and debugging: most messages come with a change
    /// of local state, and this command makes none.
    SendPcnMessage(PCNMessageWithPeerId<M>),
    /// Send a message straight to a session.
    SendPcnMessageToSession(PCNMessageWithSessionId<M>),
    ControlPcnChannel(ChannelCommand<T>),
}

/// What outside observers hear of the network service.
#[derive(Clone, Debug, PartialEq, Eq)]
pub enum NetworkServiceEvent {
    ServiceError(String),
    ServiceEvent(String),
    PeerConnected(Multiaddr),
    PeerDisConnected(Multiaddr),
}

/// What the network actor can be told of.
#[derive(Clone, Debug, PartialEq, Eq)]
pub enum NetworkActorEvent<M> {
    /// Network events for the actor itself.
    PeerConnected(PeerId, SessionContext),
    PeerDisconnected(PeerId, SessionContext),
    PeerMessage(PeerId, SessionContext, M),
    /// An event to be passed on to outside observers.
    NetworkServiceEvent(NetworkServiceEvent),
}

/// A message to the network actor.
#[derive(Debug, PartialEq, Eq)]
pub enum NetworkActorMessage<M, T> {
    Command(NetworkActorCommand<M, T>),
    Event(NetworkActorEvent<M>),
    Request(NetworkRequestId, NetworkActorCommand<M, T>),
    Response(NetworkRequestId, NetworkActorEvent<M>),
}

/// A message to a peer actor.
#[derive(Clone, Debug, PartialEq, Eq)]
pub enum PeerActorMessage<M> {
    Connected(SessionContext),
    Disconnected(SessionContext),
    ReceivedMessage(SessionContext, M),
    SendMessage(M),
}

/// An event that the event actor distributes.
#[derive(Clone, Debug, PartialEq, Eq)]
pub enum Event<M> {
    /// A service event that answers a request.
    NetworkResponse(NetworkResponse<M>),
    /// A service event that answers no request.
    NetworkServiceEvent(NetworkServiceEvent),
}

/// A message to the event actor.
#[derive(Clone, Debug, PartialEq, Eq)]
pub enum EventActorMessage<M> {
    ProcessEvent(Event<M>),
}

impl<M, T> NetworkActorMessage<M, T> {
    /// A command that nobody waits for.
    pub fn new_command(command: NetworkActorCommand<M, T>) -> (message: Self)
        ensures
            message == NetworkActorMessage::<M, T>::Command(command),
    {
        NetworkActorMessage::Command(command)
    }

    /// A command whose response carries `id`.
    pub fn new_request(id: NetworkRequestId, request: NetworkActorCommand<M, T>) -> (message: Self)
        ensures
            message == NetworkActorMessage::<M, T>::Request(id, request),
    {
        NetworkActorMessage::Request(id, request)
    }

    /// An event that answers no request.
    pub fn new_event(event: NetworkActorEvent<M>) -> (message: Self)
        ensures
            message == NetworkActorMessage::<M, T>::Event(event),
    {
        NetworkActorMessage::Event(event)
    }

    /// An event that answers the request with this `id`.
    pub fn new_response(id: NetworkRequestId, response: NetworkActorEvent<M>) -> (message: Self)
        ensures
            message == NetworkActorMessage::<M, T>::Response(id, response),
    {
        NetworkActorMessage::Response(id, response)
    }
}

/// A message to the network actor, with the id of the request that it belongs to told apart.
#[derive(Debug, PartialEq, Eq)]
pub enum InternalNetworkActorMessage<M, T> {
    Command(Option<NetworkRequestId>, NetworkActorCommand<M, T>),
    Event(Option<NetworkRequestId>, NetworkActorEvent<M>),
}

/// A request is a command with an id, and a response is an event with an id.
pub open spec fn internal_form<M, T>(
    message: NetworkActorMessage<M, T>,
) -> InternalNetworkActorMessage<M, T> {
    match message {
        NetworkActorMessage::Command(command) => InternalNetworkActorMessage::Command(
            None,
            command,
        ),
        NetworkActorMessage::Event(event) => InternalNetworkActorMessage::Event(None, event),
        NetworkActorMessage::Request(id, request) => InternalNetworkActorMessage::Command(
            Some(id),
            request,
        ),
        NetworkActorMessage::Response(id, response) => InternalNetworkActorMessage::Event(
            Some(id),
            response,
        ),
    }
}

impl<M, T> FromSpecImpl<NetworkActorMessage<M, T>> for InternalNetworkActorMessage<M, T> {
    open spec fn obeys_from_spec() -> bool {
        true
    }

    open spec fn from_spec(message: NetworkActorMessage<M, T>) -> Self {
        internal_form(message)
    }
}

impl<M, T> From<NetworkActorMessage<M, T>> for InternalNetworkActorMessage<M, T> {
    fn from(message: NetworkActorMessage<M, T>) -> (internal: Self) {
        match message {
            NetworkActorMessage::Command(command) => {
                InternalNetworkActorMessage::Command(None, command)
            },
            NetworkActorMessage::Event(event) => InternalNetworkActorMessage::Event(None, event),
            NetworkActorMessage::Request(id, request) => {
                InternalNetworkActorMessage::Command(Some(id), request)
            },
            NetworkActorMessage::Response(id, response) => {
                InternalNetworkActorMessage::Event(Some(id), response)
            },
        }
    }
}

} // verus!
