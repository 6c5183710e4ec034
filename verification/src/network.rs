//! The network actor: what it does with each message, given the peers that it knows.
//!
//! [`NetworkActor::handle`] turns a message into actions for the caller to perform in order. The
//! one action that has a result to hand back is [`NetworkAction::SpawnPeer`]: the actor that was
//! spawned goes to [`NetworkActor::peer_spawned`], which says what follows.

use crate::address::{listening_address, Multiaddr};
use crate::identity::{PeerId, PublicKey};
use crate::message::{
    ChannelCommand, ChannelInitializationParameter, Event, EventActorMessage,
    InternalNetworkActorMessage, NetworkActorCommand, NetworkActorEvent, NetworkActorMessage,
    NetworkRequestId, NetworkResponse, NetworkServiceEvent, PeerActorMessage,
};
use crate::peers::PeerTable;
use crate::session::{ProtocolId, SessionContext, SessionId, PCN_PROTOCOL_ID};
use std::sync::Arc;
use vstd::prelude::*;

verus! {

/// Why a message comes to nothing.
#[derive(Clone, Debug, PartialEq, Eq)]
pub enum Refusal {
    /// A peer connected that is connected already.
    DuplicatedPeer(PeerId),
    /// A peer disconnected that is not connected.
    RemovedPeerNotFound(PeerId),
    /// A message came from a peer that is not connected.
    SenderNotFound(PeerId),
    /// A message is for a peer that is not connected.
    ReceiverNotFound(PeerId),
    /// A channel is to be opened with a peer that is not connected.
    ChannelPeerNotFound(PeerId),
}

/// What the network actor wants done. `A` is the type of a reference to a peer actor.
#[derive(Debug, PartialEq, Eq)]
pub enum NetworkAction<A, M, T> {
    /// Send the message to the event actor.
    Emit(EventActorMessage<M>),
    /// Spawn the actor of a new peer, and tell [`NetworkActor::peer_spawned`].
    SpawnPeer { request_id: Option<NetworkRequestId>, id: PeerId, session: SessionContext },
    /// Send the message to the peer actor.
    SendToPeer { actor: Arc<A>, message: PeerActorMessage<M> },
    /// Encode the payload, and send it over the session and the protocol.
    SendToSession { session_id: SessionId, protocol_id: ProtocolId, payload: M },
    /// Dial the address and open all protocols.
    Dial(Multiaddr),
    /// Spawn a channel actor that works with the peer actor.
    SpawnChannel { peer_actor: Arc<A>, parameter: ChannelInitializationParameter<T> },
    /// Report that nothing is done.
    Refuse(Refusal),
}

/// What [`NetworkActorState::get_or_create_peer`] found.
#[derive(Debug, PartialEq, Eq)]
pub enum PeerLookup<A> {
    /// The peer has this actor.
    Found(Arc<A>),
    /// The peer has no actor: spawn one, and hand it to [`NetworkActorState::add_peer`].
    Create(PeerId),
}

/// What is found of the peer `id` while `known` are the known peers.
pub open spec fn peer_lookup<A>(known: Map<Seq<u8>, Arc<A>>, id: PeerId) -> PeerLookup<A> {
    if known.contains_key(id@) {
        PeerLookup::Found(known[id@])
    } else {
        PeerLookup::Create(id)
    }
}

/// The state of the network actor.
pub struct NetworkActorState<A> {
    peer_id: PeerId,
    peers: PeerTable<A>,
}

impl<A> NetworkActorState<A> {
    /// The bytes of this node's own id.
    pub closed spec fn own_id(self) -> Seq<u8> {
        self.peer_id@
    }

    /// The actors of the known peers, by the bytes of their ids.
    pub closed spec fn known(self) -> Map<Seq<u8>, Arc<A>> {
        self.peers@
    }

    /// The state in which the node `peer_id` starts: it knows nobody.
    pub fn new(peer_id: PeerId) -> (state: Self)
        ensures
            state.own_id() == peer_id@,
            state.known() == Map::<Seq<u8>, Arc<A>>::empty(),
    {
        NetworkActorState { peer_id, peers: PeerTable::new() }
    }

    /// This node's own id.
    pub fn peer_id(&self) -> (id: &PeerId)
        ensures
            id@ == self.own_id(),
    {
        &self.peer_id
    }

    /// The actor of the peer `id`, or that there is none yet and one has to be spawned.
    pub fn get_or_create_peer(&self, id: PeerId) -> (lookup: PeerLookup<A>)
        ensures
            lookup == peer_lookup(self.known(), id),
    {
        match self.peers.get(&id) {
            Some(actor) => PeerLookup::Found(actor.clone()),
            None => PeerLookup::Create(id),
        }
    }

    /// Makes the newly spawned `actor` the actor of the peer `id`, and gives it back.
    pub fn add_peer(&mut self, id: PeerId, actor: Arc<A>) -> (same: Arc<A>)
        ensures
            final(self).known() == old(self).known().insert(id@, actor),
            final(self).own_id() == old(self).own_id(),
            same == actor,
    {
        self.peers.insert(id, actor.clone());
        actor
    }
}

/// The message that tells the event actor that `event` answers the request `id`.
pub open spec fn response_message<M>(
    id: NetworkRequestId,
    event: NetworkServiceEvent,
) -> EventActorMessage<M> {
    EventActorMessage::ProcessEvent(
        Event::NetworkResponse(
            NetworkResponse { id, response: NetworkActorEvent::NetworkServiceEvent(event) },
        ),
    )
}

/// The message that tells the event actor of an `event` that answers no request.
pub open spec fn event_message<M>(event: NetworkServiceEvent) -> EventActorMessage<M> {
    EventActorMessage::ProcessEvent(Event::NetworkServiceEvent(event))
}

/// The message that tells the event actor of `event`: as a response where it answers a request,
/// and as an event otherwise.
pub open spec fn announcement<M>(
    request_id: Option<NetworkRequestId>,
    event: NetworkServiceEvent,
) -> EventActorMessage<M> {
    match request_id {
        Some(id) => response_message(id, event),
        None => event_message(event),
    }
}

/// What is done about `event` while `known` are the known peers.
pub open spec fn event_reaction<A, M, T>(
    known: Map<Seq<u8>, Arc<A>>,
    request_id: Option<NetworkRequestId>,
    event: NetworkActorEvent<M>,
) -> Seq<NetworkAction<A, M, T>> {
    match event {
        NetworkActorEvent::NetworkServiceEvent(e) => seq![
            NetworkAction::Emit(announcement(request_id, e)),
        ],
        NetworkActorEvent::PeerConnected(id, session) => if known.contains_key(id@) {
            seq![NetworkAction::Refuse(Refusal::DuplicatedPeer(id))]
        } else {
            seq![NetworkAction::SpawnPeer { request_id, id, session }]
        },
        NetworkActorEvent::PeerDisconnected(id, session) => if known.contains_key(id@) {
            seq![
                NetworkAction::Emit(
                    announcement(
                        request_id,
                        NetworkServiceEvent::PeerDisConnected(session.address),
                    ),
                ),
                NetworkAction::SendToPeer {
                    actor: known[id@],
                    message: PeerActorMessage::Disconnected(session),
                },
            ]
        } else {
            seq![NetworkAction::Refuse(Refusal::RemovedPeerNotFound(id))]
        },
        NetworkActorEvent::PeerMessage(id, session, message) => if known.contains_key(id@) {
            seq![
                NetworkAction::SendToPeer {
                    actor: known[id@],
                    message: PeerActorMessage::ReceivedMessage(session, message),
                },
            ]
        } else {
            seq![NetworkAction::Refuse(Refusal::SenderNotFound(id))]
        },
    }
}

/// What is done about `command` while `known` are the known peers.
pub open spec fn command_reaction<A, M, T>(
    known: Map<Seq<u8>, Arc<A>>,
    command: NetworkActorCommand<M, T>,
) -> Seq<NetworkAction<A, M, T>> {
    match command {
        NetworkActorCommand::ConnectPeer(address) => seq![NetworkAction::Dial(address)],
        NetworkActorCommand::SendPcnMessageToSession(to) => seq![
            NetworkAction::SendToSession {
                session_id: to.session_id,
                protocol_id: PCN_PROTOCOL_ID,
                payload: to.message,
            },
        ],
        NetworkActorCommand::SendPcnMessage(to) => if known.contains_key(to.peer_id@) {
            seq![
                NetworkAction::SendToPeer {
                    actor: known[to.peer_id@],
                    message: PeerActorMessage::SendMessage(to.message),
                },
            ]
        } else {
            seq![NetworkAction::Refuse(Refusal::ReceiverNotFound(to.peer_id))]
        },
        NetworkActorCommand::ControlPcnChannel(ChannelCommand::OpenChannel(open)) => {
            if known.contains_key(open.peer_id@) {
                seq![
                    NetworkAction::SpawnChannel {
                        peer_actor: known[open.peer_id@],
                        parameter: ChannelInitializationParameter::OpenChannelCommand(open),
                    },
                ]
            } else {
                seq![NetworkAction::Refuse(Refusal::ChannelPeerNotFound(open.peer_id))]
            }
        },
    }
}

/// What is done about `message` while `known` are the known peers.
pub open spec fn reaction<A, M, T>(
    known: Map<Seq<u8>, Arc<A>>,
    message: NetworkActorMessage<M, T>,
) -> Seq<NetworkAction<A, M, T>> {
    match message {
        NetworkActorMessage::Command(command) => command_reaction(known, command),
        NetworkActorMessage::Request(_, command) => command_reaction(known, command),
        NetworkActorMessage::Event(event) => event_reaction(known, None, event),
        NetworkActorMessage::Response(id, event) => event_reaction(known, Some(id), event),
    }
}

/// The event that `message` brings, if it brings one.
pub open spec fn event_of<M, T>(message: NetworkActorMessage<M, T>) -> Option<
    NetworkActorEvent<M>,
> {
    match message {
        NetworkActorMessage::Event(event) => Some(event),
        NetworkActorMessage::Response(_, event) => Some(event),
        _ => None,
    }
}

/// The peers that stay known once `message` is handled: all but one that disconnected.
pub open spec fn still_known<A, M, T>(
    known: Map<Seq<u8>, Arc<A>>,
    message: NetworkActorMessage<M, T>,
) -> Map<Seq<u8>, Arc<A>> {
    match event_of(message) {
        Some(NetworkActorEvent::PeerDisconnected(id, _)) => known.remove(id@),
        _ => known,
    }
}

/// What is done once `actor` was spawned for the peer of `session`.
pub open spec fn spawned_reaction<A, M, T>(
    request_id: Option<NetworkRequestId>,
    session: SessionContext,
    actor: Arc<A>,
) -> Seq<NetworkAction<A, M, T>> {
    seq![
        NetworkAction::Emit(
            announcement(request_id, NetworkServiceEvent::PeerConnected(session.address)),
        ),
        NetworkAction::SendToPeer { actor, message: PeerActorMessage::Connected(session) },
    ]
}

/// What the network actor starts with.
pub struct StartPlan<A> {
    /// The protocol to register with the service.
    pub protocol_id: ProtocolId,
    /// The address to listen on.
    pub listening_address: Multiaddr,
    /// The state in which messages are handled.
    pub state: NetworkActorState<A>,
}

/// The network actor. `E` is the type of a reference to the event actor.
pub struct NetworkActor<E> {
    pub event_actor: E,
}

impl<E> NetworkActor<E> {
    /// What is said to the event actor of `event`: that it answers the request `id`, if there is
    /// one, or else that it happened.
    pub fn emit_event_or_response<M>(
        &self,
        id: Option<NetworkRequestId>,
        event: NetworkServiceEvent,
    ) -> (message: EventActorMessage<M>)
        ensures
            message == announcement::<M>(id, event),
    {
        match id {
            Some(id) => self.emit_response(id, event),
            None => self.emit_event(event),
        }
    }

    /// What is said to the event actor of an event that answers no request.
    pub fn emit_event<M>(&self, event: NetworkServiceEvent) -> (message: EventActorMessage<M>)
        ensures
            message == event_message::<M>(event),
    {
        EventActorMessage::ProcessEvent(Event::NetworkServiceEvent(event))
    }

    /// What is said to the event actor of an event that answers the request `id`.
    pub fn emit_response<M>(&self, id: NetworkRequestId, event: NetworkServiceEvent) -> (message:
        EventActorMessage<M>)
        ensures
            message == response_message::<M>(id, event),
    {
        EventActorMessage::ProcessEvent(
            Event::NetworkResponse(
                NetworkResponse { id, response: NetworkActorEvent::NetworkServiceEvent(event) },
            ),
        )
    }

    /// What the actor of the node with this key and this port starts with.
    pub fn pre_start<A>(&self, listening_port: u16, public_key: &PublicKey) -> (plan: StartPlan<A>)
        ensures
            plan.protocol_id == PCN_PROTOCOL_ID,
            plan.listening_address@ == crate::address::listening_bytes(listening_port),
            plan.state.own_id() == crate::identity::peer_id_of_key(public_key@),
            plan.state.known() == Map::<Seq<u8>, Arc<A>>::empty(),
    {
        StartPlan {
            protocol_id: PCN_PROTOCOL_ID,
            listening_address: listening_address(listening_port),
            state: NetworkActorState::new(PeerId::from_public_key(public_key)),
        }
    }

    /// Handles a message: what is to be done about it, in this order.
    pub fn handle<A, M, T>(
        &self,
        message: NetworkActorMessage<M, T>,
        state: &mut NetworkActorState<A>,
    ) -> (actions: Vec<NetworkAction<A, M, T>>)
        ensures
            actions@ == reaction(old(state).known(), message),
            final(state).known() == still_known(old(state).known(), message),
            final(state).own_id() == old(state).own_id(),
    {
        match InternalNetworkActorMessage::from(message) {
            InternalNetworkActorMessage::Event(request_id, event) => {
                self.handle_event(request_id, event, state)
            },
            InternalNetworkActorMessage::Command(_id, command) => {
                self.handle_command(command, state)
            },
        }
    }

    fn handle_event<A, M, T>(
        &self,
        request_id: Option<NetworkRequestId>,
        event: NetworkActorEvent<M>,
        state: &mut NetworkActorState<A>,
    ) -> (actions: Vec<NetworkAction<A, M, T>>)
        ensures
            actions@ == event_reaction::<A, M, T>(old(state).known(), request_id, event),
            final(state).known() == (match event {
                NetworkActorEvent::PeerDisconnected(id, _) => old(state).known().remove(id@),
                _ => old(state).known(),
            }),
            final(state).own_id() == old(state).own_id(),
    {
        match event {
            NetworkActorEvent::NetworkServiceEvent(e) => vec![
                NetworkAction::Emit(self.emit_event_or_response(request_id, e)),
            ],
            NetworkActorEvent::PeerConnected(id, session) => match state.peers.get(&id) {
                Some(_actor) => vec![NetworkAction::Refuse(Refusal::DuplicatedPeer(id))],
                None => vec![NetworkAction::SpawnPeer { request_id, id, session }],
            },
            NetworkActorEvent::PeerDisconnected(id, session) => match state.peers.remove(&id) {
                Some(actor) => {
                    let announced = self.emit_event_or_response(
                        request_id,
                        NetworkServiceEvent::PeerDisConnected(session.address.clone()),
                    );
                    vec![
                        NetworkAction::Emit(announced),
                        NetworkAction::SendToPeer {
                            actor,
                            message: PeerActorMessage::Disconnected(session),
                        },
                    ]
                },
                None => vec![NetworkAction::Refuse(Refusal::RemovedPeerNotFound(id))],
            },
            NetworkActorEvent::PeerMessage(id, session, message) => match state.peers.get(&id) {
                Some(actor) => vec![
                    NetworkAction::SendToPeer {
                        actor: actor.clone(),
                        message: PeerActorMessage::ReceivedMessage(session, message),
                    },
                ],
                None => vec![NetworkAction::Refuse(Refusal::SenderNotFound(id))],
            },
        }
    }

    fn handle_command<A, M, T>(
        &self,
        command: NetworkActorCommand<M, T>,
        state: &NetworkActorState<A>,
    ) -> (actions: Vec<NetworkAction<A, M, T>>)
        ensures
            actions@ == command_reaction(state.known(), command),
    {
        match command {
            NetworkActorCommand::SendPcnMessageToSession(to) => vec![
                NetworkAction::SendToSession {
                    session_id: to.session_id,
                    protocol_id: PCN_PROTOCOL_ID,
                    payload: to.message,
                },
            ],
            NetworkActorCommand::SendPcnMessage(to) => match state.peers.get(&to.peer_id) {
                Some(actor) => vec![
                    NetworkAction::SendToPeer {
                        actor: actor.clone(),
                        message: PeerActorMessage::SendMessage(to.message),
                    },
                ],
                None => vec![NetworkAction::Refuse(Refusal::ReceiverNotFound(to.peer_id))],
            },
            NetworkActorCommand::ConnectPeer(address) => vec![NetworkAction::Dial(address)],
            NetworkActorCommand::ControlPcnChannel(ChannelCommand::OpenChannel(open)) => {
                match state.peers.get(&open.peer_id) {
                    Some(peer_actor) => vec![
                        NetworkAction::SpawnChannel {
                            peer_actor: peer_actor.clone(),
                            parameter: ChannelInitializationParameter::OpenChannelCommand(open),
                        },
                    ],
                    None => vec![NetworkAction::Refuse(Refusal::ChannelPeerNotFound(open.peer_id))],
                }
            },
        }
    }

    /// Goes on with a new peer once its `actor` was spawned: what is to be done, in this order.
    /// From here on the peer is known.
    pub fn peer_spawned<A, M, T>(
        &self,
        request_id: Option<NetworkRequestId>,
        id: PeerId,
        session: SessionContext,
        actor: Arc<A>,
        state: &mut NetworkActorState<A>,
    ) -> (actions: Vec<NetworkAction<A, M, T>>)
        ensures
            actions@ == spawned_reaction::<A, M, T>(request_id, session, actor),
            final(state).known() == old(state).known().insert(id@, actor),
            final(state).own_id() == old(state).own_id(),
    {
        let announced = self.emit_event_or_response(
            request_id,
            NetworkServiceEvent::PeerConnected(session.address.clone()),
        );
        state.peers.insert(id, actor.clone());
        vec![
            NetworkAction::Emit(announced),
            NetworkAction::SendToPeer { actor, message: PeerActorMessage::Connected(session) },
        ]
    }
}

} // verus!
