use ckb_network::address::Multiaddr;
use ckb_network::identity::{PeerId, PublicKey};
use ckb_network::message::{
    ChannelCommand, ChannelInitializationParameter, Event, EventActorMessage,
    InternalNetworkActorMessage, NetworkActorCommand, NetworkActorEvent, NetworkActorMessage,
    NetworkRequestId, NetworkResponse, NetworkServiceEvent, OpenChannelCommand,
    PCNMessageWithPeerId, PCNMessageWithSessionId, PeerActorMessage,
};
use ckb_network::network::{NetworkAction, NetworkActor, NetworkActorState, PeerLookup, Refusal};
use ckb_network::session::{SessionContext, SessionType, PCN_PROTOCOL_ID};
use std::sync::Arc;

type Message = NetworkActorMessage<&'static str, u64>;
type Action = NetworkAction<u32, &'static str, u64>;
type State = NetworkActorState<u32>;

const ACTOR: NetworkActor<()> = NetworkActor { event_actor: () };

fn id(n: u8) -> PeerId {
    let mut bytes = vec![0x12, 32];
    bytes.extend_from_slice(&[n; 32]);
    PeerId::from_bytes(bytes).unwrap()
}

fn address() -> Multiaddr {
    Multiaddr::from_bytes(vec![4, 10, 0, 0, 1, 6, 0, 80]).unwrap()
}

fn session() -> SessionContext {
    SessionContext {
        id: 3,
        address: address(),
        ty: SessionType::Outbound,
        remote_pubkey: None,
    }
}

fn new_state() -> State {
    NetworkActorState::new(id(0))
}

fn with_peers(peers: &[(u8, u32)]) -> State {
    let mut state = new_state();
    for (n, actor) in peers {
        state.add_peer(id(*n), Arc::new(*actor));
    }
    state
}

fn found(state: &State, n: u8) -> Option<u32> {
    match state.get_or_create_peer(id(n)) {
        PeerLookup::Found(actor) => Some(*actor),
        PeerLookup::Create(_) => None,
    }
}

fn handle(message: Message, state: &mut State) -> Vec<Action> {
    ACTOR.handle(message, state)
}

fn connected(n: u8) -> NetworkActorEvent<&'static str> {
    NetworkActorEvent::PeerConnected(id(n), session())
}

fn disconnected(n: u8) -> NetworkActorEvent<&'static str> {
    NetworkActorEvent::PeerDisconnected(id(n), session())
}

fn response(id: NetworkRequestId, event: NetworkServiceEvent) -> EventActorMessage<&'static str> {
    EventActorMessage::ProcessEvent(Event::NetworkResponse(NetworkResponse {
        id,
        response: NetworkActorEvent::NetworkServiceEvent(event),
    }))
}

fn event(event: NetworkServiceEvent) -> EventActorMessage<&'static str> {
    EventActorMessage::ProcessEvent(Event::NetworkServiceEvent(event))
}

fn send_to_peer(n: u8, message: &'static str) -> NetworkActorCommand<&'static str, u64> {
    NetworkActorCommand::SendPcnMessage(PCNMessageWithPeerId {
        peer_id: id(n),
        message,
    })
}

fn open_channel(n: u8) -> OpenChannelCommand<u64> {
    OpenChannelCommand {
        peer_id: id(n),
        terms: 500,
    }
}

#[test]
fn constructors() {
    let command = NetworkActorCommand::<&'static str, u64>::ConnectPeer(address());
    assert_eq!(
        NetworkActorMessage::new_command(command.clone()),
        NetworkActorMessage::Command(command.clone())
    );
    assert_eq!(
        NetworkActorMessage::new_request(6, command.clone()),
        NetworkActorMessage::Request(6, command)
    );
    let event: Message = NetworkActorMessage::new_event(connected(1));
    assert_eq!(event, NetworkActorMessage::Event(connected(1)));
    let response: Message = NetworkActorMessage::new_response(6, connected(1));
    assert_eq!(response, NetworkActorMessage::Response(6, connected(1)));
}

#[test]
fn internal_messages_tell_the_request_id_apart() {
    let command = NetworkActorCommand::ConnectPeer(address());
    let message: Message = NetworkActorMessage::Command(command.clone());
    assert_eq!(
        InternalNetworkActorMessage::from(message),
        InternalNetworkActorMessage::Command(None, command.clone())
    );
    let message: Message = NetworkActorMessage::Request(4, command.clone());
    assert_eq!(
        InternalNetworkActorMessage::from(message),
        InternalNetworkActorMessage::Command(Some(4), command)
    );
    let message: Message = NetworkActorMessage::Event(connected(1));
    assert_eq!(
        InternalNetworkActorMessage::from(message),
        InternalNetworkActorMessage::Event(None, connected(1))
    );
    let message: Message = NetworkActorMessage::Response(4, connected(1));
    assert_eq!(
        InternalNetworkActorMessage::from(message),
        InternalNetworkActorMessage::Event(Some(4), connected(1))
    );
}

#[test]
fn start_plan() {
    let key = PublicKey { raw: b"abc".to_vec() };
    let plan = ACTOR.pre_start::<u32>(8346, &key);
    assert_eq!(plan.protocol_id, 42);
    assert_eq!(
        plan.listening_address.as_bytes(),
        [4, 127, 0, 0, 1, 6, 0x20, 0x9a]
    );
    assert_eq!(plan.state.peer_id(), &PeerId::from_public_key(&key));
    assert_eq!(found(&plan.state, 1), None);
}

#[test]
fn events_are_emitted_under_their_request() {
    let up = NetworkServiceEvent::ServiceEvent("up".to_string());
    assert_eq!(
        ACTOR.emit_event_or_response::<&'static str>(Some(9), up.clone()),
        response(9, up.clone())
    );
    assert_eq!(
        ACTOR.emit_response::<&'static str>(9, up.clone()),
        response(9, up.clone())
    );
    assert_eq!(
        ACTOR.emit_event_or_response::<&'static str>(None, up.clone()),
        event(up.clone())
    );
    assert_eq!(ACTOR.emit_event::<&'static str>(up.clone()), event(up));
}

#[test]
fn service_events_reach_observers() {
    let mut state = new_state();
    for e in [
        NetworkServiceEvent::ServiceError("down".to_string()),
        NetworkServiceEvent::ServiceEvent("up".to_string()),
        NetworkServiceEvent::PeerConnected(address()),
        NetworkServiceEvent::PeerDisConnected(address()),
    ] {
        let message = NetworkActorMessage::Event(NetworkActorEvent::NetworkServiceEvent(e.clone()));
        assert_eq!(
            handle(message, &mut state),
            vec![NetworkAction::Emit(event(e.clone()))]
        );
        let message =
            NetworkActorMessage::Response(5, NetworkActorEvent::NetworkServiceEvent(e.clone()));
        assert_eq!(
            handle(message, &mut state),
            vec![NetworkAction::Emit(response(5, e))]
        );
    }
}

#[test]
fn service_reports_reach_observers() {
    let mut state = new_state();
    let handle_to = ckb_network::handle::Handle::new(());
    assert_eq!(
        handle(handle_to.handle_error("DialerError"), &mut state),
        vec![NetworkAction::Emit(event(
            NetworkServiceEvent::ServiceError("Service error: DialerError".to_string())
        ))]
    );
    assert_eq!(
        handle(handle_to.handle_event("ListenStarted"), &mut state),
        vec![NetworkAction::Emit(event(
            NetworkServiceEvent::ServiceEvent("Service event: ListenStarted".to_string())
        ))]
    );
}

#[test]
fn new_peer_is_spawned_and_greeted() {
    let mut state = new_state();
    assert_eq!(
        handle(NetworkActorMessage::Event(connected(1)), &mut state),
        vec![NetworkAction::SpawnPeer {
            request_id: None,
            id: id(1),
            session: session()
        }]
    );
    assert_eq!(found(&state, 1), None);
    let actions: Vec<Action> =
        ACTOR.peer_spawned(None, id(1), session(), Arc::new(100), &mut state);
    assert_eq!(
        actions,
        vec![
            NetworkAction::Emit(event(NetworkServiceEvent::PeerConnected(address()))),
            NetworkAction::SendToPeer {
                actor: Arc::new(100),
                message: PeerActorMessage::Connected(session())
            }
        ]
    );
    assert_eq!(found(&state, 1), Some(100));
    assert_eq!(state.peer_id(), &id(0));
}

#[test]
fn new_peer_that_answers_a_request_is_announced_as_response() {
    let mut state = new_state();
    assert_eq!(
        handle(NetworkActorMessage::Response(5, connected(1)), &mut state),
        vec![NetworkAction::SpawnPeer {
            request_id: Some(5),
            id: id(1),
            session: session()
        }]
    );
    let actions: Vec<Action> =
        ACTOR.peer_spawned(Some(5), id(1), session(), Arc::new(100), &mut state);
    assert_eq!(
        actions,
        vec![
            NetworkAction::Emit(response(5, NetworkServiceEvent::PeerConnected(address()))),
            NetworkAction::SendToPeer {
                actor: Arc::new(100),
                message: PeerActorMessage::Connected(session())
            }
        ]
    );
}

#[test]
fn duplicated_peer_is_refused() {
    let mut state = with_peers(&[(1, 100)]);
    for message in [
        NetworkActorMessage::Event(connected(1)),
        NetworkActorMessage::Response(5, connected(1)),
    ] {
        assert_eq!(
            handle(message, &mut state),
            vec![NetworkAction::Refuse(Refusal::DuplicatedPeer(id(1)))]
        );
        assert_eq!(found(&state, 1), Some(100));
    }
}

#[test]
fn disconnected_peer_is_told_and_forgotten() {
    let mut state = with_peers(&[(1, 100), (2, 200)]);
    assert_eq!(
        handle(NetworkActorMessage::Event(disconnected(1)), &mut state),
        vec![
            NetworkAction::Emit(event(NetworkServiceEvent::PeerDisConnected(address()))),
            NetworkAction::SendToPeer {
                actor: Arc::new(100),
                message: PeerActorMessage::Disconnected(session())
            }
        ]
    );
    assert_eq!(found(&state, 1), None);
    assert_eq!(found(&state, 2), Some(200));
    assert_eq!(
        handle(NetworkActorMessage::Response(5, disconnected(2)), &mut state),
        vec![
            NetworkAction::Emit(response(
                5,
                NetworkServiceEvent::PeerDisConnected(address())
            )),
            NetworkAction::SendToPeer {
                actor: Arc::new(200),
                message: PeerActorMessage::Disconnected(session())
            }
        ]
    );
    assert_eq!(found(&state, 2), None);
}

#[test]
fn unknown_peers_are_refused() {
    let mut state = with_peers(&[(1, 100)]);
    let removed = || Refusal::RemovedPeerNotFound(id(2));
    let cases: Vec<(Message, Refusal)> = vec![
        (NetworkActorMessage::Event(disconnected(2)), removed()),
        (NetworkActorMessage::Response(5, disconnected(2)), removed()),
        (
            NetworkActorMessage::Event(NetworkActorEvent::PeerMessage(id(2), session(), "hello")),
            Refusal::SenderNotFound(id(2)),
        ),
        (
            NetworkActorMessage::Command(send_to_peer(2, "hello")),
            Refusal::ReceiverNotFound(id(2)),
        ),
        (
            NetworkActorMessage::Request(5, send_to_peer(2, "hello")),
            Refusal::ReceiverNotFound(id(2)),
        ),
        (
            NetworkActorMessage::Command(NetworkActorCommand::ControlPcnChannel(
                ChannelCommand::OpenChannel(open_channel(2)),
            )),
            Refusal::ChannelPeerNotFound(id(2)),
        ),
    ];
    for (message, refusal) in cases {
        assert_eq!(
            handle(message, &mut state),
            vec![NetworkAction::Refuse(refusal)]
        );
        assert_eq!(found(&state, 1), Some(100));
        assert_eq!(found(&state, 2), None);
    }
}

#[test]
fn messages_reach_the_actor_of_the_peer() {
    let mut state = with_peers(&[(1, 100), (2, 200)]);
    let message =
        NetworkActorMessage::Event(NetworkActorEvent::PeerMessage(id(2), session(), "hello"));
    assert_eq!(
        handle(message, &mut state),
        vec![NetworkAction::SendToPeer {
            actor: Arc::new(200),
            message: PeerActorMessage::ReceivedMessage(session(), "hello")
        }]
    );
    assert_eq!(
        handle(
            NetworkActorMessage::Command(send_to_peer(1, "hi")),
            &mut state
        ),
        vec![NetworkAction::SendToPeer {
            actor: Arc::new(100),
            message: PeerActorMessage::SendMessage("hi")
        }]
    );
}

#[test]
fn messages_to_a_session_use_the_channel_protocol() {
    let mut state = new_state();
    let command = NetworkActorCommand::SendPcnMessageToSession(PCNMessageWithSessionId {
        session_id: 11,
        message: "hello",
    });
    for message in [
        NetworkActorMessage::Command(command.clone()),
        NetworkActorMessage::Request(1, command.clone()),
    ] {
        assert_eq!(
            handle(message, &mut state),
            vec![NetworkAction::SendToSession {
                session_id: 11,
                protocol_id: PCN_PROTOCOL_ID,
                payload: "hello"
            }]
        );
    }
    assert_eq!(PCN_PROTOCOL_ID, 42);
}

#[test]
fn connect_peer_dials() {
    let mut state = new_state();
    assert_eq!(
        handle(
            NetworkActorMessage::Command(NetworkActorCommand::ConnectPeer(address())),
            &mut state
        ),
        vec![NetworkAction::Dial(address())]
    );
}

#[test]
fn open_channel_spawns_a_channel_with_the_peer() {
    let mut state = with_peers(&[(1, 100)]);
    let command = NetworkActorCommand::ControlPcnChannel(ChannelCommand::OpenChannel(
        open_channel(1),
    ));
    assert_eq!(
        handle(NetworkActorMessage::Request(2, command), &mut state),
        vec![NetworkAction::SpawnChannel {
            peer_actor: Arc::new(100),
            parameter: ChannelInitializationParameter::OpenChannelCommand(open_channel(1))
        }]
    );
}

#[test]
fn created_peer_is_found() {
    let mut state = with_peers(&[(1, 100)]);
    assert_eq!(
        state.get_or_create_peer(id(2)),
        PeerLookup::Create(id(2))
    );
    assert_eq!(state.add_peer(id(2), Arc::new(200)), Arc::new(200));
    assert_eq!(
        state.get_or_create_peer(id(2)),
        PeerLookup::Found(Arc::new(200))
    );
    assert_eq!(found(&state, 1), Some(100));
    assert_eq!(
        handle(NetworkActorMessage::Event(connected(2)), &mut state),
        vec![NetworkAction::Refuse(Refusal::DuplicatedPeer(id(2)))]
    );
}

#[test]
fn peers_after_a_run_of_messages() {
    let mut state = with_peers(&[(9, 900)]);
    let run: Vec<(NetworkActorEvent<&'static str>, u32)> = vec![
        (connected(1), 101),
        (connected(2), 102),
        (connected(1), 103),
        (disconnected(2), 104),
        (NetworkActorEvent::PeerMessage(id(1), session(), "hello"), 105),
        (connected(2), 106),
        (disconnected(9), 107),
        (disconnected(3), 108),
    ];
    for (event, actor) in run {
        let actions = handle(NetworkActorMessage::Event(event), &mut state);
        for action in actions {
            if let NetworkAction::SpawnPeer {
                request_id,
                id,
                session,
            } = action
            {
                let _: Vec<Action> =
                    ACTOR.peer_spawned(request_id, id, session, Arc::new(actor), &mut state);
            }
        }
    }
    assert_eq!(found(&state, 1), Some(101));
    assert_eq!(found(&state, 2), Some(106));
    assert_eq!(found(&state, 3), None);
    assert_eq!(found(&state, 9), None);
}

#[test]
fn second_session_of_a_peer_ends_with_the_first() {
    let mut state = with_peers(&[(1, 100)]);
    handle(NetworkActorMessage::Event(connected(1)), &mut state);
    handle(NetworkActorMessage::Event(disconnected(1)), &mut state);
    let message =
        NetworkActorMessage::Event(NetworkActorEvent::PeerMessage(id(1), session(), "hello"));
    assert_eq!(
        handle(message, &mut state),
        vec![NetworkAction::Refuse(Refusal::SenderNotFound(id(1)))]
    );
}

#[test]
fn peer_with_an_overlong_id_is_not_found() {
    let mut state = with_peers(&[(1, 100)]);
    let mut bytes = vec![0x92];
    bytes.extend_from_slice(&[0x80; 8]);
    bytes.extend_from_slice(&[2, 32]);
    bytes.extend_from_slice(&[1; 32]);
    let overlong = PeerId::from_bytes(bytes).unwrap();
    let command = NetworkActorCommand::SendPcnMessage(PCNMessageWithPeerId {
        peer_id: overlong.clone(),
        message: "hello",
    });
    assert_eq!(
        handle(NetworkActorMessage::Command(command), &mut state),
        vec![NetworkAction::Refuse(Refusal::ReceiverNotFound(overlong))]
    );
}
