use ckb_network::address::Multiaddr;
use ckb_network::handle::Handle;
use ckb_network::identity::{PeerId, PublicKey};
use ckb_network::message::{NetworkActorEvent, NetworkActorMessage, NetworkServiceEvent};
use ckb_network::session::{SessionContext, SessionType};

type Message = NetworkActorMessage<String, u64>;

fn session(key: Option<&[u8]>) -> SessionContext {
    SessionContext {
        id: 3,
        address: Multiaddr::from_bytes(vec![4, 10, 0, 0, 1]).unwrap(),
        ty: SessionType::Inbound,
        remote_pubkey: key.map(|raw| PublicKey { raw: raw.to_vec() }),
    }
}

fn peer(key: &[u8]) -> PeerId {
    let public = tentacle::secio::PublicKey::from_raw_key(key.to_vec());
    PeerId::from_bytes(tentacle::secio::PeerId::from(public).into_bytes()).unwrap()
}

fn decode(data: &[u8]) -> Option<String> {
    String::from_utf8(data.to_vec()).ok()
}

#[test]
fn handle_keeps_its_actor() {
    assert_eq!(Handle::new(17).actor, 17);
}

#[test]
fn connected_reports_the_owner_of_the_key() {
    let message: Option<Message> = Handle::new(()).connected(session(Some(b"key")));
    assert_eq!(
        message,
        Some(NetworkActorMessage::Event(NetworkActorEvent::PeerConnected(
            peer(b"key"),
            session(Some(b"key"))
        )))
    );
}

#[test]
fn disconnected_reports_the_owner_of_the_key() {
    let message: Option<Message> = Handle::new(()).disconnected(session(Some(b"key")));
    assert_eq!(
        message,
        Some(NetworkActorMessage::Event(
            NetworkActorEvent::PeerDisconnected(peer(b"key"), session(Some(b"key")))
        ))
    );
}

#[test]
fn received_passes_on_what_was_decoded() {
    let message: Option<Message> =
        Handle::new(()).received(session(Some(b"key")), b"hello", decode);
    assert_eq!(
        message,
        Some(NetworkActorMessage::Event(NetworkActorEvent::PeerMessage(
            peer(b"key"),
            session(Some(b"key")),
            "hello".to_string()
        )))
    );
}

#[test]
fn received_drops_what_cannot_be_decoded() {
    let message: Option<Message> =
        Handle::new(()).received(session(Some(b"key")), &[0xff], decode);
    assert_eq!(message, None);
}

#[test]
fn sessions_without_a_key_are_dropped() {
    let handle = Handle::new(());
    let connected: Option<Message> = handle.connected(session(None));
    assert_eq!(connected, None);
    let disconnected: Option<Message> = handle.disconnected(session(None));
    assert_eq!(disconnected, None);
    let received: Option<Message> = handle.received(session(None), b"hello", decode);
    assert_eq!(received, None);
}

#[test]
fn one_key_is_one_peer() {
    let handle = Handle::new(());
    let mut other = session(Some(b"key"));
    other.id = 4;
    let first: Option<Message> = handle.connected(session(Some(b"key")));
    let second: Option<Message> = handle.connected(other);
    match (first, second) {
        (
            Some(NetworkActorMessage::Event(NetworkActorEvent::PeerConnected(a, _))),
            Some(NetworkActorMessage::Event(NetworkActorEvent::PeerConnected(b, _))),
        ) => assert!(a.same(&b)),
        _ => panic!("both sessions connect"),
    }
}

#[test]
fn callbacks_for_a_given_peer() {
    let handle = Handle::new(());
    let id = peer(b"other key");
    let connected: Option<Message> = handle.connected_as(Some(id.clone()), session(None));
    assert_eq!(
        connected,
        Some(NetworkActorMessage::Event(NetworkActorEvent::PeerConnected(
            id.clone(),
            session(None)
        )))
    );
    let disconnected: Option<Message> = handle.disconnected_as(Some(id.clone()), session(None));
    assert_eq!(
        disconnected,
        Some(NetworkActorMessage::Event(
            NetworkActorEvent::PeerDisconnected(id.clone(), session(None))
        ))
    );
    let received: Option<Message> =
        handle.received_from(Some(id.clone()), session(None), Some("hello".to_string()));
    assert_eq!(
        received,
        Some(NetworkActorMessage::Event(NetworkActorEvent::PeerMessage(
            id.clone(),
            session(None),
            "hello".to_string()
        )))
    );
    let undecoded: Option<Message> = handle.received_from(Some(id), session(None), None);
    assert_eq!(undecoded, None);
    let unknown: Option<Message> =
        handle.received_from(None, session(None), Some("hello".to_string()));
    assert_eq!(unknown, None);
}

#[test]
fn service_reports_are_passed_on_as_text() {
    let handle = Handle::new(());
    let error: Message = handle.handle_error("DialerError");
    assert_eq!(
        error,
        NetworkActorMessage::Event(NetworkActorEvent::NetworkServiceEvent(
            NetworkServiceEvent::ServiceError("Service error: DialerError".to_string())
        ))
    );
    let event: Message = handle.handle_event("ListenStarted");
    assert_eq!(
        event,
        NetworkActorMessage::Event(NetworkActorEvent::NetworkServiceEvent(
            NetworkServiceEvent::ServiceEvent("Service event: ListenStarted".to_string())
        ))
    );
}

#[test]
fn emitted_events_and_responses() {
    let handle = Handle::new(());
    let event = NetworkServiceEvent::ServiceEvent("up".to_string());
    let message: Message = handle.emit_event(event.clone());
    assert_eq!(
        message,
        NetworkActorMessage::Event(NetworkActorEvent::NetworkServiceEvent(event.clone()))
    );
    let message: Message = handle.emit_response(8, event.clone());
    assert_eq!(
        message,
        NetworkActorMessage::Response(8, NetworkActorEvent::NetworkServiceEvent(event))
    );
}
