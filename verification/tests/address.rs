use ckb_network::address::{listening_address, listening_address_text, Multiaddr};

#[test]
fn listening_text_names_the_loopback_port() {
    assert_eq!(listening_address_text(0), "/ip4/127.0.0.1/tcp/0");
    assert_eq!(listening_address_text(9), "/ip4/127.0.0.1/tcp/9");
    assert_eq!(listening_address_text(10), "/ip4/127.0.0.1/tcp/10");
    assert_eq!(listening_address_text(8346), "/ip4/127.0.0.1/tcp/8346");
    assert_eq!(listening_address_text(65535), "/ip4/127.0.0.1/tcp/65535");
}

#[test]
fn listening_address_is_encoded() {
    assert_eq!(listening_address(0).as_bytes(), [4, 127, 0, 0, 1, 6, 0, 0]);
    assert_eq!(listening_address(80).as_bytes(), [4, 127, 0, 0, 1, 6, 0, 80]);
    assert_eq!(
        listening_address(8346).as_bytes(),
        [4, 127, 0, 0, 1, 6, 0x20, 0x9a]
    );
    assert_eq!(
        listening_address(65535).as_bytes(),
        [4, 127, 0, 0, 1, 6, 255, 255]
    );
}

#[test]
fn every_listening_address_is_parsed_to_its_port() {
    for port in 0..=u16::MAX {
        let address = listening_address(port);
        let expected = [4, 127, 0, 0, 1, 6, (port >> 8) as u8, (port & 0xff) as u8];
        assert_eq!(address.as_bytes(), expected);
    }
}

#[test]
fn listening_address_is_the_one_that_the_service_reads() {
    let bytes = listening_address(1234).as_bytes().to_vec();
    let address = tentacle::multiaddr::Multiaddr::try_from(bytes).unwrap();
    assert_eq!(address.to_string(), "/ip4/127.0.0.1/tcp/1234");
}

#[test]
fn ports_have_their_own_address() {
    assert_ne!(listening_address(1), listening_address(256));
    assert_ne!(listening_address_text(1), listening_address_text(11));
}

#[test]
fn multiaddr_keeps_its_bytes() {
    let address = Multiaddr::from_bytes(vec![4, 10, 0, 0, 1]).unwrap();
    assert_eq!(address.as_bytes(), [4, 10, 0, 0, 1]);
    assert_eq!(address.clone(), address);
    assert_ne!(Multiaddr::from_bytes(vec![4, 10, 0, 0, 2]).unwrap(), address);
}

#[test]
fn multiaddr_refuses_other_bytes() {
    assert_eq!(Multiaddr::from_bytes(vec![4, 10, 0, 0]), None);
    assert_eq!(Multiaddr::from_bytes(vec![1, 2, 3]), None);
    assert_eq!(Multiaddr::from_bytes(vec![4, 10, 0, 0, 1, 6, 80]), None);
}
