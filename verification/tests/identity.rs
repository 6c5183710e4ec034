use ckb_network::identity::{PeerId, PublicKey};

fn key(bytes: &[u8]) -> PublicKey {
    PublicKey { raw: bytes.to_vec() }
}

#[test]
fn peer_id_is_the_tagged_hash_of_the_key() {
    let id = PeerId::from_public_key(&key(b"abc"));
    let mut expected = vec![0x12, 32];
    expected.extend_from_slice(&[
        0xba, 0x78, 0x16, 0xbf, 0x8f, 0x01, 0xcf, 0xea, 0x41, 0x41, 0x40, 0xde, 0x5d, 0xae, 0x22,
        0x23, 0xb0, 0x03, 0x61, 0xa3, 0x96, 0x17, 0x7a, 0x9c, 0xb4, 0x10, 0xff, 0x61, 0xf2, 0x00,
        0x15, 0xad,
    ]);
    assert_eq!(id.as_bytes(), expected);
}

#[test]
fn peer_id_of_a_generated_key() {
    let pair = tentacle::secio::SecioKeyPair::secp256k1_generated();
    let public = pair.public_key();
    let id = PeerId::from_public_key(&key(public.inner_ref()));
    assert_eq!(id.as_bytes(), pair.peer_id().as_bytes());
    assert!(tentacle::secio::PeerId::from_bytes(id.as_bytes().to_vec()).is_ok());
}

fn bytes(last: u8) -> Vec<u8> {
    let mut bytes = vec![0x12, 32];
    bytes.extend_from_slice(&[0; 31]);
    bytes.push(last);
    bytes
}

#[test]
fn peer_ids_are_compared_by_their_bytes() {
    let a = PeerId::from_bytes(bytes(1)).unwrap();
    assert_eq!(a.as_bytes(), bytes(1));
    assert!(a.same(&PeerId::from_bytes(bytes(1)).unwrap()));
    assert!(a.same(&a.clone()));
    assert!(!a.same(&PeerId::from_bytes(bytes(2)).unwrap()));
}

#[test]
fn peer_id_refuses_other_bytes() {
    let mut wrong_code = bytes(1);
    wrong_code[0] = 0x13;
    let mut wrong_size = bytes(1);
    wrong_size[1] = 31;
    let mut too_long = bytes(1);
    too_long.push(0);
    let too_short = bytes(1)[..33].to_vec();
    for candidate in [wrong_code, wrong_size, too_long, too_short, vec![], vec![0x12]] {
        assert!(tentacle::secio::PeerId::from_bytes(candidate.clone()).is_err());
        assert_eq!(PeerId::from_bytes(candidate), None);
    }
    assert!(tentacle::secio::PeerId::from_bytes(bytes(1)).is_ok());
}

fn overlong(tenth: u8) -> Vec<u8> {
    let mut bytes = vec![0x92];
    bytes.extend_from_slice(&[0x80; 8]);
    bytes.push(tenth);
    bytes.push(32);
    bytes.extend_from_slice(&[7; 32]);
    bytes
}

#[test]
fn peer_id_with_an_overlong_hash_code_is_taken() {
    for tenth in (2..0x80).step_by(2) {
        assert!(tentacle::secio::PeerId::from_bytes(overlong(tenth)).is_ok());
        let id = PeerId::from_bytes(overlong(tenth)).unwrap();
        assert_eq!(id.as_bytes(), overlong(tenth));
    }
}

#[test]
fn peer_id_with_another_overlong_number_is_refused() {
    let mut cases: Vec<Vec<u8>> = (0x80..=0xff).map(overlong).collect();
    cases.extend((1..0x80).step_by(2).map(overlong));
    cases.push(overlong(0));
    for i in 1..9 {
        let mut other_bit = overlong(2);
        other_bit[i] = 0x81;
        cases.push(other_bit);
        let mut ends_early = overlong(2);
        ends_early[i] = 0x02;
        cases.push(ends_early);
    }
    let mut other_code = overlong(2);
    other_code[0] = 0x93;
    cases.push(other_code);
    let mut other_size = overlong(2);
    other_size[10] = 31;
    cases.push(other_size);
    let mut too_long = overlong(2);
    too_long.push(0);
    cases.push(too_long);
    cases.push(overlong(2)[..42].to_vec());
    for candidate in cases {
        assert!(tentacle::secio::PeerId::from_bytes(candidate.clone()).is_err());
        assert_eq!(PeerId::from_bytes(candidate), None);
    }
}

#[test]
fn peer_id_shorter_codes_are_taken_in_one_byte_only() {
    for n in 2..12 {
        let mut candidate = vec![0x92];
        candidate.extend_from_slice(&vec![0x80; n - 2]);
        candidate.push(0);
        candidate.push(32);
        candidate.extend_from_slice(&[7; 32]);
        assert!(tentacle::secio::PeerId::from_bytes(candidate.clone()).is_err());
        assert_eq!(PeerId::from_bytes(candidate), None);
    }
}
