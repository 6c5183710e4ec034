use ckb_network::identity::PeerId;
use ckb_network::peers::PeerTable;
use std::sync::Arc;

fn id(n: u8) -> PeerId {
    let mut bytes = vec![0x12, 32];
    bytes.extend_from_slice(&[n; 32]);
    PeerId::from_bytes(bytes).unwrap()
}

#[test]
fn table_starts_empty() {
    let mut table: PeerTable<u64> = PeerTable::new();
    assert!(table.get(&id(1)).is_none());
    assert!(table.remove(&id(1)).is_none());
}

#[test]
fn inserted_peers_are_found() {
    let mut table = PeerTable::new();
    table.insert(id(1), Arc::new(10u64));
    table.insert(id(2), Arc::new(20));
    assert_eq!(table.get(&id(1)), Some(&Arc::new(10)));
    assert_eq!(table.get(&id(2)), Some(&Arc::new(20)));
    assert!(table.get(&id(3)).is_none());
}

#[test]
fn insert_replaces() {
    let mut table = PeerTable::new();
    table.insert(id(1), Arc::new(10u64));
    table.insert(id(2), Arc::new(20));
    table.insert(id(1), Arc::new(11));
    assert_eq!(table.get(&id(1)), Some(&Arc::new(11)));
    assert_eq!(table.get(&id(2)), Some(&Arc::new(20)));
    assert_eq!(table.remove(&id(1)), Some(Arc::new(11)));
    assert!(table.get(&id(1)).is_none());
}

#[test]
fn remove_takes_out_one_peer() {
    let mut table = PeerTable::new();
    table.insert(id(1), Arc::new(10u64));
    table.insert(id(2), Arc::new(20));
    table.insert(id(3), Arc::new(30));
    assert_eq!(table.remove(&id(2)), Some(Arc::new(20)));
    assert!(table.remove(&id(2)).is_none());
    assert_eq!(table.get(&id(1)), Some(&Arc::new(10)));
    assert_eq!(table.get(&id(3)), Some(&Arc::new(30)));
}
