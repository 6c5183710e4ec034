//! Public keys and the peer ids that are derived from them.

use std::sync::Arc;
use vstd::prelude::*;

verus! {

/// The public key that a remote node proved to own, as its serialized bytes.
#[derive(Clone, Debug, PartialEq, Eq)]
pub struct PublicKey {
    pub raw: Vec<u8>,
}

impl View for PublicKey {
    type V = Seq<u8>;

    open spec fn view(&self) -> Seq<u8> {
        self.raw@
    }
}

/// The code of the hash function that makes the digest in a peer id.
pub const SHA256_CODE: u8 = 0x12;

/// How many bytes of digest a peer id holds.
pub const SHA256_SIZE: u8 = 32;

/// Whether a digest and nothing else follows the first `n` bytes, with its length before it.
pub open spec fn digest_follows(bytes: Seq<u8>, n: int) -> bool {
    bytes.len() == n + 1 + SHA256_SIZE && bytes[n] == SHA256_SIZE
}

/// Whether `bytes` are a peer id as it is made from a key: the hash code in one byte, and the
/// digest.
pub open spec fn derived_peer_id(bytes: Seq<u8>) -> bool {
    digest_follows(bytes, 1) && bytes[0] == SHA256_CODE
}

/// Whether `bytes` are a peer id whose hash code is spread over the ten bytes that the longest
/// variable-length integer has. All but the lowest bit of the tenth byte is lost as it is read, so
/// that the integer is the hash code still.
pub open spec fn overlong_peer_id(bytes: Seq<u8>) -> bool {
    &&& digest_follows(bytes, 10)
    &&& bytes[0] == 0x80 + SHA256_CODE
    &&& forall|i: int| 1 <= i < 9 ==> #[trigger] bytes[i] == 0x80
    &&& 0 < bytes[9] < 0x80
    &&& bytes[9] % 2 == 0
}

/// Whether `bytes` are a peer id: the code of the hash function and a digest.
pub open spec fn valid_peer_id(bytes: Seq<u8>) -> bool {
    derived_peer_id(bytes) || overlong_peer_id(bytes)
}

/// The identifier of a peer, as its raw bytes.
#[derive(Debug, PartialEq, Eq)]
pub struct PeerId {
    bytes: Arc<Vec<u8>>,
}

impl View for PeerId {
    type V = Seq<u8>;

    closed spec fn view(&self) -> Seq<u8> {
        self.bytes@
    }
}

impl Clone for PeerId {
    fn clone(&self) -> (copy: PeerId)
        ensures
            copy == *self,
    {
        proof {
            use_type_invariant(self);
        }
        PeerId { bytes: self.bytes.clone() }
    }
}

/// The peer id that `tentacle::secio` derives from the public key with the bytes `key`.
pub uninterp spec fn peer_id_of_key(key: Seq<u8>) -> Seq<u8>;

/// Calls `PeerId::from` of `tentacle::secio` on the `PublicKey` with the bytes `raw_key`.
///
/// Claimed of it: the result depends on the bytes of the key alone, and consists of the hash code
/// of SHA-256 in one byte, the digest length and that many bytes of digest. Which digest it is, is
/// not said.
#[verifier::external_body]
fn secio_peer_id(raw_key: &Vec<u8>) -> (id: Vec<u8>)
    ensures
        id@ == peer_id_of_key(raw_key@),
        derived_peer_id(id@),
{
    let key = tentacle::secio::PublicKey::from_raw_key(raw_key.clone());
    tentacle::secio::PeerId::from(key).into_bytes()
}

/// Calls `PeerId::from_bytes` of `tentacle::secio` on the bytes, and says whether it took them.
///
/// Claimed of it: it takes the bytes if and only if the variable-length integer at their start is
/// the hash code of SHA-256 and a digest follows, with its length before it. The integer is read
/// into 64 bits, must not end in a zero byte, and may be ten bytes long with bits that do not fit.
#[verifier::external_body]
fn is_peer_id(bytes: &Vec<u8>) -> (valid: bool)
    ensures
        valid == valid_peer_id(bytes@),
{
    tentacle::secio::PeerId::from_bytes(bytes.clone()).is_ok()
}

impl PeerId {
    #[verifier::type_invariant]
    spec fn well_formed(self) -> bool {
        valid_peer_id(self.bytes@)
    }

    /// The peer id that consists of `bytes`, if they are one.
    pub fn from_bytes(bytes: Vec<u8>) -> (id: Option<PeerId>)
        ensures
            match id {
                Some(id) => valid_peer_id(bytes@) && id@ == bytes@,
                None => !valid_peer_id(bytes@),
            },
    {
        if is_peer_id(&bytes) {
            Some(PeerId { bytes: Arc::new(bytes) })
        } else {
            None
        }
    }

    /// The peer id of the node that owns `key`.
    pub fn from_public_key(key: &PublicKey) -> (id: PeerId)
        ensures
            id@ == peer_id_of_key(key@),
            derived_peer_id(id@),
    {
        PeerId { bytes: Arc::new(secio_peer_id(&key.raw)) }
    }

    /// The bytes of this peer id.
    pub fn as_bytes(&self) -> (bytes: &[u8])
        ensures
            bytes@ == self@,
            valid_peer_id(bytes@),
    {
        proof {
            use_type_invariant(self);
        }
        self.bytes.as_slice()
    }

    /// Whether the two ids name the same peer.
    pub fn same(&self, other: &PeerId) -> (r: bool)
        ensures
            r == (self@ == other@),
    {
        let r = *self.bytes == *other.bytes;
        assert(r ==> self@ =~= other@);
        r
    }
}

} // verus!
