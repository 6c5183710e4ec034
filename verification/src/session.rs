//! What the actor knows of the sessions of the p2p service.

use crate::address::Multiaddr;
use crate::identity::PublicKey;
use vstd::prelude::*;

verus! {

/// The index of a session in the p2p service.
pub type SessionId = usize;

/// The index of a protocol in the p2p service.
pub type ProtocolId = usize;

/// The protocol that carries channel messages.
pub const PCN_PROTOCOL_ID: ProtocolId = 42;

/// Which side opened a session.
#[derive(Clone, Copy, Debug, PartialEq, Eq)]
pub enum SessionType {
    Outbound,
    Inbound,
}

/// One session with a remote node.
#[derive(Clone, Debug, PartialEq, Eq)]
pub struct SessionContext {
    pub id: SessionId,
    pub address: Multiaddr,
    pub ty: SessionType,
    /// The key of the remote node, unless the session is not encrypted.
    pub remote_pubkey: Option<PublicKey>,
}

} // verus!
