//! The network actor of a payment channel node: which peers it knows, what it does with each
//! message, and what the callbacks of its p2p service tell it.
//!
//! Actors, sockets and wire encodings stay with the caller. The library decides: it takes plain
//! values in and hands back what is to be done.

pub mod address;
pub mod calls;
pub mod effects;
pub mod handle;
pub mod identity;
pub mod laws;
pub mod message;
pub mod network;
pub mod peers;
pub mod session;

pub use message::{
    NetworkActorCommand, NetworkActorEvent, NetworkActorMessage, NetworkRequest, NetworkRequestId,
    NetworkResponse, NetworkServiceEvent,
};
pub use network::{NetworkActor, NetworkActorState};
