# ckb_network

The network actor of a payment channel node, verified with Verus.

The library decides and the program around it acts. `NetworkActor::handle` takes a message and
returns the actions to perform, in order; `Handle` turns the callbacks of the p2p service into
messages; `NetworkActorState` holds the known peers and their actors.

- `src/message.rs`: the messages that the actors exchange
- `src/network.rs`: the network actor, its state and its actions
- `src/handle.rs`: the callbacks of the p2p service
- `src/peers.rs`: the table of known peers
- `src/identity.rs`, `src/address.rs`, `src/session.rs`: peer ids, addresses and sessions
- `src/laws.rs`: what holds over any message and any run of messages
- `app/`: the actor and the service themselves, on `ractor` and `tentacle`

Peer ids are derived and checked by `tentacle::secio`, and addresses are parsed and checked by
`tentacle::multiaddr`; what is relied on there stands above `secio_peer_id`, `is_peer_id`,
`parse_multiaddr` and `is_multiaddr`.
