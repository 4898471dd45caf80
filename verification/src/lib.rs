//! Inbound connection establishment for a peer-to-peer node: the decisions of
//! the peer listener and of the upgrade chain that turns a raw socket into an
//! authenticated, multiplexed peer connection.

pub mod connection;
pub mod connection_manager;
pub mod multiaddr;
pub mod peer_manager;
pub mod pipeline;
pub mod protocol;
