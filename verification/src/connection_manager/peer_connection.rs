use crate::connection::ConnectionDirection;
use crate::multiaddr::Multiaddr;
use crate::peer_manager::NodeId;
use crate::protocol::{protocol_ids, ProtocolId};
use vstd::prelude::*;

verus! {

/// An established connection with a peer that the registry has taken: what
/// the upgrade chain of one connection ends in. `M` is the handle of the
/// stream multiplexer that carries the connection's substreams.
#[derive(Debug, PartialEq, Eq)]
pub struct PeerConnection<M> {
    pub peer_addr: Multiaddr,
    pub peer_node_id: NodeId,
    pub direction: ConnectionDirection,
    pub muxer: M,
    /// The protocols that the peer supports, as its identity claim lists them.
    pub supported_protocols: Vec<ProtocolId>,
    /// The protocols that this node supports.
    pub our_supported_protocols: Vec<ProtocolId>,
}

/// A peer connection as plain values, around the multiplexer's handle.
pub struct PeerConnectionView<M> {
    pub peer_addr: Seq<char>,
    pub peer_node_id: Seq<u8>,
    pub direction: ConnectionDirection,
    pub muxer: M,
    pub supported_protocols: Seq<Seq<u8>>,
    pub our_supported_protocols: Seq<Seq<u8>>,
}

impl<M> View for PeerConnection<M> {
    type V = PeerConnectionView<M>;

    open spec fn view(&self) -> PeerConnectionView<M> {
        PeerConnectionView {
            peer_addr: self.peer_addr@,
            peer_node_id: self.peer_node_id@,
            direction: self.direction,
            muxer: self.muxer,
            supported_protocols: protocol_ids(self.supported_protocols@),
            our_supported_protocols: protocol_ids(self.our_supported_protocols@),
        }
    }
}

/// Puts a peer connection together, from the multiplexer, what is known of
/// the peer and the protocols of both sides. Nothing here can fail: whatever
/// the connection has to do on the wire, it does later.
pub fn create<M>(
    muxer: M,
    peer_addr: Multiaddr,
    peer_node_id: NodeId,
    direction: ConnectionDirection,
    supported_protocols: Vec<ProtocolId>,
    our_supported_protocols: Vec<ProtocolId>,
) -> (connection: PeerConnection<M>)
    ensures
        connection@ == (PeerConnectionView {
            peer_addr: peer_addr@,
            peer_node_id: peer_node_id@,
            direction,
            muxer,
            supported_protocols: protocol_ids(supported_protocols@),
            our_supported_protocols: protocol_ids(our_supported_protocols@),
        }),
{
    PeerConnection { peer_addr, peer_node_id, direction, muxer, supported_protocols, our_supported_protocols }
}

} // verus!
