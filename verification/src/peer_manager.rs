use crate::multiaddr::{address_texts, Multiaddr};
use crate::protocol::{protocol_ids, ProtocolId};
use vstd::prelude::*;
use vstd::std_specs::cmp::PartialEqSpecImpl;

verus! {

/// A static public key, by its bytes. One that came out of the
/// encrypted-channel handshake is authenticated; one inside an identity claim
/// is only asserted by the remote.
#[derive(Debug, Hash)]
pub struct PublicKey(pub Vec<u8>);

impl View for PublicKey {
    type V = Seq<u8>;

    open spec fn view(&self) -> Seq<u8> {
        self.0@
    }
}

impl Clone for PublicKey {
    fn clone(&self) -> (copy: Self)
        ensures
            copy@ == self@,
    {
        PublicKey(self.0.clone())
    }
}

impl PartialEq for PublicKey {
    /// Two keys are equal when their bytes are.
    fn eq(&self, other: &Self) -> (same: bool) {
        let same = self.0 == other.0;
        proof {
            if same {
                assert(self.0@ =~= other.0@);
            }
        }
        same
    }
}

impl Eq for PublicKey {

}

impl PartialEqSpecImpl for PublicKey {
    open spec fn obeys_eq_spec() -> bool {
        true
    }

    open spec fn eq_spec(&self, other: &Self) -> bool {
        self@ == other@
    }
}

/// The stable identifier that the peer registry gives a peer.
#[derive(Debug, PartialEq, Eq, Hash)]
pub struct NodeId(pub Vec<u8>);

impl View for NodeId {
    type V = Seq<u8>;

    open spec fn view(&self) -> Seq<u8> {
        self.0@
    }
}

impl Clone for NodeId {
    fn clone(&self) -> (copy: Self)
        ensures
            copy@ == self@,
    {
        NodeId(self.0.clone())
    }
}

/// What a remote peer says of itself during the identity exchange. It is for
/// the peer registry to hold the claimed key against the authenticated one,
/// and to reject a claim that names another.
#[derive(Debug, PartialEq, Eq)]
pub struct PeerIdentityClaim {
    pub public_key: PublicKey,
    pub addresses: Vec<Multiaddr>,
    pub supported_protocols: Vec<ProtocolId>,
}

/// A claim as plain values.
pub struct PeerIdentityClaimView {
    pub public_key: Seq<u8>,
    pub addresses: Seq<Seq<char>>,
    pub supported_protocols: Seq<Seq<u8>>,
}

impl View for PeerIdentityClaim {
    type V = PeerIdentityClaimView;

    open spec fn view(&self) -> PeerIdentityClaimView {
        PeerIdentityClaimView {
            public_key: self.public_key@,
            addresses: address_texts(self.addresses@),
            supported_protocols: protocol_ids(self.supported_protocols@),
        }
    }
}

} // verus!
