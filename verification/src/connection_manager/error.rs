use vstd::prelude::*;

verus! {

/// Why a listener could not listen, or why an inbound connection did not
/// become a peer connection. Each variant but the first belongs to one stage
/// of the upgrade chain; the text is the outside component's own account.
#[derive(Debug, PartialEq, Eq)]
pub enum ConnectionManagerError {
    /// The transport failed: it could not bind the listen address, or it could
    /// not hand over an inbound socket.
    TransportError(String),
    /// The encrypted-channel handshake failed.
    NoiseError(String),
    /// The handshake completed, but bound no static public key.
    InvalidStaticPublicKey,
    /// The multiplexing handshake failed.
    YamuxUpgradeFailure(String),
    /// The identity exchange failed: it timed out, or the remote sent a
    /// malformed claim or broke the protocol.
    IdentityExchangeError(String),
    /// The peer registry rejected the peer: the claimed public key is not the
    /// authenticated one, or the registry would not take the peer.
    PeerValidationError(String),
}

/// An error as plain values.
pub enum ConnectionManagerErrorView {
    TransportError(Seq<char>),
    NoiseError(Seq<char>),
    InvalidStaticPublicKey,
    YamuxUpgradeFailure(Seq<char>),
    IdentityExchangeError(Seq<char>),
    PeerValidationError(Seq<char>),
}

impl View for ConnectionManagerError {
    type V = ConnectionManagerErrorView;

    open spec fn view(&self) -> ConnectionManagerErrorView {
        match self {
            ConnectionManagerError::TransportError(reason) => {
                ConnectionManagerErrorView::TransportError(reason@)
            },
            ConnectionManagerError::NoiseError(reason) => {
                ConnectionManagerErrorView::NoiseError(reason@)
            },
            ConnectionManagerError::InvalidStaticPublicKey => {
                ConnectionManagerErrorView::InvalidStaticPublicKey
            },
            ConnectionManagerError::YamuxUpgradeFailure(reason) => {
                ConnectionManagerErrorView::YamuxUpgradeFailure(reason@)
            },
            ConnectionManagerError::IdentityExchangeError(reason) => {
                ConnectionManagerErrorView::IdentityExchangeError(reason@)
            },
            ConnectionManagerError::PeerValidationError(reason) => {
                ConnectionManagerErrorView::PeerValidationError(reason@)
            },
        }
    }
}

} // verus!
