//! The upgrade chain: what turns the raw socket of an inbound connection into
//! a peer connection, or gives the connection up.
//!
//! The stages are the security upgrade, the extraction of the authenticated
//! public key, the multiplexing upgrade, the identity exchange, the validation
//! by the peer registry and the construction of the connection. The work of a
//! stage is done outside; the chain decides, from how it ended, what comes
//! next. [`upgrade_step`] says what.
//!
//! Every claim goes to the registry with the authenticated key. It is the
//! registry that holds the claim against the key and rejects one that names
//! another: the chain passes its answer on, and makes the connection when
//! the registry has taken the peer.

use crate::connection::ConnectionDirection;
use crate::connection_manager::error::{ConnectionManagerError, ConnectionManagerErrorView};
use crate::connection_manager::peer_connection::{create, PeerConnection, PeerConnectionView};
use crate::multiaddr::Multiaddr;
use crate::peer_manager::{NodeId, PeerIdentityClaim, PeerIdentityClaimView, PublicKey};
use crate::protocol::{duplicate_protocols, protocol_ids, ProtocolId};
use vstd::prelude::*;

verus! {

/// The outside work that an upgrade chain asks for next. Each request hands
/// over what the work consumes: `S` is a raw socket, `E` an encrypted socket
/// and `M` a stream multiplexer.
#[derive(Debug, PartialEq, Eq)]
pub enum UpgradeRequest<S, E, M> {
    /// Run the encrypted-channel handshake on the raw socket.
    SecurityUpgrade { socket: S, direction: ConnectionDirection },
    /// Run the multiplexing handshake on the encrypted socket.
    MultiplexingUpgrade { encrypted_socket: E, direction: ConnectionDirection },
    /// Exchange identities with the remote over the multiplexer, and hand the
    /// multiplexer back with the remote's claim.
    IdentityExchange { muxer: M, direction: ConnectionDirection },
    /// Submit the authenticated key and the remote's claim to the registry,
    /// which validates the claim against the key.
    RegisterPeer { authenticated_public_key: PublicKey, claim: PeerIdentityClaim },
}

/// A request as plain values, around the handles.
pub enum UpgradeRequestView<S, E, M> {
    SecurityUpgrade { socket: S, direction: ConnectionDirection },
    MultiplexingUpgrade { encrypted_socket: E, direction: ConnectionDirection },
    IdentityExchange { muxer: M, direction: ConnectionDirection },
    RegisterPeer { authenticated_public_key: Seq<u8>, claim: PeerIdentityClaimView },
}

impl<S, E, M> View for UpgradeRequest<S, E, M> {
    type V = UpgradeRequestView<S, E, M>;

    open spec fn view(&self) -> UpgradeRequestView<S, E, M> {
        match self {
            UpgradeRequest::SecurityUpgrade { socket, direction } => {
                UpgradeRequestView::SecurityUpgrade { socket: *socket, direction: *direction }
            },
            UpgradeRequest::MultiplexingUpgrade { encrypted_socket, direction } => {
                UpgradeRequestView::MultiplexingUpgrade {
                    encrypted_socket: *encrypted_socket,
                    direction: *direction,
                }
            },
            UpgradeRequest::IdentityExchange { muxer, direction } => {
                UpgradeRequestView::IdentityExchange { muxer: *muxer, direction: *direction }
            },
            UpgradeRequest::RegisterPeer { authenticated_public_key, claim } => {
                UpgradeRequestView::RegisterPeer {
                    authenticated_public_key: authenticated_public_key@,
                    claim: claim@,
                }
            },
        }
    }
}

/// How a piece of outside work ended.
#[derive(Debug, PartialEq, Eq)]
pub enum UpgradeEvent<E, M> {
    /// The encrypted-channel handshake completed. `remote_public_key` is the
    /// static key that it bound to the remote, if it bound one.
    SecurityUpgraded { encrypted_socket: E, remote_public_key: Option<PublicKey> },
    /// The encrypted-channel handshake failed.
    SecurityUpgradeFailed { reason: String },
    /// The multiplexing handshake completed.
    MultiplexingUpgraded { muxer: M },
    /// The multiplexing handshake failed.
    MultiplexingUpgradeFailed { reason: String },
    /// The identity exchange completed: the multiplexer comes back, with what
    /// the remote says of itself.
    IdentityExchanged { muxer: M, claim: PeerIdentityClaim },
    /// The identity exchange failed.
    IdentityExchangeFailed { reason: String },
    /// The registry took the peer and knows it under `node_id`.
    PeerRegistered { node_id: NodeId },
    /// The registry did not take the peer.
    PeerRejected { reason: String },
}

/// An event as plain values, around the handles.
pub enum UpgradeEventView<E, M> {
    SecurityUpgraded { encrypted_socket: E, remote_public_key: Option<Seq<u8>> },
    SecurityUpgradeFailed { reason: Seq<char> },
    MultiplexingUpgraded { muxer: M },
    MultiplexingUpgradeFailed { reason: Seq<char> },
    IdentityExchanged { muxer: M, claim: PeerIdentityClaimView },
    IdentityExchangeFailed { reason: Seq<char> },
    PeerRegistered { node_id: Seq<u8> },
    PeerRejected { reason: Seq<char> },
}

impl<E, M> View for UpgradeEvent<E, M> {
    type V = UpgradeEventView<E, M>;

    open spec fn view(&self) -> UpgradeEventView<E, M> {
        match self {
            UpgradeEvent::SecurityUpgraded { encrypted_socket, remote_public_key } => {
                UpgradeEventView::SecurityUpgraded {
                    encrypted_socket: *encrypted_socket,
                    remote_public_key: match remote_public_key {
                        Some(key) => Some(key@),
                        None => None,
                    },
                }
            },
            UpgradeEvent::SecurityUpgradeFailed { reason } => UpgradeEventView::SecurityUpgradeFailed {
                reason: reason@,
            },
            UpgradeEvent::MultiplexingUpgraded { muxer } => UpgradeEventView::MultiplexingUpgraded { muxer: *muxer },
            UpgradeEvent::MultiplexingUpgradeFailed { reason } => UpgradeEventView::MultiplexingUpgradeFailed {
                reason: reason@,
            },
            UpgradeEvent::IdentityExchanged { muxer, claim } => UpgradeEventView::IdentityExchanged {
                muxer: *muxer,
                claim: claim@,
            },
            UpgradeEvent::IdentityExchangeFailed { reason } => UpgradeEventView::IdentityExchangeFailed {
                reason: reason@,
            },
            UpgradeEvent::PeerRegistered { node_id } => UpgradeEventView::PeerRegistered { node_id: node_id@ },
            UpgradeEvent::PeerRejected { reason } => UpgradeEventView::PeerRejected { reason: reason@ },
        }
    }
}

/// What a chain holds while outside work is under way. The raw and the
/// encrypted socket are with that work; the chain holds the multiplexer only
/// while the registry decides, with the protocols that the peer claims to
/// support.
#[derive(Debug, PartialEq, Eq)]
enum Progress<M> {
    AwaitingSecurity,
    AwaitingMultiplexing { authenticated_public_key: PublicKey },
    AwaitingIdentity { authenticated_public_key: PublicKey },
    AwaitingRegistry { muxer: M, supported_protocols: Vec<ProtocolId> },
}

/// The progress of a chain as plain values.
pub enum UpgradeProgressView<M> {
    AwaitingSecurity,
    AwaitingMultiplexing { authenticated_public_key: Seq<u8> },
    AwaitingIdentity { authenticated_public_key: Seq<u8> },
    AwaitingRegistry { muxer: M, supported_protocols: Seq<Seq<u8>> },
}

/// The stage at which a chain stands.
#[derive(Debug, Clone, Copy, PartialEq, Eq, Hash, Structural)]
pub enum UpgradeStage {
    Security,
    Multiplexing,
    IdentityExchange,
    RegistryValidation,
}

impl<M> UpgradeProgressView<M> {
    /// The stage whose outside work is under way.
    pub open spec fn stage(self) -> UpgradeStage {
        match self {
            UpgradeProgressView::AwaitingSecurity => UpgradeStage::Security,
            UpgradeProgressView::AwaitingMultiplexing { .. } => UpgradeStage::Multiplexing,
            UpgradeProgressView::AwaitingIdentity { .. } => UpgradeStage::IdentityExchange,
            UpgradeProgressView::AwaitingRegistry { .. } => UpgradeStage::RegistryValidation,
        }
    }
}

/// The upgrade of one inbound connection, from raw socket to peer connection,
/// between two pieces of outside work.
#[derive(Debug, PartialEq, Eq)]
pub struct UpgradeChain<M> {
    peer_addr: Multiaddr,
    progress: Progress<M>,
}

/// A chain as plain values.
pub struct UpgradeChainView<M> {
    pub peer_addr: Seq<char>,
    pub progress: UpgradeProgressView<M>,
}

impl<M> View for UpgradeChain<M> {
    type V = UpgradeChainView<M>;

    closed spec fn view(&self) -> UpgradeChainView<M> {
        UpgradeChainView {
            peer_addr: self.peer_addr@,
            progress: match self.progress {
                Progress::AwaitingSecurity => UpgradeProgressView::AwaitingSecurity,
                Progress::AwaitingMultiplexing { authenticated_public_key } => {
                    UpgradeProgressView::AwaitingMultiplexing {
                        authenticated_public_key: authenticated_public_key@,
                    }
                },
                Progress::AwaitingIdentity { authenticated_public_key } => {
                    UpgradeProgressView::AwaitingIdentity {
                        authenticated_public_key: authenticated_public_key@,
                    }
                },
                Progress::AwaitingRegistry { muxer, supported_protocols } => {
                    UpgradeProgressView::AwaitingRegistry {
                        muxer,
                        supported_protocols: protocol_ids(supported_protocols@),
                    }
                },
            },
        }
    }
}

/// What one event made of a chain.
#[derive(Debug, PartialEq, Eq)]
pub enum UpgradeOutcome<S, E, M> {
    /// The chain goes on, with the next piece of outside work.
    Continue { chain: UpgradeChain<M>, request: UpgradeRequest<S, E, M> },
    /// The chain is over: the connection, or why there is none.
    Finished(Result<PeerConnection<M>, ConnectionManagerError>),
    /// The event is no answer to what the chain asked for: chain and event
    /// come back as they were.
    Unexpected { chain: UpgradeChain<M>, event: UpgradeEvent<E, M> },
}

/// An outcome as plain values.
pub enum UpgradeOutcomeView<S, E, M> {
    Continue { chain: UpgradeChainView<M>, request: UpgradeRequestView<S, E, M> },
    Finished(Result<PeerConnectionView<M>, ConnectionManagerErrorView>),
    Unexpected { chain: UpgradeChainView<M>, event: UpgradeEventView<E, M> },
}

impl<S, E, M> View for UpgradeOutcome<S, E, M> {
    type V = UpgradeOutcomeView<S, E, M>;

    open spec fn view(&self) -> UpgradeOutcomeView<S, E, M> {
        match self {
            UpgradeOutcome::Continue { chain, request } => UpgradeOutcomeView::Continue {
                chain: chain@,
                request: request@,
            },
            UpgradeOutcome::Finished(Ok(connection)) => UpgradeOutcomeView::Finished(Ok(connection@)),
            UpgradeOutcome::Finished(Err(error)) => UpgradeOutcomeView::Finished(Err(error@)),
            UpgradeOutcome::Unexpected { chain, event } => UpgradeOutcomeView::Unexpected {
                chain: chain@,
                event: event@,
            },
        }
    }
}

/// The chain of a connection from `peer_addr` whose raw socket has just been
/// handed to the security upgrade.
pub open spec fn upgrade_begin<M>(peer_addr: Seq<char>) -> UpgradeChainView<M> {
    UpgradeChainView { peer_addr, progress: UpgradeProgressView::AwaitingSecurity }
}

/// What `event` makes of `chain`, for a listener that supports `protocols`.
///
/// The stages follow one another in a fixed order: security upgrade, key
/// extraction, multiplexing upgrade, identity exchange, registry validation,
/// construction. A stage that fails ends the chain with the error of that
/// stage, passed on as it came, and nothing is asked of the stages after it.
///
/// Whatever the claim says, it is submitted to the registry with the
/// authenticated key: it is the registry that rejects a claim that names
/// another key. What the registry rejects fails with the registry's own
/// reason, and a peer that it takes becomes a connection. The connection is
/// inbound, and knows the protocols of both sides: those that the peer's
/// claim lists, and `protocols`.
pub open spec fn upgrade_step<S, E, M>(
    chain: UpgradeChainView<M>,
    event: UpgradeEventView<E, M>,
    protocols: Seq<Seq<u8>>,
) -> UpgradeOutcomeView<S, E, M> {
    match (chain.progress, event) {
        (
            UpgradeProgressView::AwaitingSecurity,
            UpgradeEventView::SecurityUpgraded { encrypted_socket, remote_public_key: Some(key) },
        ) => UpgradeOutcomeView::Continue {
            chain: UpgradeChainView {
                peer_addr: chain.peer_addr,
                progress: UpgradeProgressView::AwaitingMultiplexing { authenticated_public_key: key },
            },
            request: UpgradeRequestView::MultiplexingUpgrade {
                encrypted_socket,
                direction: ConnectionDirection::Inbound,
            },
        },
        (
            UpgradeProgressView::AwaitingSecurity,
            UpgradeEventView::SecurityUpgraded { remote_public_key: None, .. },
        ) => UpgradeOutcomeView::Finished(Err(ConnectionManagerErrorView::InvalidStaticPublicKey)),
        (
            UpgradeProgressView::AwaitingSecurity,
            UpgradeEventView::SecurityUpgradeFailed { reason },
        ) => UpgradeOutcomeView::Finished(Err(ConnectionManagerErrorView::NoiseError(reason))),
        (
            UpgradeProgressView::AwaitingMultiplexing { authenticated_public_key },
            UpgradeEventView::MultiplexingUpgraded { muxer },
        ) => UpgradeOutcomeView::Continue {
            chain: UpgradeChainView {
                peer_addr: chain.peer_addr,
                progress: UpgradeProgressView::AwaitingIdentity { authenticated_public_key },
            },
            request: UpgradeRequestView::IdentityExchange { muxer, direction: ConnectionDirection::Inbound },
        },
        (
            UpgradeProgressView::AwaitingMultiplexing { .. },
            UpgradeEventView::MultiplexingUpgradeFailed { reason },
        ) => UpgradeOutcomeView::Finished(Err(ConnectionManagerErrorView::YamuxUpgradeFailure(reason))),
        (
            UpgradeProgressView::AwaitingIdentity { authenticated_public_key },
            UpgradeEventView::IdentityExchanged { muxer, claim },
        ) => UpgradeOutcomeView::Continue {
            chain: UpgradeChainView {
                peer_addr: chain.peer_addr,
                progress: UpgradeProgressView::AwaitingRegistry {
                    muxer,
                    supported_protocols: claim.supported_protocols,
                },
            },
            request: UpgradeRequestView::RegisterPeer { authenticated_public_key, claim },
        },
        (
            UpgradeProgressView::AwaitingIdentity { .. },
            UpgradeEventView::IdentityExchangeFailed { reason },
        ) => UpgradeOutcomeView::Finished(Err(ConnectionManagerErrorView::IdentityExchangeError(reason))),
        (
            UpgradeProgressView::AwaitingRegistry { muxer, supported_protocols },
            UpgradeEventView::PeerRegistered { node_id },
        ) => UpgradeOutcomeView::Finished(
            Ok(
                PeerConnectionView {
                    peer_addr: chain.peer_addr,
                    peer_node_id: node_id,
                    direction: ConnectionDirection::Inbound,
                    muxer,
                    supported_protocols,
                    our_supported_protocols: protocols,
                },
            ),
        ),
        (
            UpgradeProgressView::AwaitingRegistry { .. },
            UpgradeEventView::PeerRejected { reason },
        ) => UpgradeOutcomeView::Finished(Err(ConnectionManagerErrorView::PeerValidationError(reason))),
        _ => UpgradeOutcomeView::Unexpected { chain, event },
    }
}

impl<M> UpgradeChain<M> {
    /// Starts the chain of the connection from `peer_addr`: the first request
    /// hands the raw socket to the security upgrade, as the responder.
    pub fn begin<S, E>(socket: S, peer_addr: Multiaddr) -> (started: (Self, UpgradeRequest<S, E, M>))
        ensures
            started.0@ == upgrade_begin::<M>(peer_addr@),
            started.1@ == (UpgradeRequestView::<S, E, M>::SecurityUpgrade {
                socket,
                direction: ConnectionDirection::Inbound,
            }),
    {
        (
            UpgradeChain { peer_addr, progress: Progress::AwaitingSecurity },
            UpgradeRequest::SecurityUpgrade { socket, direction: ConnectionDirection::Inbound },
        )
    }

    /// The address of the remote.
    pub fn peer_addr(&self) -> (peer_addr: &Multiaddr)
        ensures
            peer_addr@ == self@.peer_addr,
    {
        &self.peer_addr
    }

    /// The stage whose outside work is under way.
    pub fn stage(&self) -> (stage: UpgradeStage)
        ensures
            stage == self@.progress.stage(),
    {
        match &self.progress {
            Progress::AwaitingSecurity => UpgradeStage::Security,
            Progress::AwaitingMultiplexing { .. } => UpgradeStage::Multiplexing,
            Progress::AwaitingIdentity { .. } => UpgradeStage::IdentityExchange,
            Progress::AwaitingRegistry { .. } => UpgradeStage::RegistryValidation,
        }
    }

    /// Takes the chain one event further: see [`upgrade_step`].
    pub fn step<S, E>(
        self,
        event: UpgradeEvent<E, M>,
        our_supported_protocols: &Vec<ProtocolId>,
    ) -> (outcome: UpgradeOutcome<S, E, M>)
        ensures
            outcome@ == upgrade_step::<S, E, M>(self@, event@, protocol_ids(our_supported_protocols@)),
    {
        let UpgradeChain { peer_addr, progress } = self;
        match (progress, event) {
            (
                Progress::AwaitingSecurity,
                UpgradeEvent::SecurityUpgraded { encrypted_socket, remote_public_key },
            ) => {
                match remote_public_key {
                    Some(authenticated_public_key) => UpgradeOutcome::Continue {
                        chain: UpgradeChain {
                            peer_addr,
                            progress: Progress::AwaitingMultiplexing { authenticated_public_key },
                        },
                        request: UpgradeRequest::MultiplexingUpgrade {
                            encrypted_socket,
                            direction: ConnectionDirection::Inbound,
                        },
                    },
                    None => UpgradeOutcome::Finished(Err(ConnectionManagerError::InvalidStaticPublicKey)),
                }
            },
            (Progress::AwaitingSecurity, UpgradeEvent::SecurityUpgradeFailed { reason }) => {
                UpgradeOutcome::Finished(Err(ConnectionManagerError::NoiseError(reason)))
            },
            (
                Progress::AwaitingMultiplexing { authenticated_public_key },
                UpgradeEvent::MultiplexingUpgraded { muxer },
            ) => {
                UpgradeOutcome::Continue {
                    chain: UpgradeChain {
                        peer_addr,
                        progress: Progress::AwaitingIdentity { authenticated_public_key },
                    },
                    request: UpgradeRequest::IdentityExchange { muxer, direction: ConnectionDirection::Inbound },
                }
            },
            (Progress::AwaitingMultiplexing { .. }, UpgradeEvent::MultiplexingUpgradeFailed { reason }) => {
                UpgradeOutcome::Finished(Err(ConnectionManagerError::YamuxUpgradeFailure(reason)))
            },
            (
                Progress::AwaitingIdentity { authenticated_public_key },
                UpgradeEvent::IdentityExchanged { muxer, claim },
            ) => {
                let supported_protocols = duplicate_protocols(&claim.supported_protocols);
                UpgradeOutcome::Continue {
                    chain: UpgradeChain {
                        peer_addr,
                        progress: Progress::AwaitingRegistry { muxer, supported_protocols },
                    },
                    request: UpgradeRequest::RegisterPeer { authenticated_public_key, claim },
                }
            },
            (Progress::AwaitingIdentity { .. }, UpgradeEvent::IdentityExchangeFailed { reason }) => {
                UpgradeOutcome::Finished(Err(ConnectionManagerError::IdentityExchangeError(reason)))
            },
            (
                Progress::AwaitingRegistry { muxer, supported_protocols },
                UpgradeEvent::PeerRegistered { node_id },
            ) => {
                UpgradeOutcome::Finished(
                    Ok(
                        create(
                            muxer,
                            peer_addr,
                            node_id,
                            ConnectionDirection::Inbound,
                            supported_protocols,
                            duplicate_protocols(our_supported_protocols),
                        ),
                    ),
                )
            },
            (Progress::AwaitingRegistry { .. }, UpgradeEvent::PeerRejected { reason }) => {
                UpgradeOutcome::Finished(Err(ConnectionManagerError::PeerValidationError(reason)))
            },
            (progress, event) => UpgradeOutcome::Unexpected { chain: UpgradeChain { peer_addr, progress }, event },
        }
    }
}

} // verus!
