//! Inbound connections as the outside sees them: what each piece of work
//! answers, and what a listener makes of it.

use crate::connection::ConnectionDirection;
use crate::connection_manager::error::ConnectionManagerErrorView;
use crate::connection_manager::event::ConnectionManagerEventView;
use crate::connection_manager::listener::{ListenerEventView, ListenerRequestView};
use crate::connection_manager::peer_connection::PeerConnectionView;
use crate::connection_manager::upgrade::{UpgradeEventView, UpgradeRequestView};
use crate::peer_manager::PeerIdentityClaimView;
use vstd::prelude::*;

verus! {

/// One inbound connection, by what the outside answers to each piece of work
/// if it is asked to do it: the transport, the security upgrade, the
/// multiplexing upgrade, the identity exchange and the peer registry.
pub struct InboundAttempt<S, E, M> {
    pub accept: Result<(S, Seq<char>), Seq<char>>,
    pub security: Result<(E, Option<Seq<u8>>), Seq<char>>,
    pub multiplexing: Result<M, Seq<char>>,
    pub identity: Result<(M, PeerIdentityClaimView), Seq<char>>,
    pub registry: Result<Seq<u8>, Seq<char>>,
}

impl<S, E, M> InboundAttempt<S, E, M> {
    /// The five answers as the events that carry them.
    pub open spec fn answers(self) -> Seq<ListenerEventView<S, E, M>> {
        seq![
            match self.accept {
                Ok((socket, peer_addr)) => ListenerEventView::InboundAccepted { socket, peer_addr },
                Err(reason) => ListenerEventView::InboundFailed { reason },
            },
            ListenerEventView::Upgrade(
                match self.security {
                    Ok((encrypted_socket, remote_public_key)) => UpgradeEventView::SecurityUpgraded {
                        encrypted_socket,
                        remote_public_key,
                    },
                    Err(reason) => UpgradeEventView::SecurityUpgradeFailed { reason },
                },
            ),
            ListenerEventView::Upgrade(
                match self.multiplexing {
                    Ok(muxer) => UpgradeEventView::MultiplexingUpgraded { muxer },
                    Err(reason) => UpgradeEventView::MultiplexingUpgradeFailed { reason },
                },
            ),
            ListenerEventView::Upgrade(
                match self.identity {
                    Ok((muxer, claim)) => UpgradeEventView::IdentityExchanged { muxer, claim },
                    Err(reason) => UpgradeEventView::IdentityExchangeFailed { reason },
                },
            ),
            ListenerEventView::Upgrade(
                match self.registry {
                    Ok(node_id) => UpgradeEventView::PeerRegistered { node_id },
                    Err(reason) => UpgradeEventView::PeerRejected { reason },
                },
            ),
        ]
    }

    /// Whether the handshake gives the remote an authenticated public key.
    pub open spec fn authenticates(self) -> bool {
        self.security matches Ok((_, Some(_)))
    }

    /// Whether the remote claims the public key that the handshake
    /// authenticated.
    pub open spec fn claims_authenticated_key(self) -> bool {
        &&& self.security matches Ok((_, Some(authenticated)))
        &&& self.identity matches Ok((_, claim))
        &&& claim.public_key == authenticated
    }

    /// Whether the registry does what it is there for, as far as this
    /// connection goes: it rejects a claim that names another key than the
    /// authenticated one.
    pub open spec fn registry_does_its_duty(self) -> bool {
        !self.claims_authenticated_key() ==> self.registry is Err
    }

    /// How many pieces of work are asked for: every one up to the first that
    /// does not let the chain go on. The registry is asked whatever the claim
    /// says.
    pub open spec fn stages(self) -> int {
        if self.accept is Err {
            1
        } else if !self.authenticates() {
            2
        } else if self.multiplexing is Err {
            3
        } else if self.identity is Err {
            4
        } else {
            5
        }
    }

    /// The events that the listener gets for this connection.
    pub open spec fn events(self) -> Seq<ListenerEventView<S, E, M>> {
        self.answers().take(self.stages())
    }

    /// What the listener asks for in return: each piece of work with what the
    /// one before it gave, and at the end the next connection.
    pub open spec fn requests(self) -> Seq<ListenerRequestView<S, E, M>> {
        seq![
            ListenerRequestView::Upgrade(
                UpgradeRequestView::SecurityUpgrade {
                    socket: self.accept->Ok_0.0,
                    direction: ConnectionDirection::Inbound,
                },
            ),
            ListenerRequestView::Upgrade(
                UpgradeRequestView::MultiplexingUpgrade {
                    encrypted_socket: self.security->Ok_0.0,
                    direction: ConnectionDirection::Inbound,
                },
            ),
            ListenerRequestView::Upgrade(
                UpgradeRequestView::IdentityExchange {
                    muxer: self.multiplexing->Ok_0,
                    direction: ConnectionDirection::Inbound,
                },
            ),
            ListenerRequestView::Upgrade(
                UpgradeRequestView::RegisterPeer {
                    authenticated_public_key: self.security->Ok_0.1->Some_0,
                    claim: self.identity->Ok_0.1,
                },
            ),
        ].take(self.stages() - 1).push(ListenerRequestView::AwaitInbound)
    }

    /// Whether every stage succeeds.
    pub open spec fn succeeds(self) -> bool {
        self.stages() == 5 && self.registry is Ok
    }

    /// The error of the first stage that fails, as that stage gave it.
    pub open spec fn failure(self) -> ConnectionManagerErrorView
        recommends
            !self.succeeds(),
    {
        if let Err(reason) = self.accept {
            ConnectionManagerErrorView::TransportError(reason)
        } else if let Err(reason) = self.security {
            ConnectionManagerErrorView::NoiseError(reason)
        } else if !self.authenticates() {
            ConnectionManagerErrorView::InvalidStaticPublicKey
        } else if let Err(reason) = self.multiplexing {
            ConnectionManagerErrorView::YamuxUpgradeFailure(reason)
        } else if let Err(reason) = self.identity {
            ConnectionManagerErrorView::IdentityExchangeError(reason)
        } else {
            ConnectionManagerErrorView::PeerValidationError(self.registry->Err_0)
        }
    }

    /// The connection that a listener with `protocols` makes of an attempt
    /// that succeeds.
    pub open spec fn connection(self, protocols: Seq<Seq<u8>>) -> PeerConnectionView<M>
        recommends
            self.succeeds(),
    {
        PeerConnectionView {
            peer_addr: self.accept->Ok_0.1,
            peer_node_id: self.registry->Ok_0,
            direction: ConnectionDirection::Inbound,
            muxer: self.identity->Ok_0.0,
            supported_protocols: self.identity->Ok_0.1.supported_protocols,
            our_supported_protocols: protocols,
        }
    }

    /// The one event that a listener with `protocols` reports for this
    /// connection.
    pub open spec fn report(self, protocols: Seq<Seq<u8>>) -> ConnectionManagerEventView<M> {
        if self.succeeds() {
            ConnectionManagerEventView::PeerConnected(self.connection(protocols))
        } else {
            ConnectionManagerEventView::PeerInboundConnectFailed(self.failure())
        }
    }
}

/// The events that the listener gets for a series of connections, one
/// connection after the other.
pub open spec fn session_events<S, E, M>(attempts: Seq<InboundAttempt<S, E, M>>) -> Seq<ListenerEventView<S, E, M>>
    decreases attempts.len(),
{
    if attempts.len() == 0 {
        Seq::empty()
    } else {
        session_events(attempts.drop_last()) + attempts.last().events()
    }
}

/// What the listener asks for in return, one connection after the other.
pub open spec fn session_requests<S, E, M>(attempts: Seq<InboundAttempt<S, E, M>>) -> Seq<
    ListenerRequestView<S, E, M>,
>
    decreases attempts.len(),
{
    if attempts.len() == 0 {
        Seq::empty()
    } else {
        session_requests(attempts.drop_last()) + attempts.last().requests()
    }
}

/// What a listener with `protocols` reports for a series of connections: one
/// event for each, in their order.
pub open spec fn session_reports<S, E, M>(
    attempts: Seq<InboundAttempt<S, E, M>>,
    protocols: Seq<Seq<u8>>,
) -> Seq<ConnectionManagerEventView<M>> {
    attempts.map_values(|a: InboundAttempt<S, E, M>| a.report(protocols))
}

} // verus!
