use crate::connection_manager::error::{ConnectionManagerError, ConnectionManagerErrorView};
use crate::connection_manager::peer_connection::{PeerConnection, PeerConnectionView};
use crate::multiaddr::Multiaddr;
use vstd::prelude::*;

verus! {

/// What a listener reports to the connection manager. A listener reports
/// `Listening` or `ListenFailed` once, first; after `Listening`, one of the
/// other two for each inbound connection.
#[derive(Debug, PartialEq, Eq)]
pub enum ConnectionManagerEvent<M> {
    /// The listener is bound, at the given resolved address.
    Listening(Multiaddr),
    /// An inbound connection went through the whole upgrade chain.
    PeerConnected(Box<PeerConnection<M>>),
    /// An inbound connection was given up.
    PeerInboundConnectFailed(ConnectionManagerError),
    /// The listener could not bind its address, and has stopped.
    ListenFailed(ConnectionManagerError),
}

/// An event as plain values.
pub enum ConnectionManagerEventView<M> {
    Listening(Seq<char>),
    PeerConnected(PeerConnectionView<M>),
    PeerInboundConnectFailed(ConnectionManagerErrorView),
    ListenFailed(ConnectionManagerErrorView),
}

impl<M> View for ConnectionManagerEvent<M> {
    type V = ConnectionManagerEventView<M>;

    open spec fn view(&self) -> ConnectionManagerEventView<M> {
        match self {
            ConnectionManagerEvent::Listening(address) => {
                ConnectionManagerEventView::Listening(address@)
            },
            ConnectionManagerEvent::PeerConnected(connection) => {
                ConnectionManagerEventView::PeerConnected(connection@)
            },
            ConnectionManagerEvent::PeerInboundConnectFailed(error) => {
                ConnectionManagerEventView::PeerInboundConnectFailed(error@)
            },
            ConnectionManagerEvent::ListenFailed(error) => {
                ConnectionManagerEventView::ListenFailed(error@)
            },
        }
    }
}

impl<M> ConnectionManagerEvent<M> {
    /// Whether the event is about the listener itself, not about one
    /// connection.
    pub fn is_lifecycle(&self) -> (lifecycle: bool)
        ensures
            lifecycle == self@.is_lifecycle(),
            lifecycle == !self@.is_connection_level(),
    {
        match self {
            ConnectionManagerEvent::Listening(_) | ConnectionManagerEvent::ListenFailed(_) => true,
            _ => false,
        }
    }
}

impl<M> ConnectionManagerEventView<M> {
    /// Whether the event is about the listener itself, not about one connection.
    pub open spec fn is_lifecycle(self) -> bool {
        self is Listening || self is ListenFailed
    }

    /// Whether the event is about one inbound connection.
    pub open spec fn is_connection_level(self) -> bool {
        self is PeerConnected || self is PeerInboundConnectFailed
    }
}

/// The events of a list, each as plain values.
pub open spec fn event_views<M>(
    list: Seq<ConnectionManagerEvent<M>>,
) -> Seq<ConnectionManagerEventView<M>> {
    list.map_values(|e: ConnectionManagerEvent<M>| e@)
}

} // verus!
