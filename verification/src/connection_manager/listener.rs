//! The peer listener: it binds one address, accepts inbound connections and
//! has each upgraded to a peer connection before it accepts the next.
//!
//! The listener here takes the decisions and nothing else. Whoever drives it
//! tells it what happened outside, as a [`ListenerEvent`], and gets back what
//! to report to the connection manager and what to do next, as a
//! [`ListenerStep`]. [`listener_step`] says which reaction follows which
//! event.

use crate::connection::ConnectionDirection;
use crate::connection_manager::error::{ConnectionManagerError, ConnectionManagerErrorView};
use crate::connection_manager::event::{event_views, ConnectionManagerEvent, ConnectionManagerEventView};
use crate::connection_manager::runs::{
    lemma_requests_push, lemma_run_push, listener_after, listener_requests, listener_run,
};
use crate::connection_manager::upgrade::{
    upgrade_begin, upgrade_step, UpgradeChain, UpgradeChainView, UpgradeEvent, UpgradeEventView,
    UpgradeOutcome, UpgradeOutcomeView, UpgradeRequest, UpgradeRequestView,
};
use crate::multiaddr::Multiaddr;
use crate::protocol::{protocol_ids, ProtocolId};
use vstd::prelude::*;

verus! {

/// Something that happened outside a listener and that it has to react to.
/// `S` is a raw socket, `E` an encrypted socket and `M` a stream multiplexer.
#[derive(Debug, PartialEq, Eq)]
pub enum ListenerEvent<S, E, M> {
    /// The listener was set running.
    Started,
    /// The transport bound the listen address; `address` is the address it
    /// resolved to.
    ListenSucceeded { address: Multiaddr },
    /// The transport could not bind the listen address.
    ListenFailed { reason: String },
    /// The wait for an inbound connection ended with the socket of one.
    InboundAccepted { socket: S, peer_addr: Multiaddr },
    /// The wait for an inbound connection ended with one that the transport
    /// could not hand over.
    InboundFailed { reason: String },
    /// The wait for an inbound connection ended because the shutdown signal
    /// has fired.
    ShutdownTriggered,
    /// A piece of work of the upgrade chain ended.
    Upgrade(UpgradeEvent<E, M>),
}

/// A listener event as plain values, around the handles.
pub enum ListenerEventView<S, E, M> {
    Started,
    ListenSucceeded { address: Seq<char> },
    ListenFailed { reason: Seq<char> },
    InboundAccepted { socket: S, peer_addr: Seq<char> },
    InboundFailed { reason: Seq<char> },
    ShutdownTriggered,
    Upgrade(UpgradeEventView<E, M>),
}

impl<S, E, M> View for ListenerEvent<S, E, M> {
    type V = ListenerEventView<S, E, M>;

    open spec fn view(&self) -> ListenerEventView<S, E, M> {
        match self {
            ListenerEvent::Started => ListenerEventView::Started,
            ListenerEvent::ListenSucceeded { address } => ListenerEventView::ListenSucceeded {
                address: address@,
            },
            ListenerEvent::ListenFailed { reason } => ListenerEventView::ListenFailed { reason: reason@ },
            ListenerEvent::InboundAccepted { socket, peer_addr } => ListenerEventView::InboundAccepted {
                socket: *socket,
                peer_addr: peer_addr@,
            },
            ListenerEvent::InboundFailed { reason } => ListenerEventView::InboundFailed { reason: reason@ },
            ListenerEvent::ShutdownTriggered => ListenerEventView::ShutdownTriggered,
            ListenerEvent::Upgrade(event) => ListenerEventView::Upgrade(event@),
        }
    }
}

/// The listener events of a list, each as plain values.
pub open spec fn listener_event_views<S, E, M>(list: Seq<ListenerEvent<S, E, M>>) -> Seq<
    ListenerEventView<S, E, M>,
> {
    list.map_values(|e: ListenerEvent<S, E, M>| e@)
}

/// The outside work that a listener asks for next.
#[derive(Debug, PartialEq, Eq)]
pub enum ListenerRequest<S, E, M> {
    /// Bind `address` through the transport.
    Listen { address: Multiaddr },
    /// Wait for the next inbound connection or for the shutdown signal,
    /// whichever comes first.
    AwaitInbound,
    /// Do the next piece of work of the upgrade chain.
    Upgrade(UpgradeRequest<S, E, M>),
    /// Nothing more: the listener has stopped.
    Stop,
}

/// A listener request as plain values, around the handles.
pub enum ListenerRequestView<S, E, M> {
    Listen { address: Seq<char> },
    AwaitInbound,
    Upgrade(UpgradeRequestView<S, E, M>),
    Stop,
}

impl<S, E, M> View for ListenerRequest<S, E, M> {
    type V = ListenerRequestView<S, E, M>;

    open spec fn view(&self) -> ListenerRequestView<S, E, M> {
        match self {
            ListenerRequest::Listen { address } => ListenerRequestView::Listen { address: address@ },
            ListenerRequest::AwaitInbound => ListenerRequestView::AwaitInbound,
            ListenerRequest::Upgrade(request) => ListenerRequestView::Upgrade(request@),
            ListenerRequest::Stop => ListenerRequestView::Stop,
        }
    }
}

/// The listener requests of a list, each as plain values.
pub open spec fn listener_request_views<S, E, M>(list: Seq<ListenerRequest<S, E, M>>) -> Seq<
    ListenerRequestView<S, E, M>,
> {
    list.map_values(|r: ListenerRequest<S, E, M>| r@)
}

/// A listener's reaction to one event: what to report to the connection
/// manager, if anything, and what to do next. The report goes out first, and
/// whether it arrives changes nothing.
#[derive(Debug, PartialEq, Eq)]
pub struct ListenerStep<S, E, M> {
    pub notify: Option<ConnectionManagerEvent<M>>,
    pub request: ListenerRequest<S, E, M>,
}

/// A reaction as plain values, around the handles.
pub struct ListenerStepView<S, E, M> {
    pub notify: Option<ConnectionManagerEventView<M>>,
    pub request: ListenerRequestView<S, E, M>,
}

impl<S, E, M> View for ListenerStep<S, E, M> {
    type V = ListenerStepView<S, E, M>;

    open spec fn view(&self) -> ListenerStepView<S, E, M> {
        ListenerStepView {
            notify: match self.notify {
                Some(event) => Some(event@),
                None => None,
            },
            request: self.request@,
        }
    }
}

/// Where a listener stands in its life.
#[derive(Debug, PartialEq, Eq)]
enum Phase<M> {
    Created,
    Binding,
    Accepting,
    Upgrading(UpgradeChain<M>),
    Stopped,
}

/// The phase of a listener as plain values.
pub enum ListenerPhaseView<M> {
    /// Not yet set running.
    Created,
    /// The transport is binding the listen address.
    Binding,
    /// Bound, and waiting for the next inbound connection or for shutdown.
    Accepting,
    /// Bound, and upgrading the one connection it has accepted.
    Upgrading(UpgradeChainView<M>),
    /// Done: it could not bind, or it was shut down.
    Stopped,
}

/// Listens for inbound connections and upgrades each, one at a time, to a
/// peer connection. The listener itself only decides: it is told what happened
/// outside, and answers with what to report and what to do next.
///
/// A connection is upgraded to the end before the next is accepted, so a
/// remote that is slow in its handshakes holds up every connection behind
/// it.
#[derive(Debug, PartialEq, Eq)]
pub struct PeerListener<M> {
    listen_address: Multiaddr,
    listening_address: Option<Multiaddr>,
    our_supported_protocols: Vec<ProtocolId>,
    phase: Phase<M>,
}

/// A listener as plain values.
pub struct PeerListenerView<M> {
    /// The address it was told to bind.
    pub listen_address: Seq<char>,
    /// The address that the transport resolved it to, once bound.
    pub listening_address: Option<Seq<char>>,
    /// The protocols that this node supports.
    pub our_supported_protocols: Seq<Seq<u8>>,
    pub phase: ListenerPhaseView<M>,
}

impl<M> View for PeerListener<M> {
    type V = PeerListenerView<M>;

    closed spec fn view(&self) -> PeerListenerView<M> {
        PeerListenerView {
            listen_address: self.listen_address@,
            listening_address: match self.listening_address {
                Some(address) => Some(address@),
                None => None,
            },
            our_supported_protocols: protocol_ids(self.our_supported_protocols@),
            phase: match self.phase {
                Phase::Created => ListenerPhaseView::Created,
                Phase::Binding => ListenerPhaseView::Binding,
                Phase::Accepting => ListenerPhaseView::Accepting,
                Phase::Upgrading(chain) => ListenerPhaseView::Upgrading(chain@),
                Phase::Stopped => ListenerPhaseView::Stopped,
            },
        }
    }
}

/// What a listener did over a record of events: everything it reported and
/// everything it asked for, in order, and the listener at the end.
#[derive(Debug, PartialEq, Eq)]
pub struct ListenerRun<S, E, M> {
    pub listener: PeerListener<M>,
    pub reported: Vec<ConnectionManagerEvent<M>>,
    pub requested: Vec<ListenerRequest<S, E, M>>,
}

impl<M> PeerListenerView<M> {
    /// The same listener in another phase.
    pub open spec fn in_phase(self, phase: ListenerPhaseView<M>) -> Self {
        PeerListenerView { phase, ..self }
    }

    /// What holds of every listener: it knows the address it is bound to
    /// while it accepts or upgrades, and knows none before it is bound.
    pub open spec fn wf(self) -> bool {
        match self.phase {
            ListenerPhaseView::Created | ListenerPhaseView::Binding => self.listening_address is None,
            ListenerPhaseView::Accepting | ListenerPhaseView::Upgrading(_) => self.listening_address is Some,
            ListenerPhaseView::Stopped => true,
        }
    }
}

/// A listener that was made for `listen_address` and has not been set running.
pub open spec fn listener_new<M>(
    listen_address: Seq<char>,
    supported_protocols: Seq<Seq<u8>>,
) -> PeerListenerView<M> {
    PeerListenerView {
        listen_address,
        listening_address: None,
        our_supported_protocols: supported_protocols,
        phase: ListenerPhaseView::Created,
    }
}

/// A reaction that reports nothing.
pub open spec fn quietly<S, E, M>(request: ListenerRequestView<S, E, M>) -> ListenerStepView<S, E, M> {
    ListenerStepView { notify: None, request }
}

/// A reaction that reports `event`.
pub open spec fn reporting<S, E, M>(
    event: ConnectionManagerEventView<M>,
    request: ListenerRequestView<S, E, M>,
) -> ListenerStepView<S, E, M> {
    ListenerStepView { notify: Some(event), request }
}

/// What `event` makes of `listener`: the listener afterwards and its reaction,
/// or `None` where the event is no answer to what the listener last asked for.
///
/// - Set running, it asks for its address to be bound.
/// - Bound, it reports `Listening` with the resolved address and starts to
///   accept. Not bound, it reports `ListenFailed` and stops: the one failure
///   that ends a listener.
/// - While it accepts, a shutdown stops it with nothing reported; an inbound
///   socket starts an upgrade chain; a connection that the transport could not
///   hand over is reported as failed.
/// - While it upgrades, only the chain's events count: a shutdown is seen
///   when the chain has ended. When it ends, the listener reports
///   `PeerConnected` or `PeerInboundConnectFailed` and accepts again.
pub open spec fn listener_step<S, E, M>(
    listener: PeerListenerView<M>,
    event: ListenerEventView<S, E, M>,
) -> Option<(PeerListenerView<M>, ListenerStepView<S, E, M>)> {
    match (listener.phase, event) {
        (ListenerPhaseView::Created, ListenerEventView::Started) => Some(
            (
                listener.in_phase(ListenerPhaseView::Binding),
                quietly(ListenerRequestView::Listen { address: listener.listen_address }),
            ),
        ),
        (ListenerPhaseView::Binding, ListenerEventView::ListenSucceeded { address }) => Some(
            (
                PeerListenerView {
                    listening_address: Some(address),
                    phase: ListenerPhaseView::Accepting,
                    ..listener
                },
                reporting(ConnectionManagerEventView::Listening(address), ListenerRequestView::AwaitInbound),
            ),
        ),
        (ListenerPhaseView::Binding, ListenerEventView::ListenFailed { reason }) => Some(
            (
                listener.in_phase(ListenerPhaseView::Stopped),
                reporting(
                    ConnectionManagerEventView::ListenFailed(ConnectionManagerErrorView::TransportError(reason)),
                    ListenerRequestView::Stop,
                ),
            ),
        ),
        (ListenerPhaseView::Accepting, ListenerEventView::InboundAccepted { socket, peer_addr }) => Some(
            (
                listener.in_phase(ListenerPhaseView::Upgrading(upgrade_begin(peer_addr))),
                quietly(
                    ListenerRequestView::Upgrade(
                        UpgradeRequestView::SecurityUpgrade { socket, direction: ConnectionDirection::Inbound },
                    ),
                ),
            ),
        ),
        (ListenerPhaseView::Accepting, ListenerEventView::InboundFailed { reason }) => Some(
            (
                listener,
                reporting(
                    ConnectionManagerEventView::PeerInboundConnectFailed(
                        ConnectionManagerErrorView::TransportError(reason),
                    ),
                    ListenerRequestView::AwaitInbound,
                ),
            ),
        ),
        (ListenerPhaseView::Accepting, ListenerEventView::ShutdownTriggered) => Some(
            (listener.in_phase(ListenerPhaseView::Stopped), quietly(ListenerRequestView::Stop)),
        ),
        (ListenerPhaseView::Upgrading(chain), ListenerEventView::Upgrade(answer)) => match upgrade_step::<S, E, M>(
            chain,
            answer,
            listener.our_supported_protocols,
        ) {
            UpgradeOutcomeView::Continue { chain, request } => Some(
                (
                    listener.in_phase(ListenerPhaseView::Upgrading(chain)),
                    quietly(ListenerRequestView::Upgrade(request)),
                ),
            ),
            UpgradeOutcomeView::Finished(Ok(connection)) => Some(
                (
                    listener.in_phase(ListenerPhaseView::Accepting),
                    reporting(
                        ConnectionManagerEventView::PeerConnected(connection),
                        ListenerRequestView::AwaitInbound,
                    ),
                ),
            ),
            UpgradeOutcomeView::Finished(Err(error)) => Some(
                (
                    listener.in_phase(ListenerPhaseView::Accepting),
                    reporting(
                        ConnectionManagerEventView::PeerInboundConnectFailed(error),
                        ListenerRequestView::AwaitInbound,
                    ),
                ),
            ),
            UpgradeOutcomeView::Unexpected { .. } => None,
        },
        _ => None,
    }
}

impl<M> PeerListener<M> {
    #[verifier::type_invariant]
    spec fn well_formed(&self) -> bool {
        self@.wf()
    }

    /// A listener for `listen_address`, for a node that supports
    /// `supported_protocols`. It does nothing until it is set running.
    pub fn new(listen_address: Multiaddr, supported_protocols: Vec<ProtocolId>) -> (listener: Self)
        ensures
            listener@ == listener_new::<M>(listen_address@, protocol_ids(supported_protocols@)),
            listener@.wf(),
    {
        PeerListener {
            listen_address,
            listening_address: None,
            our_supported_protocols: supported_protocols,
            phase: Phase::Created,
        }
    }

    /// The address that the listener was told to bind.
    pub fn listen_address(&self) -> (address: &Multiaddr)
        ensures
            address@ == self@.listen_address,
    {
        &self.listen_address
    }

    /// The address that the transport resolved the listen address to, once
    /// the listener is bound: there is one while the listener accepts or
    /// upgrades, and none before.
    pub fn listening_address(&self) -> (address: Option<&Multiaddr>)
        ensures
            (match address {
                Some(address) => self@.listening_address == Some(address@),
                None => self@.listening_address is None,
            }),
            self@.wf(),
    {
        proof {
            use_type_invariant(self);
        }
        self.listening_address.as_ref()
    }

    /// The chain of the connection that the listener is upgrading, if it is
    /// upgrading one.
    pub fn upgrade_in_progress(&self) -> (chain: Option<&UpgradeChain<M>>)
        ensures
            (match chain {
                Some(chain) => self@.phase == ListenerPhaseView::Upgrading(chain@),
                None => !(self@.phase is Upgrading),
            }),
    {
        match &self.phase {
            Phase::Upgrading(chain) => Some(chain),
            _ => None,
        }
    }

    /// Whether the listener has stopped for good.
    pub fn is_stopped(&self) -> (stopped: bool)
        ensures
            stopped == (self@.phase is Stopped),
    {
        match &self.phase {
            Phase::Stopped => true,
            _ => false,
        }
    }

    /// Reacts to one event: see [`listener_step`]. An event that is no answer
    /// to what the listener last asked for comes back as the error, and the
    /// listener is as it was.
    pub fn step<S, E>(&mut self, event: ListenerEvent<S, E, M>) -> (reaction: Result<
        ListenerStep<S, E, M>,
        ListenerEvent<S, E, M>,
    >)
        ensures
            (match listener_step(old(self)@, event@) {
                Some((next, step)) => {
                    &&& final(self)@ == next
                    &&& reaction matches Ok(taken) && taken@ == step
                },
                None => {
                    &&& final(self)@ == old(self)@
                    &&& reaction matches Err(refused) && refused@ == event@
                },
            }),
            final(self)@.wf(),
    {
        proof {
            use_type_invariant(&*self);
        }
        let mut phase = Phase::Stopped;
        core::mem::swap(&mut self.phase, &mut phase);
        match (phase, event) {
            (Phase::Created, ListenerEvent::Started) => {
                self.phase = Phase::Binding;
                Ok(
                    ListenerStep {
                        notify: None,
                        request: ListenerRequest::Listen { address: self.listen_address.clone() },
                    },
                )
            },
            (Phase::Binding, ListenerEvent::ListenSucceeded { address }) => {
                self.listening_address = Some(address.clone());
                self.phase = Phase::Accepting;
                Ok(
                    ListenerStep {
                        notify: Some(ConnectionManagerEvent::Listening(address)),
                        request: ListenerRequest::AwaitInbound,
                    },
                )
            },
            (Phase::Binding, ListenerEvent::ListenFailed { reason }) => {
                self.phase = Phase::Stopped;
                Ok(
                    ListenerStep {
                        notify: Some(
                            ConnectionManagerEvent::ListenFailed(ConnectionManagerError::TransportError(reason)),
                        ),
                        request: ListenerRequest::Stop,
                    },
                )
            },
            (Phase::Accepting, ListenerEvent::InboundAccepted { socket, peer_addr }) => {
                let (chain, request) = UpgradeChain::begin(socket, peer_addr);
                self.phase = Phase::Upgrading(chain);
                Ok(ListenerStep { notify: None, request: ListenerRequest::Upgrade(request) })
            },
            (Phase::Accepting, ListenerEvent::InboundFailed { reason }) => {
                self.phase = Phase::Accepting;
                Ok(
                    ListenerStep {
                        notify: Some(
                            ConnectionManagerEvent::PeerInboundConnectFailed(
                                ConnectionManagerError::TransportError(reason),
                            ),
                        ),
                        request: ListenerRequest::AwaitInbound,
                    },
                )
            },
            (Phase::Accepting, ListenerEvent::ShutdownTriggered) => {
                self.phase = Phase::Stopped;
                Ok(ListenerStep { notify: None, request: ListenerRequest::Stop })
            },
            (Phase::Upgrading(chain), ListenerEvent::Upgrade(upgrade_event)) => {
                match chain.step(upgrade_event, &self.our_supported_protocols) {
                    UpgradeOutcome::Continue { chain, request } => {
                        self.phase = Phase::Upgrading(chain);
                        Ok(ListenerStep { notify: None, request: ListenerRequest::Upgrade(request) })
                    },
                    UpgradeOutcome::Finished(Ok(connection)) => {
                        self.phase = Phase::Accepting;
                        Ok(
                            ListenerStep {
                                notify: Some(ConnectionManagerEvent::PeerConnected(Box::new(connection))),
                                request: ListenerRequest::AwaitInbound,
                            },
                        )
                    },
                    UpgradeOutcome::Finished(Err(error)) => {
                        self.phase = Phase::Accepting;
                        Ok(
                            ListenerStep {
                                notify: Some(ConnectionManagerEvent::PeerInboundConnectFailed(error)),
                                request: ListenerRequest::AwaitInbound,
                            },
                        )
                    },
                    UpgradeOutcome::Unexpected { chain, event } => {
                        self.phase = Phase::Upgrading(chain);
                        Err(ListenerEvent::Upgrade(event))
                    },
                }
            },
            (phase, event) => {
                self.phase = phase;
                Err(event)
            },
        }
    }

    /// Reacts to one event, and puts what it reports, if anything, at the end
    /// of `reported` and what it asks for at the end of `requested`. An event
    /// that is no answer is dropped.
    fn react<S, E>(
        &mut self,
        event: ListenerEvent<S, E, M>,
        reported: &mut Vec<ConnectionManagerEvent<M>>,
        requested: &mut Vec<ListenerRequest<S, E, M>>,
    )
        ensures
            (final(self)@, event_views(final(reported)@)) == listener_after(
                old(self)@,
                event_views(old(reported)@),
                event@,
            ),
            listener_request_views(final(requested)@) == (match listener_step(old(self)@, event@) {
                Some((_, step)) => listener_request_views(old(requested)@).push(step.request),
                None => listener_request_views(old(requested)@),
            }),
    {
        if let Ok(taken) = self.step(event) {
            let ListenerStep { notify, request } = taken;
            if let Some(report) = notify {
                reported.push(report);
                assert(event_views(reported@) =~= event_views(old(reported)@).push(report@));
            }
            requested.push(request);
            assert(listener_request_views(requested@) =~= listener_request_views(old(requested)@).push(
                request@,
            ));
        }
    }

    /// Sets the listener running and lets it react to `events`, a record of
    /// what happened outside, one after the other. Returns everything it
    /// reported and everything it asked for, in order, and the listener at
    /// the end: see [`listener_run`] and [`listener_requests`]. An event that
    /// is no answer to what the listener last asked for is passed over.
    pub fn run<S, E>(self, events: Vec<ListenerEvent<S, E, M>>) -> (record: ListenerRun<S, E, M>)
        ensures
            (record.listener@, event_views(record.reported@)) == listener_run(
                self@,
                seq![ListenerEventView::Started] + listener_event_views(events@),
            ),
            listener_request_views(record.requested@) == listener_requests(
                self@,
                seq![ListenerEventView::Started] + listener_event_views(events@),
            ),
            record.listener@.wf(),
    {
        let mut listener = self;
        let mut reported: Vec<ConnectionManagerEvent<M>> = Vec::new();
        let mut requested: Vec<ListenerRequest<S, E, M>> = Vec::new();
        let ghost all = seq![ListenerEventView::<S, E, M>::Started] + listener_event_views(events@);
        proof {
            assert(event_views(Seq::<ConnectionManagerEvent<M>>::empty()) =~= Seq::empty());
            assert(listener_request_views(Seq::<ListenerRequest<S, E, M>>::empty()) =~= Seq::empty());
            lemma_run_push(self@, Seq::empty(), ListenerEventView::<S, E, M>::Started);
            lemma_requests_push(self@, Seq::empty(), ListenerEventView::<S, E, M>::Started);
            assert(all.take(1) =~= Seq::empty().push(ListenerEventView::<S, E, M>::Started));
        }
        listener.react::<S, E>(ListenerEvent::Started, &mut reported, &mut requested);
        for event in iter: events
            invariant
                iter.seq() == events@,
                all == seq![ListenerEventView::<S, E, M>::Started] + listener_event_views(events@),
                (listener@, event_views(reported@)) == listener_run(self@, all.take(iter.index() + 1)),
                listener_request_views(requested@) == listener_requests(self@, all.take(iter.index() + 1)),
        {
            proof {
                lemma_run_push(self@, all.take(iter.index() + 1), event@);
                lemma_requests_push(self@, all.take(iter.index() + 1), event@);
                assert(all.take(iter.index() + 2) =~= all.take(iter.index() + 1).push(event@));
            }
            listener.react(event, &mut reported, &mut requested);
        }
        proof {
            assert(all.take(all.len() as int) =~= all);
            use_type_invariant(&listener);
        }
        ListenerRun { listener, reported, requested }
    }
}

} // verus!
