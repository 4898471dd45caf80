//! What holds of a listener and of its upgrade chains, whatever happens
//! outside: each statement is proved from [`listener_step`] and
//! [`upgrade_step`].

use crate::connection::ConnectionDirection;
use crate::connection_manager::attempt::{
    session_events, session_reports, session_requests, InboundAttempt,
};
use crate::connection_manager::error::ConnectionManagerErrorView;
use crate::connection_manager::event::ConnectionManagerEventView;
use crate::connection_manager::listener::{
    listener_new, listener_step, quietly, ListenerEventView, ListenerPhaseView, ListenerRequestView,
    PeerListenerView,
};
use crate::connection_manager::runs::{
    lemma_requests_concat, lemma_requests_push, lemma_run_concat, lemma_run_push, lemma_stopped_is_final,
    listener_after, listener_requests, listener_run,
};
use crate::connection_manager::upgrade::{
    upgrade_step, UpgradeChainView, UpgradeEventView, UpgradeOutcomeView, UpgradeProgressView,
    UpgradeRequestView,
};
use crate::peer_manager::PeerIdentityClaimView;
use vstd::prelude::*;

verus! {

// The life of a listener

/// A new listener is well formed, and every event leaves a well-formed
/// listener well formed.
pub proof fn lemma_step_keeps_well_formed<S, E, M>(
    listener: PeerListenerView<M>,
    event: ListenerEventView<S, E, M>,
)
    ensures
        listener_new::<M>(listener.listen_address, listener.our_supported_protocols).wf(),
        listener.wf() && listener_step(listener, event) is Some ==> listener_step(listener, event)->Some_0.0.wf(),
{
}

/// The two events that open the run of a new listener: set running, and then
/// told how the binding went.
pub open spec fn opening_events<S, E, M>(
    bound: Result<Seq<char>, Seq<char>>,
) -> Seq<ListenerEventView<S, E, M>> {
    seq![
        ListenerEventView::Started,
        match bound {
            Ok(address) => ListenerEventView::ListenSucceeded { address },
            Err(reason) => ListenerEventView::ListenFailed { reason },
        },
    ]
}

/// How a new listener opens. Bound, it knows the resolved address, waits for
/// a connection and has reported `Listening`; not bound, it has stopped and
/// has reported `ListenFailed` with the transport's error.
pub proof fn lemma_opening<S, E, M>(
    listen_address: Seq<char>,
    supported_protocols: Seq<Seq<u8>>,
    bound: Result<Seq<char>, Seq<char>>,
)
    ensures
        ({
            let listener = listener_new::<M>(listen_address, supported_protocols);
            listener_run(listener, opening_events::<S, E, M>(bound)) == (match bound {
                Ok(address) => (
                    PeerListenerView {
                        listening_address: Some(address),
                        phase: ListenerPhaseView::Accepting,
                        ..listener
                    },
                    seq![ConnectionManagerEventView::<M>::Listening(address)],
                ),
                Err(reason) => (
                    listener.in_phase(ListenerPhaseView::Stopped),
                    seq![
                        ConnectionManagerEventView::<M>::ListenFailed(
                            ConnectionManagerErrorView::TransportError(reason),
                        ),
                    ],
                ),
            })
        }),
{
    let listener = listener_new::<M>(listen_address, supported_protocols);
    let events = opening_events::<S, E, M>(bound);
    assert(events =~= Seq::empty().push(events[0]).push(events[1]));
    lemma_run_push(listener, Seq::empty(), events[0]);
    lemma_run_push(listener, Seq::empty().push(events[0]), events[1]);
    match bound {
        Ok(address) => {
            assert(listener_run(listener, events).1 =~= seq![
                ConnectionManagerEventView::<M>::Listening(address),
            ]);
        },
        Err(reason) => {
            assert(listener_run(listener, events).1 =~= seq![
                ConnectionManagerEventView::<M>::ListenFailed(
                    ConnectionManagerErrorView::TransportError(reason),
                ),
            ]);
        },
    }
}

/// If the transport cannot bind the listen address, the listener reports
/// `ListenFailed` with the transport's error and nothing else, whatever
/// happens afterwards: it never accepts a connection.
pub proof fn lemma_listen_failure_ends_the_run<S, E, M>(
    listen_address: Seq<char>,
    supported_protocols: Seq<Seq<u8>>,
    reason: Seq<char>,
    afterwards: Seq<ListenerEventView<S, E, M>>,
)
    ensures
        ({
            let listener = listener_new::<M>(listen_address, supported_protocols);
            let events = opening_events::<S, E, M>(Err(reason)) + afterwards;
            let (end, reported) = listener_run(listener, events);
            &&& end == listener.in_phase(ListenerPhaseView::Stopped)
            &&& reported == seq![
                ConnectionManagerEventView::<M>::ListenFailed(ConnectionManagerErrorView::TransportError(reason)),
            ]
        }),
{
    let listener = listener_new::<M>(listen_address, supported_protocols);
    let opening = opening_events::<S, E, M>(Err(reason));
    lemma_opening::<S, E, M>(listen_address, supported_protocols, Err(reason));
    lemma_run_concat(listener, opening, afterwards);
    lemma_stopped_is_final(listener.in_phase(ListenerPhaseView::Stopped), afterwards);
    assert(listener_run(listener, opening).1 + Seq::empty() =~= listener_run(listener, opening).1);
}

/// Whether the first of `reported`, and only the first, is about the listener
/// itself.
pub open spec fn lifecycle_first<M>(reported: Seq<ConnectionManagerEventView<M>>) -> bool {
    forall|i: int| 0 <= i < reported.len() ==> (#[trigger] reported[i]).is_lifecycle() == (i == 0)
}

/// What holds of a listener that started as a new one, and of what it has
/// reported: nothing before it is bound; `Listening`, with the address it is
/// bound to, before anything else once it is; something when it has stopped.
pub open spec fn orderly<M>(listener: PeerListenerView<M>, reported: Seq<ConnectionManagerEventView<M>>) -> bool {
    &&& lifecycle_first(reported)
    &&& listener.wf()
    &&& match listener.phase {
        ListenerPhaseView::Created | ListenerPhaseView::Binding => reported.len() == 0,
        ListenerPhaseView::Accepting | ListenerPhaseView::Upgrading(_) => {
            &&& reported.len() > 0
            &&& listener.listening_address matches Some(address)
            &&& reported[0] == ConnectionManagerEventView::<M>::Listening(address)
        },
        ListenerPhaseView::Stopped => reported.len() > 0,
    }
}

/// One event keeps a listener and its reports orderly.
pub proof fn lemma_orderly_after<S, E, M>(
    listener: PeerListenerView<M>,
    reported: Seq<ConnectionManagerEventView<M>>,
    event: ListenerEventView<S, E, M>,
)
    requires
        orderly(listener, reported),
    ensures
        orderly(listener_after(listener, reported, event).0, listener_after(listener, reported, event).1),
{
}

/// Every run of a new listener is orderly.
pub proof fn lemma_orderly_run<S, E, M>(
    listen_address: Seq<char>,
    supported_protocols: Seq<Seq<u8>>,
    events: Seq<ListenerEventView<S, E, M>>,
)
    ensures
        ({
            let (end, reported) = listener_run(listener_new::<M>(listen_address, supported_protocols), events);
            orderly(end, reported)
        }),
    decreases events.len(),
{
    let listener = listener_new::<M>(listen_address, supported_protocols);
    if events.len() > 0 {
        lemma_orderly_run(listen_address, supported_protocols, events.drop_last());
        let (before, reported) = listener_run(listener, events.drop_last());
        lemma_orderly_after(before, reported, events.last());
    }
}

/// Whatever happens to a new listener: if it reports anything, the first
/// event says whether it is bound, and every later one is about a
/// connection. So `Listening` is reported at most once, and before any
/// connection.
pub proof fn lemma_lifecycle_report_comes_first<S, E, M>(
    listen_address: Seq<char>,
    supported_protocols: Seq<Seq<u8>>,
    events: Seq<ListenerEventView<S, E, M>>,
)
    ensures
        ({
            let reported = listener_run(listener_new::<M>(listen_address, supported_protocols), events).1;
            &&& reported.len() > 0 ==> reported[0].is_lifecycle()
            &&& forall|i: int| 1 <= i < reported.len() ==> (#[trigger] reported[i]).is_connection_level()
        }),
{
    lemma_orderly_run(listen_address, supported_protocols, events);
    let reported = listener_run(listener_new::<M>(listen_address, supported_protocols), events).1;
    assert forall|i: int| 1 <= i < reported.len() implies (#[trigger] reported[i]).is_connection_level() by {
        assert(!reported[i].is_lifecycle());
    }
}

/// If the transport binds the listen address, the listener reports
/// `Listening` with the resolved address first, whatever happens afterwards,
/// and every later event is about a connection.
pub proof fn lemma_listening_is_reported_first<S, E, M>(
    listen_address: Seq<char>,
    supported_protocols: Seq<Seq<u8>>,
    address: Seq<char>,
    afterwards: Seq<ListenerEventView<S, E, M>>,
)
    ensures
        ({
            let listener = listener_new::<M>(listen_address, supported_protocols);
            let events = opening_events::<S, E, M>(Ok(address)) + afterwards;
            let reported = listener_run(listener, events).1;
            &&& reported.len() > 0
            &&& reported[0] == ConnectionManagerEventView::<M>::Listening(address)
            &&& forall|i: int| 1 <= i < reported.len() ==> (#[trigger] reported[i]).is_connection_level()
        }),
{
    let listener = listener_new::<M>(listen_address, supported_protocols);
    let opening = opening_events::<S, E, M>(Ok(address));
    lemma_opening::<S, E, M>(listen_address, supported_protocols, Ok(address));
    lemma_run_concat(listener, opening, afterwards);
    lemma_lifecycle_report_comes_first(listen_address, supported_protocols, opening + afterwards);
}

/// A shutdown while the listener waits for a connection stops it at once,
/// with nothing reported then or later.
pub proof fn lemma_shutdown_while_accepting<S, E, M>(
    listener: PeerListenerView<M>,
    afterwards: Seq<ListenerEventView<S, E, M>>,
)
    requires
        listener.phase is Accepting,
    ensures
        listener_step(listener, ListenerEventView::<S, E, M>::ShutdownTriggered) == Some(
            (listener.in_phase(ListenerPhaseView::Stopped), quietly(ListenerRequestView::<S, E, M>::Stop)),
        ),
        listener_run(listener, seq![ListenerEventView::<S, E, M>::ShutdownTriggered] + afterwards) == (
            listener.in_phase(ListenerPhaseView::Stopped),
            Seq::<ConnectionManagerEventView<M>>::empty(),
        ),
{
    let shutdown = ListenerEventView::<S, E, M>::ShutdownTriggered;
    assert(seq![shutdown] =~= Seq::empty().push(shutdown));
    lemma_run_push(listener, Seq::empty(), shutdown);
    lemma_run_concat(listener, seq![shutdown], afterwards);
    lemma_stopped_is_final(listener.in_phase(ListenerPhaseView::Stopped), afterwards);
    assert(Seq::<ConnectionManagerEventView<M>>::empty() + Seq::empty() =~= Seq::empty());
}

/// What stops a listener: that it could not bind, or a shutdown while it
/// waited for a connection. No failure of a connection does.
pub proof fn lemma_what_stops_a_listener<S, E, M>(
    listener: PeerListenerView<M>,
    event: ListenerEventView<S, E, M>,
)
    requires
        listener_step(listener, event) matches Some((next, _)) && next.phase is Stopped,
    ensures
        (listener.phase is Binding && event is ListenFailed) || (listener.phase is Accepting
            && event is ShutdownTriggered),
{
}

/// Whatever happens to a new listener: the first thing it asks for is that
/// its address be bound, and it never asks for that again. So it binds at
/// most one socket.
pub proof fn lemma_listen_is_asked_for_once<S, E, M>(
    listen_address: Seq<char>,
    supported_protocols: Seq<Seq<u8>>,
    events: Seq<ListenerEventView<S, E, M>>,
)
    ensures
        ({
            let listener = listener_new::<M>(listen_address, supported_protocols);
            let end = listener_run(listener, events).0;
            let requests = listener_requests(listener, events);
            &&& end.listen_address == listen_address
            &&& end.phase is Created <==> requests.len() == 0
            &&& requests.len() > 0 ==> requests[0] == ListenerRequestView::<S, E, M>::Listen {
                address: listen_address,
            }
            &&& forall|i: int| 0 <= i < requests.len() ==> ((#[trigger] requests[i]) is Listen <==> i == 0)
        }),
    decreases events.len(),
{
    if events.len() > 0 {
        let listener = listener_new::<M>(listen_address, supported_protocols);
        let earlier = events.drop_last();
        lemma_listen_is_asked_for_once(listen_address, supported_protocols, earlier);
        let before = listener_run(listener, earlier).0;
        let requests = listener_requests(listener, earlier);
        match listener_step(before, events.last()) {
            Some((_, step)) => {
                assert(requests.push(step.request).drop_last() =~= requests);
            },
            None => {},
        }
    }
}

/// What a listener asks for tells where it stands, and it reports an event
/// about a connection exactly when it is done with one: when a chain has
/// ended, or when the transport could not hand a connection over. Either way
/// it then waits for the next.
pub proof fn lemma_request_follows_phase<S, E, M>(
    listener: PeerListenerView<M>,
    event: ListenerEventView<S, E, M>,
)
    requires
        listener_step(listener, event) is Some,
    ensures
        ({
            let (next, step) = listener_step(listener, event)->Some_0;
            &&& step.request is Listen <==> next.phase is Binding
            &&& step.request is AwaitInbound <==> next.phase is Accepting
            &&& step.request is Upgrade <==> next.phase is Upgrading
            &&& step.request is Stop <==> next.phase is Stopped
            &&& (step.notify matches Some(report) && report.is_connection_level()) <==> (next.phase is Accepting
                && (listener.phase is Upgrading || event is InboundFailed))
        }),
{
}

// One report for each connection

/// Whatever fails, and at whichever stage: a listener that waits for a
/// connection reports exactly one event for the connection it gets, and then
/// waits for the next as if nothing had happened.
pub proof fn lemma_one_report_for_a_connection<S, E, M>(
    listener: PeerListenerView<M>,
    attempt: InboundAttempt<S, E, M>,
)
    requires
        listener.phase is Accepting,
    ensures
        listener_run(listener, attempt.events()) == (
            listener,
            seq![attempt.report(listener.our_supported_protocols)],
        ),
        listener_requests(listener, attempt.events()) == attempt.requests(),
{
    let answers = attempt.answers();
    let none = Seq::<ListenerEventView<S, E, M>>::empty();
    let one = none.push(answers[0]);
    let two = one.push(answers[1]);
    let three = two.push(answers[2]);
    let four = three.push(answers[3]);
    let five = four.push(answers[4]);
    lemma_run_push(listener, none, answers[0]);
    lemma_run_push(listener, one, answers[1]);
    lemma_run_push(listener, two, answers[2]);
    lemma_run_push(listener, three, answers[3]);
    lemma_run_push(listener, four, answers[4]);
    assert(answers.take(1) =~= one);
    assert(answers.take(2) =~= two);
    assert(answers.take(3) =~= three);
    assert(answers.take(4) =~= four);
    assert(answers.take(5) =~= five);
    let report = attempt.report(listener.our_supported_protocols);
    assert(Seq::<ConnectionManagerEventView<M>>::empty().push(report) =~= seq![report]);
    assert(listener.in_phase(ListenerPhaseView::Accepting) == listener);
    lemma_requests_push(listener, none, answers[0]);
    lemma_requests_push(listener, one, answers[1]);
    lemma_requests_push(listener, two, answers[2]);
    lemma_requests_push(listener, three, answers[3]);
    lemma_requests_push(listener, four, answers[4]);
    assert(listener_requests(listener, attempt.events()) =~= attempt.requests());
}

/// For every series of inbound connections, whatever fails in each: the
/// listener reports exactly one event for each connection, in the order in
/// which it accepted them, asks for no work beyond the stage that failed, and
/// still waits for the next connection at the end.
pub proof fn lemma_one_report_per_connection<S, E, M>(
    listener: PeerListenerView<M>,
    attempts: Seq<InboundAttempt<S, E, M>>,
)
    requires
        listener.phase is Accepting,
    ensures
        listener_run(listener, session_events(attempts)) == (
            listener,
            session_reports(attempts, listener.our_supported_protocols),
        ),
        listener_requests(listener, session_events(attempts)) == session_requests(attempts),
    decreases attempts.len(),
{
    let protocols = listener.our_supported_protocols;
    if attempts.len() == 0 {
        assert(session_reports(attempts, protocols) =~= Seq::empty());
    } else {
        let earlier = attempts.drop_last();
        let last = attempts.last();
        lemma_one_report_per_connection(listener, earlier);
        lemma_one_report_for_a_connection(listener, last);
        lemma_run_concat(listener, session_events(earlier), last.events());
        lemma_requests_concat(listener, session_events(earlier), last.events());
        assert(session_reports(attempts, protocols) =~= session_reports(earlier, protocols) + seq![
            last.report(protocols),
        ]);
    }
}

/// The life of a listener that gets bound: it reports `Listening` with the
/// resolved address, then one event for each connection in turn, and after the
/// shutdown nothing, whatever happens then.
pub proof fn lemma_life_of_a_bound_listener<S, E, M>(
    listen_address: Seq<char>,
    supported_protocols: Seq<Seq<u8>>,
    address: Seq<char>,
    attempts: Seq<InboundAttempt<S, E, M>>,
    afterwards: Seq<ListenerEventView<S, E, M>>,
)
    ensures
        ({
            let listener = listener_new::<M>(listen_address, supported_protocols);
            let events = opening_events::<S, E, M>(Ok(address)) + session_events(attempts)
                + seq![ListenerEventView::ShutdownTriggered] + afterwards;
            let (end, reported) = listener_run(listener, events);
            &&& end == (PeerListenerView {
                listen_address,
                listening_address: Some(address),
                our_supported_protocols: supported_protocols,
                phase: ListenerPhaseView::<M>::Stopped,
            })
            &&& reported == seq![ConnectionManagerEventView::<M>::Listening(address)] + session_reports(
                attempts,
                supported_protocols,
            )
        }),
{
    let listener = listener_new::<M>(listen_address, supported_protocols);
    let opening = opening_events::<S, E, M>(Ok(address));
    let closing = seq![ListenerEventView::<S, E, M>::ShutdownTriggered] + afterwards;
    let accepting = PeerListenerView {
        listen_address,
        listening_address: Some(address),
        our_supported_protocols: supported_protocols,
        phase: ListenerPhaseView::<M>::Accepting,
    };
    let reports = session_reports(attempts, supported_protocols);
    lemma_opening::<S, E, M>(listen_address, supported_protocols, Ok(address));
    lemma_one_report_per_connection(accepting, attempts);
    lemma_shutdown_while_accepting(accepting, afterwards);
    lemma_run_concat(accepting, session_events(attempts), closing);
    lemma_run_concat(listener, opening, session_events(attempts) + closing);
    assert(opening + session_events(attempts) + seq![ListenerEventView::<S, E, M>::ShutdownTriggered]
        + afterwards =~= opening + (session_events(attempts) + closing));
    assert(reports + Seq::empty() =~= reports);
}

// The upgrade chain

/// A chain that goes on goes on to the next stage, in the one order there is,
/// for the same remote and as the responder; and what it hands to the next
/// piece of work is what the last one gave it. So the multiplexing upgrade is
/// asked for only with a socket whose handshake bound a static key, the
/// identity exchange only over a multiplexer that came out of the upgrade, and
/// the registry only with the authenticated key and the claim as it came.
pub proof fn lemma_stages_follow_in_order<S, E, M>(
    chain: UpgradeChainView<M>,
    event: UpgradeEventView<E, M>,
    protocols: Seq<Seq<u8>>,
)
    requires
        upgrade_step::<S, E, M>(chain, event, protocols) is Continue,
    ensures
        ({
            let next = upgrade_step::<S, E, M>(chain, event, protocols)->Continue_chain;
            let request = upgrade_step::<S, E, M>(chain, event, protocols)->Continue_request;
            &&& next.peer_addr == chain.peer_addr
            &&& match chain.progress {
                UpgradeProgressView::AwaitingSecurity => {
                    &&& event matches UpgradeEventView::SecurityUpgraded {
                        encrypted_socket,
                        remote_public_key: Some(key),
                    }
                    &&& next.progress == UpgradeProgressView::<M>::AwaitingMultiplexing {
                        authenticated_public_key: key,
                    }
                    &&& request == UpgradeRequestView::<S, E, M>::MultiplexingUpgrade {
                        encrypted_socket,
                        direction: ConnectionDirection::Inbound,
                    }
                },
                UpgradeProgressView::AwaitingMultiplexing { authenticated_public_key } => {
                    &&& event matches UpgradeEventView::MultiplexingUpgraded { muxer }
                    &&& next.progress == UpgradeProgressView::<M>::AwaitingIdentity { authenticated_public_key }
                    &&& request == UpgradeRequestView::<S, E, M>::IdentityExchange {
                        muxer,
                        direction: ConnectionDirection::Inbound,
                    }
                },
                UpgradeProgressView::AwaitingIdentity { authenticated_public_key } => {
                    &&& event matches UpgradeEventView::IdentityExchanged { muxer, claim }
                    &&& next.progress == UpgradeProgressView::<M>::AwaitingRegistry {
                        muxer,
                        supported_protocols: claim.supported_protocols,
                    }
                    &&& request == UpgradeRequestView::<S, E, M>::RegisterPeer { authenticated_public_key, claim }
                },
                UpgradeProgressView::AwaitingRegistry { .. } => false,
            }
        }),
{
}

/// A handshake that binds no static key ends the connection there: the
/// listener reports `InvalidStaticPublicKey`, and the multiplexing upgrade is
/// never asked for.
pub proof fn lemma_no_static_key_no_multiplexing<S, E, M>(attempt: InboundAttempt<S, E, M>, protocols: Seq<Seq<u8>>)
    requires
        attempt.accept is Ok,
        attempt.security matches Ok((_, None)),
    ensures
        attempt.report(protocols) == ConnectionManagerEventView::<M>::PeerInboundConnectFailed(
            ConnectionManagerErrorView::InvalidStaticPublicKey,
        ),
        attempt.requests() == seq![
            ListenerRequestView::<S, E, M>::Upgrade(
                UpgradeRequestView::SecurityUpgrade {
                    socket: attempt.accept->Ok_0.0,
                    direction: ConnectionDirection::Inbound,
                },
            ),
            ListenerRequestView::<S, E, M>::AwaitInbound,
        ],
{
    assert(attempt.requests() =~= seq![
        ListenerRequestView::<S, E, M>::Upgrade(
            UpgradeRequestView::SecurityUpgrade {
                socket: attempt.accept->Ok_0.0,
                direction: ConnectionDirection::Inbound,
            },
        ),
        ListenerRequestView::<S, E, M>::AwaitInbound,
    ]);
}

/// Every claim that the identity exchange returns is submitted to the
/// registry, with the authenticated key and as it came, whichever key it
/// names.
pub proof fn lemma_every_claim_goes_to_the_registry<S, E, M>(
    chain: UpgradeChainView<M>,
    muxer: M,
    claim: PeerIdentityClaimView,
    protocols: Seq<Seq<u8>>,
)
    requires
        chain.progress is AwaitingIdentity,
    ensures
        upgrade_step::<S, E, M>(chain, UpgradeEventView::IdentityExchanged { muxer, claim }, protocols)
            == (UpgradeOutcomeView::<S, E, M>::Continue {
            chain: UpgradeChainView {
                peer_addr: chain.peer_addr,
                progress: UpgradeProgressView::AwaitingRegistry {
                    muxer,
                    supported_protocols: claim.supported_protocols,
                },
            },
            request: UpgradeRequestView::RegisterPeer {
                authenticated_public_key: chain.progress->AwaitingIdentity_authenticated_public_key,
                claim,
            },
        }),
{
}

/// What the registry rejects fails with the registry's own reason, passed on
/// as it came.
pub proof fn lemma_registry_rejection_is_passed_on<S, E, M>(
    chain: UpgradeChainView<M>,
    reason: Seq<char>,
    protocols: Seq<Seq<u8>>,
)
    requires
        chain.progress is AwaitingRegistry,
    ensures
        upgrade_step::<S, E, M>(chain, UpgradeEventView::PeerRejected { reason }, protocols)
            == UpgradeOutcomeView::<S, E, M>::Finished(
            Err(ConnectionManagerErrorView::PeerValidationError(reason)),
        ),
{
}

/// A chain ends in a connection only when the registry has taken the peer.
pub proof fn lemma_connection_needs_registration<S, E, M>(
    chain: UpgradeChainView<M>,
    event: UpgradeEventView<E, M>,
    protocols: Seq<Seq<u8>>,
)
    requires
        upgrade_step::<S, E, M>(chain, event, protocols) matches UpgradeOutcomeView::Finished(Ok(_)),
    ensures
        chain.progress is AwaitingRegistry,
        event is PeerRegistered,
{
}

/// The result of a connection, stage by stage: `PeerConnected` exactly when
/// every stage succeeds, and otherwise the error of the first stage that
/// fails, as that stage gave it. Every stage before that one is asked once,
/// and none after it.
pub proof fn lemma_result_is_the_first_failure<S, E, M>(attempt: InboundAttempt<S, E, M>, protocols: Seq<Seq<u8>>)
    ensures
        (attempt.report(protocols) is PeerConnected <==> {
            &&& attempt.accept is Ok
            &&& attempt.authenticates()
            &&& attempt.multiplexing is Ok
            &&& attempt.identity is Ok
            &&& attempt.registry is Ok
        }),
        attempt.report(protocols) == (if let Err(reason) = attempt.accept {
            ConnectionManagerEventView::<M>::PeerInboundConnectFailed(
                ConnectionManagerErrorView::TransportError(reason),
            )
        } else if let Err(reason) = attempt.security {
            ConnectionManagerEventView::PeerInboundConnectFailed(ConnectionManagerErrorView::NoiseError(reason))
        } else if !attempt.authenticates() {
            ConnectionManagerEventView::PeerInboundConnectFailed(
                ConnectionManagerErrorView::InvalidStaticPublicKey,
            )
        } else if let Err(reason) = attempt.multiplexing {
            ConnectionManagerEventView::PeerInboundConnectFailed(
                ConnectionManagerErrorView::YamuxUpgradeFailure(reason),
            )
        } else if let Err(reason) = attempt.identity {
            ConnectionManagerEventView::PeerInboundConnectFailed(
                ConnectionManagerErrorView::IdentityExchangeError(reason),
            )
        } else if let Err(reason) = attempt.registry {
            ConnectionManagerEventView::PeerInboundConnectFailed(
                ConnectionManagerErrorView::PeerValidationError(reason),
            )
        } else {
            ConnectionManagerEventView::PeerConnected(attempt.connection(protocols))
        }),
        attempt.events().len() == attempt.stages(),
        attempt.requests().len() == attempt.stages(),
        forall|i: int| 0 <= i < attempt.stages() - 1 ==> (#[trigger] attempt.requests()[i]) is Upgrade,
        attempt.requests().last() == ListenerRequestView::<S, E, M>::AwaitInbound,
{
}

/// Where the registry does its duty and rejects a claim that names another
/// key than the authenticated one: a connection ends in `PeerConnected` only
/// if the remote claimed the authenticated key. One whose remote claimed
/// another key fails at the registry: the registry is asked once, with the
/// authenticated key and the claim, and its reason is what the listener
/// reports.
pub proof fn lemma_connected_means_validated<S, E, M>(attempt: InboundAttempt<S, E, M>, protocols: Seq<Seq<u8>>)
    requires
        attempt.registry_does_its_duty(),
    ensures
        attempt.report(protocols) is PeerConnected ==> attempt.claims_authenticated_key(),
        (attempt.accept is Ok && attempt.authenticates() && attempt.multiplexing is Ok && attempt.identity is Ok
            && !attempt.claims_authenticated_key() ==> {
            &&& attempt.registry is Err
            &&& attempt.report(protocols) == ConnectionManagerEventView::<M>::PeerInboundConnectFailed(
                ConnectionManagerErrorView::PeerValidationError(attempt.registry->Err_0),
            )
            &&& attempt.requests().len() == 5
            &&& attempt.requests()[3] == ListenerRequestView::<S, E, M>::Upgrade(
                UpgradeRequestView::RegisterPeer {
                    authenticated_public_key: attempt.security->Ok_0.1->Some_0,
                    claim: attempt.identity->Ok_0.1,
                },
            )
            &&& forall|i: int| 0 <= i < 5 && i != 3 ==> !is_registration(#[trigger] attempt.requests()[i])
        }),
{
}

/// For every series of connections in each of which the registry does its
/// duty: every `PeerConnected` that the listener reports is for a connection
/// whose remote claimed the authenticated key.
pub proof fn lemma_every_connection_was_validated<S, E, M>(
    listener: PeerListenerView<M>,
    attempts: Seq<InboundAttempt<S, E, M>>,
)
    requires
        listener.phase is Accepting,
        forall|i: int| 0 <= i < attempts.len() ==> (#[trigger] attempts[i]).registry_does_its_duty(),
    ensures
        ({
            let reported = listener_run(listener, session_events(attempts)).1;
            &&& reported.len() == attempts.len()
            &&& forall|i: int|
                0 <= i < attempts.len() && (#[trigger] reported[i]) is PeerConnected
                    ==> attempts[i].claims_authenticated_key()
        }),
{
    lemma_one_report_per_connection(listener, attempts);
    let reported = listener_run(listener, session_events(attempts)).1;
    assert forall|i: int| 0 <= i < attempts.len() && (#[trigger] reported[i]) is PeerConnected implies attempts[
        i
    ].claims_authenticated_key() by {
        lemma_connected_means_validated(attempts[i], listener.our_supported_protocols);
    }
}

/// Whether `request` submits a peer to the registry.
pub open spec fn is_registration<S, E, M>(request: ListenerRequestView<S, E, M>) -> bool {
    request matches ListenerRequestView::Upgrade(UpgradeRequestView::RegisterPeer { .. })
}

/// How many of `requests` submit a peer to the registry.
pub open spec fn registrations<S, E, M>(requests: Seq<ListenerRequestView<S, E, M>>) -> nat
    decreases requests.len(),
{
    if requests.len() == 0 {
        0
    } else {
        registrations(requests.drop_last()) + if is_registration(requests.last()) {
            1nat
        } else {
            0nat
        }
    }
}

/// How many of `reported` are `PeerConnected`.
pub open spec fn connections<M>(reported: Seq<ConnectionManagerEventView<M>>) -> nat
    decreases reported.len(),
{
    if reported.len() == 0 {
        0
    } else {
        connections(reported.drop_last()) + if reported.last() is PeerConnected {
            1nat
        } else {
            0nat
        }
    }
}

/// Whether a listener waits for the registry's answer.
pub open spec fn awaits_registry<M>(listener: PeerListenerView<M>) -> bool {
    listener.phase matches ListenerPhaseView::Upgrading(chain) && chain.progress is AwaitingRegistry
}

/// In a run from a listener that does not wait for the registry, every
/// connection reported, and the one that the registry is deciding on, stands
/// against a submission of its own.
proof fn lemma_registrations_keep_count<S, E, M>(
    listener: PeerListenerView<M>,
    events: Seq<ListenerEventView<S, E, M>>,
)
    requires
        !awaits_registry(listener),
    ensures
        ({
            let (end, reported) = listener_run(listener, events);
            let requests = listener_requests(listener, events);
            connections(reported) + (if awaits_registry(end) {
                1nat
            } else {
                0nat
            }) <= registrations(requests)
        }),
    decreases events.len(),
{
    if events.len() > 0 {
        let earlier = events.drop_last();
        let event = events.last();
        lemma_registrations_keep_count(listener, earlier);
        let (before, reported) = listener_run(listener, earlier);
        let requests = listener_requests(listener, earlier);
        match listener_step(before, event) {
            Some((next, step)) => {
                assert(requests.push(step.request).drop_last() =~= requests);
                match step.notify {
                    Some(report) => {
                        assert(reported.push(report).drop_last() =~= reported);
                    },
                    None => {},
                }
            },
            None => {},
        }
    }
}

/// Whatever happens to a new listener: it reports no more connections than
/// it has submitted peers to the registry. So no connection is made that the
/// registry has not been asked about.
pub proof fn lemma_every_connection_was_registered<S, E, M>(
    listen_address: Seq<char>,
    supported_protocols: Seq<Seq<u8>>,
    events: Seq<ListenerEventView<S, E, M>>,
)
    ensures
        ({
            let listener = listener_new::<M>(listen_address, supported_protocols);
            connections(listener_run(listener, events).1) <= registrations(listener_requests(listener, events))
        }),
{
    lemma_registrations_keep_count(listener_new::<M>(listen_address, supported_protocols), events);
}

} // verus!
