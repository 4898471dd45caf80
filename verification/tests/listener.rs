use tari_comms::connection::ConnectionDirection;
use tari_comms::connection_manager::error::ConnectionManagerError;
use tari_comms::connection_manager::event::ConnectionManagerEvent;
use tari_comms::connection_manager::listener::{ListenerEvent, ListenerRequest, ListenerStep, PeerListener};
use tari_comms::connection_manager::peer_connection::PeerConnection;
use tari_comms::connection_manager::upgrade::{UpgradeEvent, UpgradeRequest};
use tari_comms::multiaddr::Multiaddr;
use tari_comms::peer_manager::{NodeId, PeerIdentityClaim, PublicKey};
use tari_comms::protocol::ProtocolId;

type Raw = u8;
type Encrypted = u16;
type Muxer = u32;
type Event = ListenerEvent<Raw, Encrypted, Muxer>;
type Step = ListenerStep<Raw, Encrypted, Muxer>;

fn addr(text: &str) -> Multiaddr {
    Multiaddr(text.to_string())
}

fn listen_addr() -> Multiaddr {
    addr("/ip4/0.0.0.0/tcp/0")
}

fn resolved_addr() -> Multiaddr {
    addr("/ip4/127.0.0.1/tcp/18141")
}

fn protocols() -> Vec<ProtocolId> {
    vec![ProtocolId(b"/tari/messaging/1".to_vec())]
}

fn key(byte: u8) -> PublicKey {
    PublicKey(vec![byte; 32])
}

fn peer_protocols() -> Vec<ProtocolId> {
    vec![ProtocolId(b"/peer/chat/1".to_vec()), ProtocolId(b"/peer/sync/2".to_vec())]
}

fn claim(byte: u8) -> PeerIdentityClaim {
    PeerIdentityClaim { public_key: key(byte), addresses: vec![], supported_protocols: peer_protocols() }
}

fn new_listener() -> PeerListener<Muxer> {
    PeerListener::new(listen_addr(), protocols())
}

fn take(listener: &mut PeerListener<Muxer>, event: Event) -> Step {
    match listener.step(event) {
        Ok(step) => step,
        Err(refused) => panic!("the listener refused {:?}", refused),
    }
}

fn accepting_listener() -> PeerListener<Muxer> {
    let mut listener = new_listener();
    take(&mut listener, ListenerEvent::Started);
    take(&mut listener, ListenerEvent::ListenSucceeded { address: resolved_addr() });
    listener
}

fn refuses_shutdown(listener: &mut PeerListener<Muxer>) -> bool {
    listener.step::<Raw, Encrypted>(ListenerEvent::ShutdownTriggered) == Err(ListenerEvent::ShutdownTriggered)
}

fn quiet(request: ListenerRequest<Raw, Encrypted, Muxer>) -> Step {
    ListenerStep { notify: None, request }
}

fn inbound(socket: Raw, from: &str) -> Event {
    ListenerEvent::InboundAccepted { socket, peer_addr: addr(from) }
}

fn secured(socket: Encrypted, byte: u8) -> Event {
    ListenerEvent::Upgrade(UpgradeEvent::SecurityUpgraded {
        encrypted_socket: socket,
        remote_public_key: Some(key(byte)),
    })
}

fn multiplexed(muxer: Muxer) -> Event {
    ListenerEvent::Upgrade(UpgradeEvent::MultiplexingUpgraded { muxer })
}

fn identified(muxer: Muxer, byte: u8) -> Event {
    ListenerEvent::Upgrade(UpgradeEvent::IdentityExchanged { muxer, claim: claim(byte) })
}

fn registered(id: u8) -> Event {
    ListenerEvent::Upgrade(UpgradeEvent::PeerRegistered { node_id: NodeId(vec![id]) })
}

fn connected(from: &str, id: u8, muxer: Muxer) -> ConnectionManagerEvent<Muxer> {
    ConnectionManagerEvent::PeerConnected(Box::new(PeerConnection {
        peer_addr: addr(from),
        peer_node_id: NodeId(vec![id]),
        direction: ConnectionDirection::Inbound,
        muxer,
        supported_protocols: peer_protocols(),
        our_supported_protocols: protocols(),
    }))
}

fn failed(error: ConnectionManagerError) -> ConnectionManagerEvent<Muxer> {
    ConnectionManagerEvent::PeerInboundConnectFailed(error)
}

#[test]
fn new_listener_knows_its_address_and_is_not_bound() {
    let listener = new_listener();
    assert_eq!(listener.listen_address(), &listen_addr());
    assert_eq!(listener.listening_address(), None);
    assert!(!listener.is_stopped());
}

#[test]
fn started_listener_asks_for_its_address_to_be_bound() {
    let mut listener = new_listener();
    let step = take(&mut listener, ListenerEvent::Started);
    assert_eq!(step, quiet(ListenerRequest::Listen { address: listen_addr() }));
}

#[test]
fn listener_is_started_only_once() {
    let mut listener = new_listener();
    take(&mut listener, ListenerEvent::Started);
    assert_eq!(listener.step::<Raw, Encrypted>(ListenerEvent::Started), Err(ListenerEvent::Started));
    let mut listener = accepting_listener();
    assert_eq!(listener.step::<Raw, Encrypted>(ListenerEvent::Started), Err(ListenerEvent::Started));
}

#[test]
fn bound_listener_reports_listening_with_the_resolved_address() {
    let mut listener = new_listener();
    take(&mut listener, ListenerEvent::Started);
    let step = take(&mut listener, ListenerEvent::ListenSucceeded { address: resolved_addr() });
    assert_eq!(
        step,
        ListenerStep {
            notify: Some(ConnectionManagerEvent::Listening(resolved_addr())),
            request: ListenerRequest::AwaitInbound,
        }
    );
    assert_eq!(listener.listening_address(), Some(&resolved_addr()));
    assert_eq!(listener.listen_address(), &listen_addr());
}

#[test]
fn listen_failure_is_reported_once_and_stops_the_listener() {
    let mut listener = new_listener();
    take(&mut listener, ListenerEvent::Started);
    let step = take(&mut listener, ListenerEvent::ListenFailed { reason: "address in use".to_string() });
    assert_eq!(
        step,
        ListenerStep {
            notify: Some(ConnectionManagerEvent::ListenFailed(ConnectionManagerError::TransportError(
                "address in use".to_string()
            ))),
            request: ListenerRequest::Stop,
        }
    );
    assert!(listener.is_stopped());
    assert_eq!(listener.listening_address(), None);
    // It never accepts: every later event comes back.
    assert_eq!(listener.step(inbound(1, "/ip4/10.0.0.1/tcp/1")), Err(inbound(1, "/ip4/10.0.0.1/tcp/1")));
    assert!(refuses_shutdown(&mut listener));
    assert!(listener.is_stopped());
}

#[test]
fn run_with_listen_failure_reports_listen_failed_only() {
    let events: Vec<Event> = vec![
        ListenerEvent::ListenFailed { reason: "denied".to_string() },
        inbound(1, "/ip4/10.0.0.1/tcp/1"),
        secured(1, 1),
        ListenerEvent::ListenSucceeded { address: resolved_addr() },
    ];
    assert_eq!(
        new_listener().run(events).reported,
        vec![ConnectionManagerEvent::ListenFailed(ConnectionManagerError::TransportError("denied".to_string()))]
    );
}

#[test]
fn shutdown_while_accepting_stops_without_a_report() {
    let mut listener = accepting_listener();
    let step = take(&mut listener, ListenerEvent::ShutdownTriggered);
    assert_eq!(step, quiet(ListenerRequest::Stop));
    assert!(listener.is_stopped());
    assert_eq!(listener.step(inbound(1, "/ip4/10.0.0.1/tcp/1")), Err(inbound(1, "/ip4/10.0.0.1/tcp/1")));
}

#[test]
fn run_reports_nothing_after_shutdown() {
    let events: Vec<Event> = vec![
        ListenerEvent::ListenSucceeded { address: resolved_addr() },
        ListenerEvent::ShutdownTriggered,
        inbound(1, "/ip4/10.0.0.1/tcp/1"),
        ListenerEvent::InboundFailed { reason: "late".to_string() },
    ];
    assert_eq!(new_listener().run(events).reported, vec![ConnectionManagerEvent::Listening(resolved_addr())]);
}

#[test]
fn shutdown_is_not_seen_before_the_listener_is_bound() {
    let mut listener = new_listener();
    assert!(refuses_shutdown(&mut listener));
    take(&mut listener, ListenerEvent::Started);
    assert!(refuses_shutdown(&mut listener));
    assert!(!listener.is_stopped());
}

#[test]
fn shutdown_does_not_abort_an_upgrade_under_way() {
    let mut listener = accepting_listener();
    take(&mut listener, inbound(1, "/ip4/10.0.0.1/tcp/1"));
    assert!(refuses_shutdown(&mut listener));
    assert!(!listener.is_stopped());
    // The chain ends first; then the shutdown is seen.
    let step = take(
        &mut listener,
        ListenerEvent::Upgrade(UpgradeEvent::SecurityUpgradeFailed { reason: "eof".to_string() }),
    );
    assert_eq!(step.notify, Some(failed(ConnectionManagerError::NoiseError("eof".to_string()))));
    assert_eq!(take(&mut listener, ListenerEvent::ShutdownTriggered), quiet(ListenerRequest::Stop));
}

#[test]
fn accepted_socket_goes_to_the_security_upgrade() {
    let mut listener = accepting_listener();
    let step = take(&mut listener, inbound(5, "/ip4/10.0.0.1/tcp/1"));
    assert_eq!(
        step,
        quiet(ListenerRequest::Upgrade(UpgradeRequest::SecurityUpgrade {
            socket: 5,
            direction: ConnectionDirection::Inbound,
        }))
    );
}

#[test]
fn connection_that_cannot_be_accepted_is_reported_and_the_listener_goes_on() {
    let mut listener = accepting_listener();
    let step = take(&mut listener, ListenerEvent::InboundFailed { reason: "reset by peer".to_string() });
    assert_eq!(
        step,
        ListenerStep {
            notify: Some(failed(ConnectionManagerError::TransportError("reset by peer".to_string()))),
            request: ListenerRequest::AwaitInbound,
        }
    );
    assert!(!listener.is_stopped());
    let step = take(&mut listener, inbound(6, "/ip4/10.0.0.2/tcp/1"));
    assert!(matches!(step.request, ListenerRequest::Upgrade(UpgradeRequest::SecurityUpgrade { socket: 6, .. })));
}

#[test]
fn whole_chain_reports_peer_connected_once_at_the_end() {
    let mut listener = accepting_listener();
    let from = "/ip4/10.0.0.1/tcp/1";
    assert_eq!(take(&mut listener, inbound(1, from)).notify, None);
    assert_eq!(
        take(&mut listener, secured(2, 9)),
        quiet(ListenerRequest::Upgrade(UpgradeRequest::MultiplexingUpgrade {
            encrypted_socket: 2,
            direction: ConnectionDirection::Inbound,
        }))
    );
    assert_eq!(
        take(&mut listener, multiplexed(3)),
        quiet(ListenerRequest::Upgrade(UpgradeRequest::IdentityExchange {
            muxer: 3,
            direction: ConnectionDirection::Inbound,
        }))
    );
    assert_eq!(
        take(&mut listener, identified(3, 9)),
        quiet(ListenerRequest::Upgrade(UpgradeRequest::RegisterPeer {
            authenticated_public_key: key(9),
            claim: claim(9),
        }))
    );
    assert_eq!(
        take(&mut listener, registered(77)),
        ListenerStep { notify: Some(connected(from, 77, 3)), request: ListenerRequest::AwaitInbound }
    );
}

#[test]
fn no_static_key_means_no_multiplexing_request() {
    let mut listener = accepting_listener();
    let mut requests = vec![take(&mut listener, inbound(1, "/ip4/10.0.0.1/tcp/1")).request];
    let step = take(
        &mut listener,
        ListenerEvent::Upgrade(UpgradeEvent::SecurityUpgraded { encrypted_socket: 2, remote_public_key: None }),
    );
    assert_eq!(step.notify, Some(failed(ConnectionManagerError::InvalidStaticPublicKey)));
    requests.push(step.request);
    assert_eq!(
        requests,
        vec![
            ListenerRequest::Upgrade(UpgradeRequest::SecurityUpgrade {
                socket: 1,
                direction: ConnectionDirection::Inbound,
            }),
            ListenerRequest::AwaitInbound,
        ]
    );
    // An answer of the multiplexing upgrade has nothing to answer to.
    assert_eq!(listener.step(multiplexed(3)), Err(multiplexed(3)));
}

fn rejected(reason: &str) -> Event {
    ListenerEvent::Upgrade(UpgradeEvent::PeerRejected { reason: reason.to_string() })
}

#[test]
fn mismatched_claim_goes_to_the_registry_and_its_rejection_is_reported() {
    let mut listener = accepting_listener();
    take(&mut listener, inbound(1, "/ip4/10.0.0.1/tcp/1"));
    take(&mut listener, secured(2, 9));
    take(&mut listener, multiplexed(3));
    // The registry is asked once, with the authenticated key and the claim.
    let step = take(&mut listener, identified(3, 10));
    assert_eq!(
        step,
        quiet(ListenerRequest::Upgrade(UpgradeRequest::RegisterPeer {
            authenticated_public_key: key(9),
            claim: claim(10),
        }))
    );
    let step = take(&mut listener, rejected("public key mismatch"));
    assert_eq!(
        step,
        ListenerStep {
            notify: Some(failed(ConnectionManagerError::PeerValidationError("public key mismatch".to_string()))),
            request: ListenerRequest::AwaitInbound,
        }
    );
}

#[test]
fn mismatched_claim_rejected_by_the_registry_never_becomes_a_connection() {
    let events: Vec<Event> = vec![
        ListenerEvent::ListenSucceeded { address: resolved_addr() },
        inbound(1, "/ip4/10.0.0.1/tcp/1"),
        secured(2, 9),
        multiplexed(3),
        identified(3, 10),
        rejected("claim does not match the authenticated key"),
    ];
    let record = new_listener().run(events);
    assert_eq!(
        record.reported,
        vec![
            ConnectionManagerEvent::Listening(resolved_addr()),
            failed(ConnectionManagerError::PeerValidationError(
                "claim does not match the authenticated key".to_string()
            )),
        ]
    );
    // The registry was asked once, with the authenticated key and the claim.
    let submissions: Vec<_> = record
        .requested
        .iter()
        .filter(|request| matches!(request, ListenerRequest::Upgrade(UpgradeRequest::RegisterPeer { .. })))
        .collect();
    assert_eq!(
        submissions,
        vec![&ListenerRequest::Upgrade(UpgradeRequest::RegisterPeer {
            authenticated_public_key: key(9),
            claim: claim(10),
        })]
    );
}

#[test]
fn first_connection_fails_at_multiplexing_and_second_succeeds() {
    let events: Vec<Event> = vec![
        ListenerEvent::ListenSucceeded { address: resolved_addr() },
        inbound(1, "/ip4/10.0.0.1/tcp/1"),
        secured(2, 9),
        ListenerEvent::Upgrade(UpgradeEvent::MultiplexingUpgradeFailed { reason: "bad header".to_string() }),
        inbound(4, "/ip4/10.0.0.2/tcp/2"),
        secured(5, 8),
        multiplexed(6),
        identified(6, 8),
        registered(42),
    ];
    assert_eq!(
        new_listener().run(events).reported,
        vec![
            ConnectionManagerEvent::Listening(resolved_addr()),
            failed(ConnectionManagerError::YamuxUpgradeFailure("bad header".to_string())),
            connected("/ip4/10.0.0.2/tcp/2", 42, 6),
        ]
    );
}

#[test]
fn every_connection_gets_exactly_one_report_whatever_fails() {
    let events: Vec<Event> = vec![
        ListenerEvent::ListenSucceeded { address: resolved_addr() },
        // 1: the transport fails
        ListenerEvent::InboundFailed { reason: "accept".to_string() },
        // 2: the handshake fails
        inbound(1, "/a"),
        ListenerEvent::Upgrade(UpgradeEvent::SecurityUpgradeFailed { reason: "noise".to_string() }),
        // 3: no static key
        inbound(2, "/b"),
        ListenerEvent::Upgrade(UpgradeEvent::SecurityUpgraded { encrypted_socket: 2, remote_public_key: None }),
        // 4: multiplexing fails
        inbound(3, "/c"),
        secured(3, 1),
        ListenerEvent::Upgrade(UpgradeEvent::MultiplexingUpgradeFailed { reason: "yamux".to_string() }),
        // 5: the identity exchange fails
        inbound(4, "/d"),
        secured(4, 1),
        multiplexed(4),
        ListenerEvent::Upgrade(UpgradeEvent::IdentityExchangeFailed { reason: "identity".to_string() }),
        // 6: the claim is for another key, and the registry rejects it
        inbound(5, "/e"),
        secured(5, 1),
        multiplexed(5),
        identified(5, 2),
        rejected("another key"),
        // 7: the registry rejects
        inbound(6, "/f"),
        secured(6, 1),
        multiplexed(6),
        identified(6, 1),
        rejected("registry"),
        // 8: all is well
        inbound(7, "/g"),
        secured(7, 1),
        multiplexed(7),
        identified(7, 1),
        registered(1),
        ListenerEvent::ShutdownTriggered,
    ];
    assert_eq!(
        new_listener().run(events).reported,
        vec![
            ConnectionManagerEvent::Listening(resolved_addr()),
            failed(ConnectionManagerError::TransportError("accept".to_string())),
            failed(ConnectionManagerError::NoiseError("noise".to_string())),
            failed(ConnectionManagerError::InvalidStaticPublicKey),
            failed(ConnectionManagerError::YamuxUpgradeFailure("yamux".to_string())),
            failed(ConnectionManagerError::IdentityExchangeError("identity".to_string())),
            failed(ConnectionManagerError::PeerValidationError("another key".to_string())),
            failed(ConnectionManagerError::PeerValidationError("registry".to_string())),
            connected("/g", 1, 7),
        ]
    );
}

#[test]
fn run_passes_over_events_that_answer_nothing() {
    let events: Vec<Event> = vec![
        multiplexed(1),
        ListenerEvent::Started,
        ListenerEvent::ListenSucceeded { address: resolved_addr() },
        ListenerEvent::ListenSucceeded { address: addr("/ip4/127.0.0.1/tcp/2") },
        registered(3),
        inbound(1, "/a"),
        inbound(2, "/b"),
        ListenerEvent::ShutdownTriggered,
        ListenerEvent::Upgrade(UpgradeEvent::SecurityUpgradeFailed { reason: "x".to_string() }),
    ];
    assert_eq!(
        new_listener().run(events).reported,
        vec![
            ConnectionManagerEvent::Listening(resolved_addr()),
            failed(ConnectionManagerError::NoiseError("x".to_string())),
        ]
    );
}

#[test]
fn run_without_events_reports_nothing() {
    let events: Vec<Event> = vec![];
    assert_eq!(new_listener().run(events).reported, vec![]);
}

#[test]
fn second_listen_result_is_refused() {
    let mut listener = accepting_listener();
    let again = ListenerEvent::ListenFailed { reason: "again".to_string() };
    assert_eq!(
        listener.step::<Raw, Encrypted>(again),
        Err(ListenerEvent::ListenFailed { reason: "again".to_string() })
    );
    assert_eq!(listener.listening_address(), Some(&resolved_addr()));
    assert!(!listener.is_stopped());
}

#[test]
fn refused_upgrade_event_leaves_the_chain_where_it_was() {
    let mut listener = accepting_listener();
    take(&mut listener, inbound(1, "/a"));
    take(&mut listener, secured(2, 9));
    assert_eq!(listener.step(registered(1)), Err(registered(1)));
    assert_eq!(listener.step(inbound(9, "/z")), Err(inbound(9, "/z")));
    // The chain still waits for the multiplexing upgrade.
    assert_eq!(
        take(&mut listener, multiplexed(3)).request,
        ListenerRequest::Upgrade(UpgradeRequest::IdentityExchange { muxer: 3, direction: ConnectionDirection::Inbound })
    );
}

#[test]
fn empty_claim_with_matching_key_is_reported_as_inbound_connection() {
    let protocol_x = ProtocolId(b"X".to_vec());
    let mut listener = accepting_listener();
    take(&mut listener, inbound(1, "/ip4/10.0.0.9/tcp/9"));
    take(&mut listener, secured(2, 5));
    take(&mut listener, multiplexed(3));
    let empty_claim = PeerIdentityClaim {
        public_key: key(5),
        addresses: vec![],
        supported_protocols: vec![protocol_x.clone()],
    };
    take(&mut listener, ListenerEvent::Upgrade(UpgradeEvent::IdentityExchanged { muxer: 3, claim: empty_claim }));
    let step = take(&mut listener, registered(200));
    assert_eq!(
        step.notify,
        Some(ConnectionManagerEvent::PeerConnected(Box::new(PeerConnection {
            peer_addr: addr("/ip4/10.0.0.9/tcp/9"),
            peer_node_id: NodeId(vec![200]),
            direction: ConnectionDirection::Inbound,
            muxer: 3,
            supported_protocols: vec![protocol_x],
            our_supported_protocols: protocols(),
        })))
    );
    assert_eq!(step.request, ListenerRequest::AwaitInbound);
}

#[test]
fn listener_knows_where_it_is_bound_while_it_upgrades() {
    let mut listener = accepting_listener();
    take(&mut listener, inbound(1, "/a"));
    assert_eq!(listener.listening_address(), Some(&resolved_addr()));
    let chain = listener.upgrade_in_progress().expect("a chain is under way");
    assert_eq!(chain.peer_addr(), &addr("/a"));
    take(&mut listener, ListenerEvent::Upgrade(UpgradeEvent::SecurityUpgradeFailed { reason: "x".to_string() }));
    assert!(listener.upgrade_in_progress().is_none());
    assert_eq!(listener.listening_address(), Some(&resolved_addr()));
}

#[test]
fn run_records_what_was_asked_for_and_where_the_listener_ended() {
    let events: Vec<Event> = vec![
        ListenerEvent::ListenSucceeded { address: resolved_addr() },
        inbound(1, "/a"),
        ListenerEvent::Upgrade(UpgradeEvent::SecurityUpgraded { encrypted_socket: 2, remote_public_key: None }),
        inbound(3, "/b"),
        secured(4, 7),
        multiplexed(5),
        identified(5, 8),
        rejected("no"),
        ListenerEvent::ShutdownTriggered,
        inbound(9, "/late"),
    ];
    let record = new_listener().run(events);
    assert_eq!(
        record.requested,
        vec![
            ListenerRequest::Listen { address: listen_addr() },
            ListenerRequest::AwaitInbound,
            ListenerRequest::Upgrade(UpgradeRequest::SecurityUpgrade {
                socket: 1,
                direction: ConnectionDirection::Inbound,
            }),
            ListenerRequest::AwaitInbound,
            ListenerRequest::Upgrade(UpgradeRequest::SecurityUpgrade {
                socket: 3,
                direction: ConnectionDirection::Inbound,
            }),
            ListenerRequest::Upgrade(UpgradeRequest::MultiplexingUpgrade {
                encrypted_socket: 4,
                direction: ConnectionDirection::Inbound,
            }),
            ListenerRequest::Upgrade(UpgradeRequest::IdentityExchange {
                muxer: 5,
                direction: ConnectionDirection::Inbound,
            }),
            ListenerRequest::Upgrade(UpgradeRequest::RegisterPeer {
                authenticated_public_key: key(7),
                claim: claim(8),
            }),
            ListenerRequest::AwaitInbound,
            ListenerRequest::Stop,
        ]
    );
    assert_eq!(
        record.reported,
        vec![
            ConnectionManagerEvent::Listening(resolved_addr()),
            failed(ConnectionManagerError::InvalidStaticPublicKey),
            failed(ConnectionManagerError::PeerValidationError("no".to_string())),
        ]
    );
    assert!(record.listener.is_stopped());
    assert_eq!(record.listener.listening_address(), Some(&resolved_addr()));
}

#[test]
fn run_with_listen_failure_asks_for_nothing_but_the_binding() {
    let events: Vec<Event> = vec![ListenerEvent::ListenFailed { reason: "denied".to_string() }, inbound(1, "/a")];
    let record = new_listener().run(events);
    assert_eq!(
        record.requested,
        vec![ListenerRequest::Listen { address: listen_addr() }, ListenerRequest::Stop]
    );
    assert!(record.listener.is_stopped());
}
