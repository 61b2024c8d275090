use link_ear::address::Address;
use link_ear::effect::{
    Effect, Failure, NetworkEvent, Outcome, PeerAddress, Registration, Tick, World,
};
use link_ear::model::{UiEvent, WireMessage};
use link_ear::peer::{parse_peer_id, PeerId};
use link_ear::session::startup::BackendConfig;
use link_ear::session::Session;
use link_ear::time::Moment;

const ALICE: &str = "12D3KooWCKULvuTT1ZDPW8zZpd215MT1QzoNeTvFbPvzhhGHmyDf";
const BOB: &str = "12D3KooWEpUHE3gptbCmfVFLxg5zqk1ESsapZpKbGVbEen4EVjVL";
const CAROL: &str = "12D3KooWHKUDXBvCmdC9pqW86j9zc8ZTUkNGU4zZTUVyV8MuKHD1";
const JOINED: i64 = 1_700_000_000_000_000;
const SECOND: u64 = 1_000_000_000;

fn peer(text: &str) -> PeerId {
    parse_peer_id(text).unwrap()
}

fn address(text: &str) -> Address {
    Address::parse(text).unwrap()
}

fn config() -> BackendConfig {
    BackendConfig {
        name: "ann".to_string(),
        topic: "room".to_string(),
        listen: vec![address("/ip4/127.0.0.1/tcp/1")],
        peer: vec![],
        relay: vec![],
        no_mdns: true,
    }
}

fn world(seconds: u64) -> World {
    World {
        now: Moment {
            wall_micros: JOINED + seconds as i64 * 1_000_000,
            mono_nanos: seconds * SECOND,
        },
        played_ms: 0,
        connected: vec![],
        external_address: false,
        player: None,
    }
}

fn failure(text: &str) -> Failure {
    Failure { brief: text.to_string(), full: format!("{text}, at length") }
}

fn settle(
    session: &mut Session,
    first: Vec<Effect>,
    world: &World,
    mut answer: impl FnMut(&Effect) -> Outcome,
) -> Vec<Effect> {
    let mut done = Vec::new();
    let mut effects = first;
    loop {
        let mut outcome = Outcome::Done;
        for effect in effects {
            outcome = answer(&effect);
            done.push(effect);
            if matches!(outcome, Outcome::Failed(_)) {
                break;
            }
        }
        let failed = matches!(outcome, Outcome::Failed(_));
        if session.is_idle() && !failed {
            return done;
        }
        effects = session.resume(outcome, world);
    }
}

fn well(_effect: &Effect) -> Outcome {
    Outcome::Done
}

fn started() -> Session {
    let (mut session, effects) = Session::start(config(), peer(ALICE), JOINED, None);
    let _done = settle(&mut session, effects, &world(0), well);
    session
}

fn status(text: &str) -> Effect {
    Effect::Ui(UiEvent::Status(text.to_string()))
}

fn said(done: &[Effect]) -> Vec<String> {
    done.iter()
        .filter_map(|effect| match effect {
            Effect::Ui(UiEvent::Status(text)) => Some(text.clone()),
            _ => None,
        })
        .collect()
}

fn event(session: &mut Session, event: NetworkEvent, at: &World) -> Vec<Effect> {
    let effects = session.network_event(event, at);
    settle(session, effects, at, well)
}

fn connect(session: &mut Session, to: &str, connection: u64, relayed: bool, at: &World) -> Vec<Effect> {
    event(
        session,
        NetworkEvent::ConnectionEstablished {
            peer: peer(to),
            connection,
            relayed,
            remote: address("/ip4/10.0.0.1/tcp/1"),
        },
        at,
    )
}

fn tick(session: &mut Session, tick: Tick, at: &World) -> Vec<Effect> {
    let effects = session.tick(tick, at);
    settle(session, effects, at, well)
}

fn with_peers(mut at: World, peers: &[&str]) -> World {
    at.connected = peers.iter().map(|p| p.to_string()).collect();
    at
}

fn identified(who: &str, addresses: &[&str]) -> NetworkEvent {
    NetworkEvent::Identified {
        peer: peer(who),
        addresses: addresses.iter().map(|a| address(a)).collect(),
    }
}

fn subscribed(who: &str) -> NetworkEvent {
    NetworkEvent::Subscribed { peer: peer(who), topic: "room".to_string() }
}

fn closed(who: &str, connection: u64, relayed: bool, remaining: u32) -> NetworkEvent {
    NetworkEvent::ConnectionClosed {
        peer: peer(who),
        connection,
        relayed,
        remote: address("/ip4/10.0.0.1/tcp/1"),
        remaining,
    }
}

fn summaries() -> Vec<Effect> {
    vec![
        Effect::Publish(WireMessage::NameClaim {
            peer_id: ALICE.to_string(),
            name: "ann".to_string(),
            joined_at: Some(JOINED),
        }),
        Effect::Publish(WireMessage::HistorySummary {
            peer_id: ALICE.to_string(),
            count: 0,
            newest_at: None,
        }),
    ]
}

fn counting(count: usize) -> impl FnMut(&Effect) -> Outcome {
    move |effect| match effect {
        Effect::CloseConnections(_) => Outcome::Count(count),
        _ => Outcome::Done,
    }
}

#[test]
fn a_direct_connection_is_greeted() {
    let mut session = started();
    let at = with_peers(world(10), &[BOB]);
    let done = connect(&mut session, BOB, 1, false, &at);
    let mut expected = vec![
        Effect::AddExplicitPeer(BOB.to_string()),
        status(&format!("tracking {BOB} as gossip peer")),
        status(&format!("connected {BOB} directly")),
        Effect::Ui(UiEvent::PeerCount(1)),
    ];
    expected.extend(summaries());
    assert_eq!(done, expected);
    assert!(session.peers.routes_to(BOB).has_direct());
    let done = connect(&mut session, BOB, 2, false, &at);
    assert_eq!(said(&done), [format!("connected {BOB} directly")]);
}

#[test]
fn a_relayed_connection_is_given_time() {
    let mut session = started();
    let at = with_peers(world(10), &[BOB]);
    let done = connect(&mut session, BOB, 1, true, &at);
    assert_eq!(
        said(&done),
        [
            format!("tracking {BOB} as gossip peer"),
            format!("connected {BOB} via relay"),
            format!("waiting up to 5s for {BOB} to subscribe to chat before direct promotion"),
        ]
    );
    assert!(session.peers.routes_to(BOB).is_relay_only());
    let relayed = NetworkEvent::ConnectionEstablished {
        peer: peer(CAROL),
        connection: 2,
        relayed: false,
        remote: address(&format!("/ip4/10.0.0.1/tcp/1/p2p/{BOB}/p2p-circuit")),
    };
    let _done = event(&mut session, relayed, &at);
    assert!(session.peers.routes_to(CAROL).is_relay_only());
}

#[test]
fn an_early_direct_connection_is_closed() {
    let mut session = started();
    let at = with_peers(world(10), &[BOB]);
    let _done = connect(&mut session, BOB, 1, true, &at);
    let direct = |connection: u64| NetworkEvent::ConnectionEstablished {
        peer: peer(BOB),
        connection,
        relayed: false,
        remote: address("/ip4/10.0.0.1/tcp/1"),
    };
    let effects = session.network_event(direct(2), &at);
    let done = settle(&mut session, effects, &at, counting(1));
    assert_eq!(done[0], Effect::CloseConnections(vec![2]));
    assert_eq!(
        said(&done),
        [format!(
            "closed early direct connection to {BOB}; waiting for chat subscription or warmup timeout"
        )]
    );
    let effects = session.network_event(direct(3), &at);
    let done = settle(&mut session, effects, &at, counting(0));
    assert_eq!(
        said(&done),
        [format!(
            "early direct connection to {BOB} is waiting for chat subscription or warmup timeout"
        )]
    );
    let late = with_peers(world(15), &[BOB]);
    let effects = session.network_event(direct(4), &late);
    let done = settle(&mut session, effects, &late, well);
    assert_eq!(
        said(&done),
        [
            format!("gossipsub warmup timed out for {BOB}; trying direct promotion anyway"),
            format!(
                "promoted {BOB} to direct connection after gossip warmup timeout; keeping relay until chat subscription is ready"
            ),
        ]
    );
}

#[test]
fn a_subscriber_is_moved_to_a_direct_connection() {
    let mut session = started();
    let at = with_peers(world(10), &[BOB]);
    let _done = connect(&mut session, BOB, 1, true, &at);
    let done = event(&mut session, subscribed(BOB), &at);
    let mut expected = vec![status(&format!("peer {BOB} subscribed to chat"))];
    expected.extend(summaries());
    assert_eq!(done, expected);
    let effects = session.network_event(
        NetworkEvent::ConnectionEstablished {
            peer: peer(BOB),
            connection: 2,
            relayed: false,
            remote: address("/ip4/10.0.0.1/tcp/1"),
        },
        &at,
    );
    let done = settle(&mut session, effects, &at, counting(1));
    assert_eq!(done[0], Effect::CloseConnections(vec![1]));
    assert_eq!(
        said(&done),
        [format!("promoted {BOB} to direct connection; closing 1 relay link(s)")]
    );
}

#[test]
fn relays_are_closed_when_the_peer_subscribes() {
    let mut session = started();
    let at = with_peers(world(10), &[BOB]);
    let _done = connect(&mut session, BOB, 1, false, &at);
    let _done = connect(&mut session, BOB, 2, true, &at);
    let effects = session.network_event(subscribed(BOB), &at);
    let done = settle(&mut session, effects, &at, counting(1));
    assert_eq!(
        said(&done),
        [
            format!("peer {BOB} subscribed to chat"),
            format!("chat ready with {BOB}; closing 1 relay link(s)"),
        ]
    );
    let other = NetworkEvent::Subscribed { peer: peer(CAROL), topic: "elsewhere".to_string() };
    assert_eq!(event(&mut session, other, &at), []);
    assert!(!session.peers.subscribers.contains(CAROL));
    let gone = NetworkEvent::Unsubscribed { peer: peer(BOB), topic: "room".to_string() };
    assert_eq!(
        event(&mut session, gone, &at),
        [status(&format!("peer {BOB} unsubscribed from chat"))]
    );
    assert!(!session.peers.subscribers.contains(BOB));
    let gone = NetworkEvent::Unsubscribed { peer: peer(BOB), topic: "elsewhere".to_string() };
    assert_eq!(event(&mut session, gone, &at), []);
}

#[test]
fn a_relayed_peer_with_a_direct_address_is_dialed() {
    let mut session = started();
    let at = with_peers(world(10), &[BOB]);
    let _done = connect(&mut session, BOB, 1, true, &at);
    let _done = event(&mut session, subscribed(BOB), &at);
    let done = event(&mut session, identified(BOB, &["/ip4/1.2.3.4/tcp/1", "/ip6/::1/tcp/1"]), &at);
    assert_eq!(
        done,
        [
            Effect::Dial {
                peer: BOB.to_string(),
                addresses: vec![
                    address(&format!("/ip6/::1/tcp/1/p2p/{BOB}")),
                    address(&format!("/ip4/1.2.3.4/tcp/1/p2p/{BOB}")),
                ],
                always: true,
            },
            status(&format!("trying direct connection to {BOB} (2 candidate address(es))")),
        ]
    );
    assert_eq!(event(&mut session, identified(BOB, &["/ip4/1.2.3.4/tcp/1"]), &at), []);
    let failed = NetworkEvent::OutgoingConnectionError {
        peer: Some(peer(BOB)),
        error: "no route".to_string(),
    };
    assert_eq!(
        event(&mut session, failed, &at),
        [status(&format!(
            "direct promotion failed for {BOB} (1/10): outgoing direct dial failed: no route; retrying in 30s"
        ))]
    );
    assert_eq!(tick(&mut session, Tick::Promotion, &with_peers(world(40), &[BOB])), []);
    assert_eq!(tick(&mut session, Tick::Promotion, &with_peers(world(41), &[BOB])).len(), 2);
}

#[test]
fn a_dial_that_is_refused_counts_as_a_failure() {
    let mut session = started();
    let at = with_peers(world(10), &[BOB]);
    let _done = connect(&mut session, BOB, 1, true, &at);
    let _done = event(&mut session, subscribed(BOB), &at);
    let news = NetworkEvent::NewExternalAddrOfPeer {
        peer: peer(BOB),
        address: address("/ip4/1.2.3.4/tcp/1"),
    };
    let effects = session.network_event(news, &at);
    let done = settle(&mut session, effects, &at, |effect| match effect {
        Effect::Dial { .. } => Outcome::Failed(failure("limit")),
        _ => Outcome::Done,
    });
    assert_eq!(
        said(&done),
        [format!(
            "direct promotion failed for {BOB} (1/10): dial request failed: limit; retrying in 30s"
        )]
    );
    let again = NetworkEvent::DirectUpgradeFailed { peer: peer(BOB), error: "x".to_string() };
    assert_eq!(event(&mut session, again, &at), []);
    let again = NetworkEvent::DirectUpgradeFailed { peer: peer(BOB), error: "x".to_string() };
    assert_eq!(
        event(&mut session, again, &with_peers(world(20), &[BOB])),
        [status(&format!(
            "direct promotion failed for {BOB} (2/10): DCUtR failed: x; retrying in 30s"
        ))]
    );
    let good = NetworkEvent::DirectUpgradeSucceeded {
        peer: peer(BOB),
        connection: "ConnectionId(7)".to_string(),
    };
    assert_eq!(
        event(&mut session, good, &at),
        [status(&format!("direct upgrade succeeded with {BOB} on ConnectionId(7)"))]
    );
    assert!(!session.peers.backoffs.contains(BOB));
}

#[test]
fn other_failures_of_connections_are_told() {
    let mut session = started();
    let at = world(10);
    let cases = [
        (
            NetworkEvent::DirectUpgradeFailed { peer: peer(BOB), error: "x".to_string() },
            format!("direct upgrade failed with {BOB}: x"),
        ),
        (
            NetworkEvent::OutgoingConnectionError {
                peer: Some(peer(BOB)),
                error: "x".to_string(),
            },
            format!("outgoing connection error {BOB}: x"),
        ),
        (
            NetworkEvent::OutgoingConnectionError { peer: None, error: "x".to_string() },
            "outgoing connection error unknown peer: x".to_string(),
        ),
        (
            NetworkEvent::IdentifyFailed { peer: peer(BOB), error: "x".to_string() },
            format!("identify failed {BOB}: x"),
        ),
        (
            NetworkEvent::GossipsubNotSupported { peer: peer(BOB) },
            format!("peer {BOB} does not support gossipsub"),
        ),
        (
            NetworkEvent::SlowPeer { peer: peer(BOB), failed_messages: "many".to_string() },
            format!("gossipsub slow peer {BOB}: many"),
        ),
        (NetworkEvent::Relay { event: "e".to_string() }, "relay event: e".to_string()),
        (
            NetworkEvent::NewListenAddr(address("/ip4/1.2.3.4/tcp/1")),
            "listening on /ip4/1.2.3.4/tcp/1".to_string(),
        ),
        (
            NetworkEvent::ExternalAddrConfirmed(address("/ip4/1.2.3.4/tcp/1")),
            "confirmed external address /ip4/1.2.3.4/tcp/1".to_string(),
        ),
        (
            NetworkEvent::ExternalAddrExpired(address("/ip4/1.2.3.4/tcp/1")),
            "expired external address /ip4/1.2.3.4/tcp/1".to_string(),
        ),
        (
            NetworkEvent::Registered {
                node: peer(BOB),
                namespace: "room".to_string(),
                ttl: 7_200,
            },
            format!("registered with rendezvous {BOB} in room for 7200s"),
        ),
        (
            NetworkEvent::RegisterFailed {
                node: peer(BOB),
                namespace: "room".to_string(),
                error: "Refused".to_string(),
            },
            format!("rendezvous register failed {BOB} in room: Refused"),
        ),
        (
            NetworkEvent::DiscoverFailed {
                node: peer(BOB),
                namespace: Some("room".to_string()),
                error: "Refused".to_string(),
            },
            format!("rendezvous discover failed {BOB} in room: Refused"),
        ),
        (
            NetworkEvent::DiscoverFailed {
                node: peer(BOB),
                namespace: None,
                error: "Refused".to_string(),
            },
            format!("rendezvous discover failed {BOB} in all namespaces: Refused"),
        ),
        (
            NetworkEvent::RegistrationExpired { peer: peer(BOB) },
            format!("rendezvous registration expired for {BOB}"),
        ),
    ];
    for (news, text) in cases {
        assert_eq!(event(&mut session, news, &at), [status(&text)]);
    }
}

#[test]
fn a_peer_that_goes_is_let_go() {
    let mut session = started();
    let at = with_peers(world(10), &[BOB]);
    let _done = connect(&mut session, BOB, 1, false, &at);
    let _done = connect(&mut session, BOB, 2, true, &at);
    assert_eq!(
        event(&mut session, closed(BOB, 2, true, 1), &at),
        [status(&format!("relay connection closed {BOB}; 1 link(s) remain"))]
    );
    let _done = connect(&mut session, BOB, 3, false, &at);
    assert_eq!(
        event(&mut session, closed(BOB, 3, false, 1), &at),
        [status(&format!("direct connection closed {BOB}; 1 link(s) remain"))]
    );
    let done = event(&mut session, closed(BOB, 1, false, 0), &world(11));
    assert_eq!(
        done,
        [
            Effect::RemoveExplicitPeer(BOB.to_string()),
            status(&format!("disconnected {BOB}")),
            Effect::Ui(UiEvent::PeerCount(0)),
        ]
    );
    assert!(session.peers.routes_to(BOB).is_empty());
}

#[test]
fn nearby_peers_are_found_and_lost() {
    let mut session = started();
    let at = world(10);
    let found = |text: &str| PeerAddress { peer: peer(BOB), address: address(text) };
    let done = event(
        &mut session,
        NetworkEvent::MdnsDiscovered(vec![
            found("/ip4/192.168.0.2/tcp/1"),
            found("/ip6/fe80::1/tcp/1"),
        ]),
        &at,
    );
    let mut expected = vec![
        Effect::AddExplicitPeer(BOB.to_string()),
        status(&format!("mDNS discovered {BOB}")),
        status(&format!("mDNS discovered {BOB}")),
    ];
    expected.extend(summaries());
    assert_eq!(done, expected);
    assert_eq!(session.peers.addresses.get(BOB).unwrap().items.len(), 2);
    assert_eq!(event(&mut session, NetworkEvent::MdnsDiscovered(vec![]), &at), []);
    let done = event(
        &mut session,
        NetworkEvent::MdnsExpired(vec![found("/ip4/192.168.0.2/tcp/1")]),
        &with_peers(world(11), &[BOB]),
    );
    assert_eq!(done, [status(&format!("mDNS expired {BOB}"))]);
    assert_eq!(session.peers.addresses.get(BOB).unwrap().items.len(), 1);
    let done = event(
        &mut session,
        NetworkEvent::MdnsExpired(vec![found("/ip6/fe80::1/tcp/1")]),
        &at,
    );
    assert_eq!(
        done,
        [
            Effect::RemoveExplicitPeer(BOB.to_string()),
            status(&format!("mDNS expired {BOB}")),
        ]
    );
    assert!(session.peers.addresses.get(BOB).is_none());
}

#[test]
fn a_rendezvous_node_is_used() {
    let mut session = started();
    let _new = session.peers.rendezvous.insert(CAROL);
    let mut at = with_peers(world(10), &[CAROL]);
    let done = connect(&mut session, CAROL, 1, false, &at);
    let mut expected = vec![
        status(&format!("connected {CAROL} directly")),
        status(&format!(
            "rendezvous register deferred {CAROL}: waiting for confirmed external address"
        )),
        Effect::Discover(CAROL.to_string()),
        status(&format!("discovering peers via rendezvous {CAROL} in room")),
        Effect::Ui(UiEvent::PeerCount(1)),
    ];
    expected.extend(summaries());
    assert_eq!(done, expected);

    at.external_address = true;
    let registering = [
        Effect::Register(CAROL.to_string()),
        status(&format!("registering with rendezvous {CAROL} in room")),
    ];
    assert_eq!(tick(&mut session, Tick::Register, &at), registering);
    let circuit = address(&format!("/ip4/10.0.0.1/tcp/1/p2p/{CAROL}/p2p-circuit"));
    let done = event(&mut session, NetworkEvent::ExternalAddrConfirmed(circuit), &at);
    assert_eq!(done[1..], registering);
    let effects = session.tick(Tick::Register, &at);
    let done = settle(&mut session, effects, &at, |effect| match effect {
        Effect::Register(_) => Outcome::Failed(failure("NoExternalAddresses")),
        _ => Outcome::Done,
    });
    assert_eq!(
        said(&done),
        [format!("rendezvous register request failed {CAROL}: NoExternalAddresses")]
    );
    assert_eq!(
        tick(&mut session, Tick::Discover, &at),
        [
            Effect::Discover(CAROL.to_string()),
            status(&format!("discovering peers via rendezvous {CAROL} in room")),
        ]
    );
    let apart = world(11);
    assert_eq!(tick(&mut session, Tick::Register, &apart), []);
    assert_eq!(tick(&mut session, Tick::Discover, &apart), []);
}

#[test]
fn registered_peers_are_dialed() {
    let mut session = started();
    let at = with_peers(world(10), &[CAROL]);
    let registration = |who: &str, addresses: &[&str]| Registration {
        peer: peer(who),
        addresses: addresses.iter().map(|a| address(a)).collect(),
    };
    let found = |registrations: Vec<Registration>| NetworkEvent::Discovered {
        node: peer(CAROL),
        registrations,
    };
    let done = event(
        &mut session,
        found(vec![
            registration(ALICE, &["/ip4/1.1.1.1/tcp/1"]),
            registration(CAROL, &["/ip4/0.0.0.0/tcp/1"]),
            registration(BOB, &["/ip4/1.2.3.4/tcp/1", "/ip6/::1/tcp/1"]),
        ]),
        &at,
    );
    assert_eq!(
        done,
        [
            Effect::AddExplicitPeer(BOB.to_string()),
            status(&format!("tracking {BOB} as rendezvous gossip peer")),
            Effect::Dial {
                peer: BOB.to_string(),
                addresses: vec![
                    address(&format!("/ip6/::1/tcp/1/p2p/{BOB}")),
                    address(&format!("/ip4/1.2.3.4/tcp/1/p2p/{BOB}")),
                ],
                always: false,
            },
            status(&format!("dialing discovered peer {BOB} (2 candidate address(es))")),
            status(&format!("rendezvous {CAROL} returned 1 peer address set(s)")),
        ]
    );
    let effects = session.network_event(
        found(vec![registration(BOB, &["/ip4/1.2.3.4/tcp/1"])]),
        &at,
    );
    let done = settle(&mut session, effects, &at, |effect| match effect {
        Effect::Dial { .. } => Outcome::Failed(failure("limit")),
        _ => Outcome::Done,
    });
    assert_eq!(
        said(&done),
        [
            format!("rendezvous discovered peer dial failed {BOB}: limit"),
            format!("rendezvous {CAROL} returned 1 peer address set(s)"),
        ]
    );
    let near = with_peers(world(10), &[BOB, CAROL]);
    let done = event(
        &mut session,
        found(vec![registration(BOB, &["/ip4/1.2.3.4/tcp/1"])]),
        &near,
    );
    assert_eq!(
        done,
        [status(&format!("rendezvous {CAROL} returned 1 peer address set(s)"))]
    );
}

#[test]
fn warmups_that_are_over_lead_to_a_dial() {
    let mut session = started();
    let at = with_peers(world(10), &[BOB]);
    let _done = connect(&mut session, BOB, 1, true, &at);
    assert_eq!(event(&mut session, identified(BOB, &["/ip4/1.2.3.4/tcp/1"]), &at), []);
    assert_eq!(tick(&mut session, Tick::Warmup, &with_peers(world(14), &[BOB])), []);
    let done = tick(&mut session, Tick::Warmup, &with_peers(world(15), &[BOB]));
    assert_eq!(
        said(&done),
        [
            format!("gossipsub warmup timed out for {BOB}; trying direct promotion anyway"),
            format!("trying direct connection to {BOB} (1 candidate address(es))"),
        ]
    );
    assert_eq!(tick(&mut session, Tick::Warmup, &with_peers(world(99), &[BOB])), []);
}

#[test]
fn nothing_in_the_network_ends_a_session() {
    let refusing = |effect: &Effect| match effect {
        Effect::Ui(_) => Outcome::Done,
        _ => Outcome::Failed(failure("refused")),
    };
    let mut session = started();
    let at = with_peers(world(10), &[BOB]);
    let circuit = address(&format!("/ip4/10.0.0.1/tcp/1/p2p/{CAROL}/p2p-circuit"));
    for news in [
        NetworkEvent::ConnectionEstablished {
            peer: peer(BOB),
            connection: 1,
            relayed: true,
            remote: address("/ip4/10.0.0.1/tcp/1"),
        },
        NetworkEvent::ExternalAddrConfirmed(circuit),
        subscribed(BOB),
        identified(BOB, &["/ip4/1.2.3.4/tcp/1"]),
        NetworkEvent::MdnsDiscovered(vec![PeerAddress {
            peer: peer(CAROL),
            address: address("/ip4/192.168.0.2/tcp/1"),
        }]),
        closed(BOB, 1, true, 0),
    ] {
        let effects = session.network_event(news, &at);
        let done = settle(&mut session, effects, &at, refusing);
        assert!(done.iter().all(|effect| !matches!(effect, Effect::Shutdown(_))));
        assert!(session.is_idle());
    }
}
