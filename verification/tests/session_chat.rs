use link_ear::address::Address;
use link_ear::effect::{
    publish_chat_wire, publish_history_wire, Effect, Failure, NetworkEvent, Outcome, PublishReport,
    Tick, World,
};
use link_ear::history::MAX_MESSAGES;
use link_ear::model::{ChatRecord, NetworkCommand, QueueState, UiEvent, WireMessage};
use link_ear::peer::{parse_peer_id, PeerId};
use link_ear::session::startup::BackendConfig;
use link_ear::session::Session;
use link_ear::time::Moment;

const ALICE: &str = "12D3KooWCKULvuTT1ZDPW8zZpd215MT1QzoNeTvFbPvzhhGHmyDf";
const BOB: &str = "12D3KooWEpUHE3gptbCmfVFLxg5zqk1ESsapZpKbGVbEen4EVjVL";
const CAROL: &str = "12D3KooWHKUDXBvCmdC9pqW86j9zc8ZTUkNGU4zZTUVyV8MuKHD1";
const JOINED: i64 = 1_700_000_000_000_000;
const SECOND: u64 = 1_000_000_000;

fn peer(text: &str) -> PeerId {
    parse_peer_id(text).unwrap()
}

fn address(text: &str) -> Address {
    Address::parse(text).unwrap()
}

fn config() -> BackendConfig {
    BackendConfig {
        name: "ann".to_string(),
        topic: "room".to_string(),
        listen: vec![address("/ip4/127.0.0.1/tcp/1")],
        peer: vec![],
        relay: vec![],
        no_mdns: true,
    }
}

fn world(seconds: u64) -> World {
    World {
        now: Moment {
            wall_micros: JOINED + seconds as i64 * 1_000_000,
            mono_nanos: seconds * SECOND,
        },
        played_ms: 0,
        connected: vec![],
        external_address: false,
        player: None,
    }
}

fn failure(text: &str) -> Failure {
    Failure { brief: text.to_string(), full: format!("{text}, at length") }
}

fn settle(
    session: &mut Session,
    first: Vec<Effect>,
    world: &World,
    mut answer: impl FnMut(&Effect) -> Outcome,
) -> Vec<Effect> {
    let mut done = Vec::new();
    let mut effects = first;
    loop {
        let mut outcome = Outcome::Done;
        for effect in effects {
            outcome = answer(&effect);
            done.push(effect);
            if matches!(outcome, Outcome::Failed(_)) {
                break;
            }
        }
        let failed = matches!(outcome, Outcome::Failed(_));
        if session.is_idle() && !failed {
            return done;
        }
        effects = session.resume(outcome, world);
    }
}

fn well(_effect: &Effect) -> Outcome {
    Outcome::Done
}

fn started() -> Session {
    let (mut session, effects) = Session::start(config(), peer(ALICE), JOINED, None);
    let _done = settle(&mut session, effects, &world(0), well);
    session
}

fn status(text: &str) -> Effect {
    Effect::Ui(UiEvent::Status(text.to_string()))
}

fn said(done: &[Effect]) -> Vec<String> {
    done.iter()
        .filter_map(|effect| match effect {
            Effect::Ui(UiEvent::Status(text)) => Some(text.clone()),
            _ => None,
        })
        .collect()
}

fn command(session: &mut Session, command: NetworkCommand, at: &World) -> Vec<Effect> {
    let effects = session.command(command, at);
    settle(session, effects, at, well)
}

fn event(session: &mut Session, event: NetworkEvent, at: &World) -> Vec<Effect> {
    let effects = session.network_event(event, at);
    settle(session, effects, at, well)
}

fn hear(session: &mut Session, from: &str, message: WireMessage, at: &World) -> Vec<Effect> {
    event(
        session,
        NetworkEvent::Message { via: peer(from), source: Some(peer(from)), message },
        at,
    )
}

fn connect(session: &mut Session, to: &str, connection: u64, relayed: bool, at: &World) -> Vec<Effect> {
    event(
        session,
        NetworkEvent::ConnectionEstablished {
            peer: peer(to),
            connection,
            relayed,
            remote: address("/ip4/10.0.0.1/tcp/1"),
        },
        at,
    )
}

fn record(id: &str, sent_at: i64) -> ChatRecord {
    ChatRecord {
        id: id.to_string(),
        peer_id: BOB.to_string(),
        joined_at: Some(JOINED + 1),
        author: "bob".to_string(),
        text: "hello".to_string(),
        sent_at,
    }
}

fn chat(id: Option<&str>, text: &str, sent_at: i64) -> WireMessage {
    WireMessage::Chat {
        id: id.map(|id| id.to_string()),
        peer_id: BOB.to_string(),
        joined_at: Some(JOINED + 1),
        name: "bob".to_string(),
        text: text.to_string(),
        sent_at,
    }
}

fn claim() -> WireMessage {
    WireMessage::NameClaim {
        peer_id: ALICE.to_string(),
        name: "ann".to_string(),
        joined_at: Some(JOINED),
    }
}

fn empty_summary() -> WireMessage {
    WireMessage::HistorySummary { peer_id: ALICE.to_string(), count: 0, newest_at: None }
}

#[test]
fn a_session_starts_by_following_the_room() {
    let mut config = config();
    config.listen = vec![];
    config.relay = vec![
        address("/ip4/10.0.0.2/tcp/2"),
        address(&format!("/ip6/::1/tcp/2/p2p/{CAROL}")),
    ];
    config.peer = vec![address("/ip4/10.0.0.3/tcp/3")];
    let (mut session, effects) =
        Session::start(config, peer(ALICE), JOINED, Some("no device".to_string()));
    let done = settle(&mut session, effects, &world(0), well);
    let relay = address(&format!("/ip6/::1/tcp/2/p2p/{CAROL}"));
    let plain = address("/ip4/10.0.0.2/tcp/2");
    let mut expected = vec![
        status("audio output unavailable: no device"),
        Effect::Ui(UiEvent::LocalPeerId(ALICE.to_string())),
        Effect::Ui(UiEvent::Queue(QueueState {
            version: 0,
            updated_at_micros: 0,
            updated_by: ALICE.to_string(),
            items: vec![],
        })),
        Effect::Subscribe,
    ];
    for place in [
        "/ip6/::/tcp/0",
        "/ip6/::/udp/0/quic-v1",
        "/ip4/0.0.0.0/tcp/0",
        "/ip4/0.0.0.0/udp/0/quic-v1",
    ] {
        expected.push(Effect::Listen(address(place)));
        expected.push(status(&format!("listening requested on {place}")));
    }
    expected.push(Effect::Listen(relay.with_circuit()));
    expected.push(status(&format!(
        "requesting relay reservation via /ip6/::1/tcp/2/p2p/{CAROL}/p2p-circuit"
    )));
    expected.push(status(
        "relay address has no /p2p peer id; rendezvous disabled for /ip4/10.0.0.2/tcp/2",
    ));
    expected.push(Effect::Listen(plain.with_circuit()));
    expected.push(status("requesting relay reservation via /ip4/10.0.0.2/tcp/2/p2p-circuit"));
    expected.push(Effect::DialAddress(address("/ip4/10.0.0.3/tcp/3")));
    expected.push(status("dialing peer /ip4/10.0.0.3/tcp/3"));
    assert_eq!(done, expected);
    assert!(session.peers.rendezvous.contains(CAROL));
    assert_eq!(session.peers.rendezvous.len(), 1);
}

#[test]
fn places_are_listened_at_by_preference() {
    let mut config = config();
    config.listen = vec![address("/ip4/127.0.0.1/tcp/1"), address("/ip6/::1/tcp/1")];
    let (mut session, effects) = Session::start(config, peer(ALICE), JOINED, None);
    let done = settle(&mut session, effects, &world(0), well);
    assert_eq!(
        said(&done),
        ["listening requested on /ip6/::1/tcp/1", "listening requested on /ip4/127.0.0.1/tcp/1"]
    );
}

#[test]
fn failures_at_the_start_are_told() {
    let mut config = config();
    config.relay = vec![address(&format!("/ip4/10.0.0.2/tcp/2/p2p/{CAROL}"))];
    config.peer = vec![address("/ip4/10.0.0.3/tcp/3")];
    let (mut session, effects) = Session::start(config, peer(ALICE), JOINED, None);
    let done = settle(&mut session, effects, &world(0), |effect| match effect {
        Effect::Listen(_) | Effect::DialAddress(_) => Outcome::Failed(failure("busy")),
        _ => Outcome::Done,
    });
    assert_eq!(
        said(&done),
        [
            "listen failed on /ip4/127.0.0.1/tcp/1: busy".to_string(),
            format!(
                "relay reservation request failed /ip4/10.0.0.2/tcp/2/p2p/{CAROL}/p2p-circuit: busy"
            ),
            "peer dial failed /ip4/10.0.0.3/tcp/3: busy".to_string(),
        ]
    );
}

#[test]
fn a_session_that_cannot_follow_the_room_ends() {
    let (mut session, effects) = Session::start(config(), peer(ALICE), JOINED, None);
    let done = settle(&mut session, effects, &world(0), |effect| match effect {
        Effect::Subscribe => Outcome::Failed(failure("refused")),
        _ => Outcome::Done,
    });
    assert_eq!(done.last(), Some(&Effect::Shutdown(failure("refused"))));
    assert!(session.is_idle());
}

#[test]
fn what_is_written_is_kept_and_sent() {
    let mut session = started();
    let at = world(10);
    let done = command(&mut session, NetworkCommand::Chat("hi".to_string()), &at);
    let id = session.history.records[0].id.clone();
    assert!(id.starts_with(&format!("{ALICE}-{}-", at.now.wall_micros)));
    let written = ChatRecord {
        id: id.clone(),
        peer_id: ALICE.to_string(),
        joined_at: Some(JOINED),
        author: "ann".to_string(),
        text: "hi".to_string(),
        sent_at: at.now.wall_micros,
    };
    assert_eq!(
        done,
        [
            Effect::Ui(UiEvent::History(vec![written])),
            Effect::PublishChat(WireMessage::Chat {
                id: Some(id),
                peer_id: ALICE.to_string(),
                joined_at: Some(JOINED),
                name: "ann".to_string(),
                text: "hi".to_string(),
                sent_at: at.now.wall_micros,
            }),
        ]
    );
    assert_eq!(session.message_seq, 1);
    let _done = command(&mut session, NetworkCommand::Chat("hi".to_string()), &at);
    assert_eq!(session.history.records.len(), 2);
}

#[test]
fn without_subscribers_peers_are_told_directly() {
    let mut session = started();
    let at = world(10);
    let lonely = |effect: &Effect| match effect {
        Effect::PublishChat(_) => publish_chat_wire(PublishReport::NoPeersSubscribed),
        _ => Outcome::Done,
    };
    let effects = session.command(NetworkCommand::Chat("one".to_string()), &at);
    let done = settle(&mut session, effects, &at, lonely);
    assert_eq!(said(&done), ["publish failed: NoPeersSubscribedToTopic"]);

    let _done = connect(&mut session, BOB, 1, false, &at);
    let _done = connect(&mut session, CAROL, 2, true, &at);
    let _new = session.peers.rendezvous.insert(CAROL);
    let effects = session.command(NetworkCommand::Chat("two".to_string()), &at);
    let done = settle(&mut session, effects, &at, lonely);
    assert_eq!(
        said(&done),
        ["gossipsub has no chat subscribers; sent direct fallback to 1 peer(s)"]
    );
    let targets: Vec<String> = done
        .iter()
        .filter_map(|effect| match effect {
            Effect::SendDirect { peer, topic, message: WireMessage::Chat { text, .. } } => {
                Some(format!("{peer} {topic} {text}"))
            }
            _ => None,
        })
        .collect();
    assert_eq!(targets, [format!("{BOB} room two")]);
}

#[test]
fn a_refused_message_is_told() {
    let mut session = started();
    let at = world(10);
    let effects = session.command(NetworkCommand::Chat("one".to_string()), &at);
    let done = settle(&mut session, effects, &at, |effect| match effect {
        Effect::PublishChat(_) => publish_chat_wire(PublishReport::Rejected(failure("too long"))),
        _ => Outcome::Done,
    });
    assert_eq!(said(&done), ["publish failed: too long"]);
    assert!(session.is_idle());
}

#[test]
fn reports_of_the_network_are_judged() {
    assert_eq!(publish_history_wire(PublishReport::Accepted), Outcome::Done);
    assert_eq!(publish_history_wire(PublishReport::Duplicate), Outcome::Done);
    assert_eq!(publish_history_wire(PublishReport::NoPeersSubscribed), Outcome::Done);
    assert_eq!(
        publish_history_wire(PublishReport::Rejected(failure("x"))),
        Outcome::Failed(failure("x"))
    );
    assert_eq!(publish_chat_wire(PublishReport::Accepted), Outcome::Done);
    assert_eq!(publish_chat_wire(PublishReport::Duplicate), Outcome::Done);
    assert_eq!(publish_chat_wire(PublishReport::NoPeersSubscribed), Outcome::NoSubscribers);
    assert_eq!(
        publish_chat_wire(PublishReport::Rejected(failure("x"))),
        Outcome::Failed(failure("x"))
    );
}

#[test]
fn a_name_that_is_taken_cannot_be_used() {
    let mut session = started();
    let at = world(10);
    let earlier = WireMessage::NameClaim {
        peer_id: BOB.to_string(),
        name: "ann".to_string(),
        joined_at: Some(JOINED - 1),
    };
    let done = hear(&mut session, BOB, earlier, &at);
    assert_eq!(
        done,
        [status(&format!("name conflict: peer {BOB} joined earlier with 'ann'"))]
    );
    let done = command(&mut session, NetworkCommand::Chat("hi".to_string()), &at);
    assert_eq!(
        done,
        [status("name 'ann' belongs to an earlier peer; restart with a different --name")]
    );
    assert!(session.history.records.is_empty());
    assert_eq!(session.message_seq, 1);
    let done = event(
        &mut session,
        NetworkEvent::ConnectionClosed {
            peer: peer(BOB),
            connection: 1,
            relayed: false,
            remote: address("/ip4/10.0.0.1/tcp/1"),
            remaining: 0,
        },
        &at,
    );
    assert_eq!(
        done,
        [
            status(&format!("disconnected {BOB}")),
            status("name 'ann' is available again"),
            Effect::Ui(UiEvent::PeerCount(0)),
        ]
    );
}

#[test]
fn a_chat_message_is_taken_once() {
    let mut session = started();
    let at = world(10);
    let done = hear(&mut session, BOB, chat(Some("m1"), "hello", 1_700_000_000), &at);
    assert_eq!(done, [Effect::Ui(UiEvent::History(vec![record("m1", 1_700_000_000)]))]);
    assert_eq!(hear(&mut session, BOB, chat(Some("m1"), "hello", 1_700_000_000), &at), []);
    assert_eq!(hear(&mut session, CAROL, chat(Some("m1"), "other", 5), &at), []);
    assert_eq!(session.names.claims.get(BOB).unwrap().name, "bob");
}

#[test]
fn a_message_without_an_identifier_gets_one_from_its_bearer() {
    let mut session = started();
    let at = world(10);
    let mut anonymous = chat(None, "hello", 77);
    if let WireMessage::Chat { peer_id, .. } = &mut anonymous {
        *peer_id = "nobody".to_string();
    }
    let done = event(
        &mut session,
        NetworkEvent::Message { via: peer(CAROL), source: Some(peer(BOB)), message: anonymous },
        &at,
    );
    assert_eq!(done.len(), 1);
    let kept = &session.history.records[0];
    assert!(kept.id.starts_with(&format!("{CAROL}-77-")));
    assert_eq!(kept.peer_id, BOB);
    let _done = event(
        &mut session,
        NetworkEvent::Message { via: peer(CAROL), source: None, message: chat(None, "x", 78) },
        &at,
    );
    assert_eq!(session.history.records[1].peer_id, BOB);
}

#[test]
fn direct_messages_are_answered() {
    let mut session = started();
    let at = world(10);
    let request = |topic: &str, message: WireMessage| NetworkEvent::DirectRequest {
        peer: peer(BOB),
        topic: topic.to_string(),
        message,
    };
    let done = event(&mut session, request("other", chat(Some("m"), "hello", 1)), &at);
    assert_eq!(
        done,
        [
            status(&format!("ignored direct message from {BOB}: topic mismatch")),
            Effect::Respond { accepted: false },
        ]
    );
    let done = event(&mut session, request("room", chat(Some("m"), "hello", 1)), &at);
    assert_eq!(
        done,
        [
            Effect::Ui(UiEvent::History(vec![record("m", 1)])),
            Effect::Respond { accepted: true },
        ]
    );
    let done = event(&mut session, request("room", chat(Some("m"), "hello", 1)), &at);
    assert_eq!(done, [Effect::Respond { accepted: true }]);
    let done = event(&mut session, request("room", claim()), &at);
    assert_eq!(done, [Effect::Respond { accepted: true }]);
    let nameless = WireMessage::NameClaim {
        peer_id: "nobody".to_string(),
        name: "x".to_string(),
        joined_at: None,
    };
    let done = event(&mut session, request("room", nameless), &at);
    assert_eq!(done, [Effect::Respond { accepted: false }]);
    let done = event(&mut session, request("room", empty_summary()), &at);
    assert_eq!(done, [Effect::Respond { accepted: false }]);
    let effects = session.network_event(request("room", claim()), &at);
    let done = settle(&mut session, effects, &at, |effect| match effect {
        Effect::Respond { .. } => Outcome::Failed(failure("closed")),
        _ => Outcome::Done,
    });
    assert_eq!(said(&done), [format!("direct response failed {BOB}: channel closed")]);
}

#[test]
fn news_of_direct_messages_is_told() {
    let mut session = started();
    let at = world(10);
    let cases = [
        (
            NetworkEvent::DirectResponse { peer: peer(BOB), accepted: false },
            vec![format!("direct message ignored by {BOB}")],
        ),
        (NetworkEvent::DirectResponse { peer: peer(BOB), accepted: true }, vec![]),
        (
            NetworkEvent::DirectOutboundFailure { peer: peer(BOB), error: "e".to_string() },
            vec![format!("direct message failed {BOB}: e")],
        ),
        (
            NetworkEvent::DirectInboundFailure { peer: peer(BOB), error: "e".to_string() },
            vec![format!("direct message inbound failed {BOB}: e")],
        ),
        (
            NetworkEvent::InvalidMessage { error: "not json".to_string() },
            vec!["ignored invalid message: not json".to_string()],
        ),
    ];
    for (news, texts) in cases {
        let done = event(&mut session, news, &at);
        assert_eq!(said(&done), texts);
        assert_eq!(done.len(), texts.len());
    }
}

#[test]
fn summaries_are_published() {
    let mut session = started();
    let at = world(10);
    let effects = session.tick(Tick::HistorySync, &at);
    let done = settle(&mut session, effects, &at, well);
    assert_eq!(done, [Effect::Publish(claim()), Effect::Publish(empty_summary())]);
    let _done = hear(&mut session, BOB, chat(Some("m"), "hello", 1_700_000_000), &at);
    session.queue.version = 3;
    session.queue.updated_at = 9;
    let effects = session.tick(Tick::HistorySync, &at);
    let done = settle(&mut session, effects, &at, well);
    assert_eq!(
        done,
        [
            Effect::Publish(claim()),
            Effect::Publish(WireMessage::HistorySummary {
                peer_id: ALICE.to_string(),
                count: 1,
                newest_at: Some(1_700_000_000_000_000),
            }),
            Effect::Publish(WireMessage::QueueSummary {
                peer_id: ALICE.to_string(),
                version: 3,
                updated_at_micros: 9,
                item_count: 0,
            }),
        ]
    );
    let effects = session.tick(Tick::HistorySync, &at);
    let done = settle(&mut session, effects, &at, |effect| match effect {
        Effect::Publish(_) => Outcome::Failed(failure("down")),
        _ => Outcome::Done,
    });
    assert_eq!(said(&done), ["sync summary failed: down"]);
    assert_eq!(done.len(), 2);
}

#[test]
fn summaries_are_repeated_after_peers_have_met() {
    let mut session = started();
    let _done = connect(&mut session, BOB, 1, false, &world(10));
    let start = 10 * SECOND;
    assert_eq!(
        session.sync.due,
        [start + 300_000_000, start + 900_000_000, start + 1_800_000_000]
    );
    let mut at = world(10);
    at.now.mono_nanos = start + 300_000_000 - 1;
    let effects = session.tick(Tick::HistoryBurst, &at);
    assert_eq!(settle(&mut session, effects, &at, well), []);
    at.now.mono_nanos = start + 900_000_000;
    let effects = session.tick(Tick::HistoryBurst, &at);
    let done = settle(&mut session, effects, &at, well);
    assert_eq!(
        done,
        [
            Effect::Publish(claim()),
            Effect::Publish(empty_summary()),
            Effect::Publish(claim()),
            Effect::Publish(empty_summary()),
        ]
    );
    assert_eq!(session.sync.due, [start + 1_800_000_000]);
    at.now.mono_nanos = start + 1_800_000_000;
    let effects = session.tick(Tick::HistoryBurst, &at);
    let done = settle(&mut session, effects, &at, |effect| match effect {
        Effect::Publish(_) => Outcome::Failed(failure("down")),
        _ => Outcome::Done,
    });
    assert_eq!(said(&done), ["sync summary failed: down"]);
    assert!(session.sync.due.is_empty());
}

#[test]
fn a_longer_history_is_asked_for_once_in_a_while() {
    let mut session = started();
    let summary = |count: usize| WireMessage::HistorySummary {
        peer_id: BOB.to_string(),
        count,
        newest_at: Some(1),
    };
    assert_eq!(hear(&mut session, BOB, summary(0), &world(10)), []);
    let done = hear(&mut session, BOB, summary(2), &world(10));
    assert_eq!(
        done,
        [
            Effect::Publish(WireMessage::HistoryRequest {
                requester: ALICE.to_string(),
                target: BOB.to_string(),
                known_count: 0,
            }),
            status(&format!("requesting history from {BOB}")),
        ]
    );
    assert_eq!(hear(&mut session, BOB, summary(2), &world(14)), []);
    assert_eq!(hear(&mut session, BOB, summary(2), &world(15)).len(), 2);
    let at = world(30);
    let effects = session.network_event(
        NetworkEvent::Message { via: peer(BOB), source: None, message: summary(2) },
        &at,
    );
    let done = settle(&mut session, effects, &at, |effect| match effect {
        Effect::Publish(_) => Outcome::Failed(failure("down")),
        _ => Outcome::Done,
    });
    assert_eq!(said(&done), ["history request failed: down"]);
    assert_eq!(hear(&mut session, BOB, summary(2), &at).len(), 2);
    let own = WireMessage::HistorySummary {
        peer_id: ALICE.to_string(),
        count: 99,
        newest_at: None,
    };
    assert_eq!(hear(&mut session, BOB, own, &world(99)), []);
}

#[test]
fn a_peer_behind_is_answered() {
    let mut session = started();
    let at = world(10);
    let _done = hear(&mut session, BOB, chat(Some("m"), "hello", 5), &at);
    let request = |requester: &str, target: &str, known_count: usize| WireMessage::HistoryRequest {
        requester: requester.to_string(),
        target: target.to_string(),
        known_count,
    };
    let done = hear(&mut session, CAROL, request(CAROL, ALICE, 0), &at);
    assert_eq!(
        done,
        [
            Effect::Publish(WireMessage::HistoryResponse {
                target: None,
                messages: vec![record("m", 5)],
            }),
            status("sent 1 history messages"),
        ]
    );
    assert_eq!(hear(&mut session, CAROL, request(CAROL, ALICE, 1), &at), []);
    assert_eq!(hear(&mut session, CAROL, request(CAROL, BOB, 0), &at), []);
    assert_eq!(hear(&mut session, CAROL, request(ALICE, ALICE, 0), &at), []);
    let effects = session.network_event(
        NetworkEvent::Message {
            via: peer(CAROL),
            source: None,
            message: request(CAROL, ALICE, 0),
        },
        &at,
    );
    let done = settle(&mut session, effects, &at, |effect| match effect {
        Effect::Publish(_) => Outcome::Failed(failure("down")),
        _ => Outcome::Done,
    });
    assert_eq!(said(&done), ["history response failed: down"]);
}

#[test]
fn histories_are_merged() {
    let mut session = started();
    let at = world(10);
    let response = |target: Option<&str>| WireMessage::HistoryResponse {
        target: target.map(|t| t.to_string()),
        messages: vec![record("b", 7), record("a", 7), record("b", 7)],
    };
    assert_eq!(hear(&mut session, BOB, response(Some(CAROL)), &at), []);
    let done = hear(&mut session, BOB, response(None), &at);
    assert_eq!(
        done,
        [
            Effect::Ui(UiEvent::History(vec![record("a", 7), record("b", 7)])),
            status("merged 2 history messages, now 2"),
        ]
    );
    assert_eq!(hear(&mut session, BOB, response(Some(ALICE)), &at), []);
}

#[test]
fn two_peers_come_to_the_same_history() {
    let at = world(10);
    let mut one = started();
    let mut two = started();
    let _done = hear(&mut one, BOB, chat(Some("x"), "hello", 5), &at);
    let _done = hear(&mut two, BOB, chat(Some("y"), "hello", 4), &at);
    let sent = |session: &Session| WireMessage::HistoryResponse {
        target: None,
        messages: session.history.records.clone(),
    };
    let from_one = sent(&one);
    let from_two = sent(&two);
    let _done = hear(&mut two, BOB, from_one, &at);
    let _done = hear(&mut one, BOB, from_two, &at);
    assert_eq!(one.history.records, two.history.records);
    assert_eq!(one.history.records.len(), 2);
    assert!(one.history.records.len() <= MAX_MESSAGES);
}

#[test]
fn two_peers_with_long_histories_keep_the_same_newest_messages() {
    let at = world(10);
    let mut one = started();
    let mut two = started();
    for i in 0..MAX_MESSAGES as i64 {
        let even = record(&format!("even{i}"), 1_700_000_000 + 2 * i);
        let odd = record(&format!("odd{i}"), 1_700_000_001 + 2 * i);
        let _new = one.history.insert_record(even.clone());
        let _new = two.history.insert_record(odd);
        if i % 3 == 0 {
            let _new = two.history.insert_record(even);
        }
    }
    let mut all: Vec<ChatRecord> = one.history.records.clone();
    all.extend(two.history.records.clone());
    all.sort_by(|a, b| (a.sent_at, &a.id).cmp(&(b.sent_at, &b.id)));
    all.dedup();
    let newest = all.split_off(all.len() - MAX_MESSAGES);
    let sent = |session: &Session| WireMessage::HistoryResponse {
        target: None,
        messages: session.history.records.clone(),
    };
    let from_one = sent(&one);
    let from_two = sent(&two);
    let _done = hear(&mut two, BOB, from_one, &at);
    let _done = hear(&mut one, BOB, from_two, &at);
    assert_eq!(one.history.records, newest);
    assert_eq!(two.history.records, newest);
}

#[test]
fn every_message_but_a_chat_message_has_a_fresh_number() {
    let mut session = started();
    let at = world(10);
    assert_eq!(session.message_nonce(&chat(Some("m"), "hello", 5), &at), None);
    let first = session.message_nonce(&claim(), &at).unwrap();
    let second = session.message_nonce(&claim(), &at).unwrap();
    assert_ne!(first, second);
}

#[test]
fn a_session_knows_when_it_can_write_no_more() {
    let mut session = started();
    let wanted = NetworkCommand::Chat("hi".to_string());
    session.message_seq = u64::MAX - 1;
    assert!(session.can_command(&wanted));
    session.message_seq = u64::MAX;
    assert!(!session.can_command(&wanted));
    for asked in [NetworkCommand::ShowQueue, NetworkCommand::Skip, NetworkCommand::Vote(true)] {
        assert!(session.can_command(&asked));
    }
}
