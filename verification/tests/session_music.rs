use link_ear::address::Address;
use link_ear::effect::{Effect, Failure, NetworkEvent, Outcome, Tick, World};
use link_ear::model::{
    NetworkCommand, PlaybackState, PlaybackView, QueueItem, QueueState, Track, UiEvent, WireMessage,
};
use link_ear::peer::{parse_peer_id, PeerId};
use link_ear::playback::{PlayerCommand, PlayerStatus, UNIT_RATE_BITS};
use link_ear::session::startup::BackendConfig;
use link_ear::session::Session;
use link_ear::time::Moment;

const ALICE: &str = "12D3KooWCKULvuTT1ZDPW8zZpd215MT1QzoNeTvFbPvzhhGHmyDf";
const BOB: &str = "12D3KooWEpUHE3gptbCmfVFLxg5zqk1ESsapZpKbGVbEen4EVjVL";
const CAROL: &str = "12D3KooWHKUDXBvCmdC9pqW86j9zc8ZTUkNGU4zZTUVyV8MuKHD1";
const JOINED: i64 = 1_700_000_000_000_000;
const SECOND: u64 = 1_000_000_000;

fn peer(text: &str) -> PeerId {
    parse_peer_id(text).unwrap()
}

fn address(text: &str) -> Address {
    Address::parse(text).unwrap()
}

fn config() -> BackendConfig {
    BackendConfig {
        name: "ann".to_string(),
        topic: "room".to_string(),
        listen: vec![address("/ip4/127.0.0.1/tcp/1")],
        peer: vec![],
        relay: vec![],
        no_mdns: true,
    }
}

fn world(seconds: u64) -> World {
    World {
        now: Moment {
            wall_micros: JOINED + seconds as i64 * 1_000_000,
            mono_nanos: seconds * SECOND,
        },
        played_ms: 0,
        connected: vec![],
        external_address: false,
        player: None,
    }
}

fn failure(text: &str) -> Failure {
    Failure { brief: text.to_string(), full: format!("{text}, at length") }
}

fn settle(
    session: &mut Session,
    first: Vec<Effect>,
    world: &World,
    mut answer: impl FnMut(&Effect) -> Outcome,
) -> Vec<Effect> {
    let mut done = Vec::new();
    let mut effects = first;
    loop {
        let mut outcome = Outcome::Done;
        for effect in effects {
            outcome = answer(&effect);
            done.push(effect);
            if matches!(outcome, Outcome::Failed(_)) {
                break;
            }
        }
        let failed = matches!(outcome, Outcome::Failed(_));
        if session.is_idle() && !failed {
            return done;
        }
        effects = session.resume(outcome, world);
    }
}

fn well(_effect: &Effect) -> Outcome {
    Outcome::Done
}

fn started() -> Session {
    let (mut session, effects) = Session::start(config(), peer(ALICE), JOINED, None);
    let _done = settle(&mut session, effects, &world(0), well);
    session
}

fn status(text: &str) -> Effect {
    Effect::Ui(UiEvent::Status(text.to_string()))
}

fn said(done: &[Effect]) -> Vec<String> {
    done.iter()
        .filter_map(|effect| match effect {
            Effect::Ui(UiEvent::Status(text)) => Some(text.clone()),
            _ => None,
        })
        .collect()
}

fn command(session: &mut Session, command: NetworkCommand, at: &World) -> Vec<Effect> {
    let effects = session.command(command, at);
    settle(session, effects, at, well)
}

fn event(session: &mut Session, event: NetworkEvent, at: &World) -> Vec<Effect> {
    let effects = session.network_event(event, at);
    settle(session, effects, at, well)
}

fn hear(session: &mut Session, from: &str, message: WireMessage, at: &World) -> Vec<Effect> {
    event(
        session,
        NetworkEvent::Message { via: peer(from), source: Some(peer(from)), message },
        at,
    )
}

fn connect(session: &mut Session, to: &str, connection: u64, relayed: bool, at: &World) -> Vec<Effect> {
    event(
        session,
        NetworkEvent::ConnectionEstablished {
            peer: peer(to),
            connection,
            relayed,
            remote: address("/ip4/10.0.0.1/tcp/1"),
        },
        at,
    )
}

fn tick(session: &mut Session, tick: Tick, at: &World) -> Vec<Effect> {
    let effects = session.tick(tick, at);
    settle(session, effects, at, well)
}

fn track(id: &str) -> Track {
    Track { track_id: id.to_string(), title: format!("song {id}"), duration_ms: 100_000 }
}

fn item(id: &str, requested_by: &str) -> QueueItem {
    QueueItem {
        item_id: format!("item-{id}"),
        track: track(id),
        requested_by: requested_by.to_string(),
        added_at_micros: 1,
    }
}

fn resolving(effect: &Effect) -> Outcome {
    match effect {
        Effect::ResolveTrack { bvid, .. } => Outcome::Track(track(bvid)),
        _ => Outcome::Done,
    }
}

fn enqueue(session: &mut Session, id: &str, at: &World) -> Vec<Effect> {
    let effects = session.command(
        NetworkCommand::EnqueueBilibili { bvid: id.to_string(), part: 1, position: None },
        at,
    );
    settle(session, effects, at, resolving)
}

fn with_player(mut at: World, track_id: Option<&str>, position_ms: u64, playing: bool) -> World {
    at.player = Some(PlayerStatus {
        track_id: track_id.map(|id| id.to_string()),
        position_ms,
        playing,
        finished: false,
    });
    at
}

fn with_peers(mut at: World, peers: &[&str]) -> World {
    at.connected = peers.iter().map(|p| p.to_string()).collect();
    at
}

fn queue_of(version: u64, at: &World, items: Vec<QueueItem>) -> QueueState {
    QueueState {
        version,
        updated_at_micros: at.now.wall_micros,
        updated_by: ALICE.to_string(),
        items,
    }
}

fn view(id: &str, playing: bool, position_ms: u64, leader: &str) -> Effect {
    Effect::Ui(UiEvent::Playback(Some(PlaybackView {
        title: format!("song {id}"),
        playing,
        position_ms,
        duration_ms: 100_000,
        leader_peer_id: leader.to_string(),
    })))
}

/// A state of the peer `leader` that has been played for `played` seconds at `at`.
fn state_of(leader: &str, at: &World, version: u64, playing: bool, position_ms: u64) -> PlaybackState {
    PlaybackState {
        session_id: format!("{leader}:1:t"),
        leader_peer_id: leader.to_string(),
        track: Some(track("t")),
        track_requested_by: Some(leader.to_string()),
        state_version: version,
        issued_at_micros: at.now.wall_micros,
        playing,
        position_ms,
        anchor_time_micros: at.now.wall_micros,
        rate_bits: UNIT_RATE_BITS,
    }
}

#[test]
fn a_track_is_queued_prepared_and_played() {
    let mut session = started();
    let at = world(10);
    let now = at.now.wall_micros;
    let effects = session.command(
        NetworkCommand::EnqueueBilibili { bvid: "t".to_string(), part: 2, position: None },
        &at,
    );
    let done = settle(&mut session, effects, &at, resolving);
    let waiting = PlaybackState {
        session_id: format!("{ALICE}:{now}:t"),
        leader_peer_id: ALICE.to_string(),
        track: Some(track("t")),
        track_requested_by: Some(ALICE.to_string()),
        state_version: 1,
        issued_at_micros: now,
        playing: false,
        position_ms: 0,
        anchor_time_micros: now,
        rate_bits: UNIT_RATE_BITS,
    };
    let mut playing = waiting.clone();
    playing.state_version = 2;
    playing.playing = true;
    playing.anchor_time_micros = now + 1_500_000;
    let queued = match &done[2] {
        Effect::Publish(WireMessage::QueueState { state }) => state.items[0].clone(),
        other => panic!("{other:?}"),
    };
    assert!(queued.item_id.starts_with(&format!("q-{ALICE}-{now}-")));
    assert_eq!(queued.track, track("t"));
    assert_eq!((queued.requested_by.as_str(), queued.added_at_micros), (ALICE, now));
    assert_eq!(
        done,
        [
            status("resolving bilibili t part 2"),
            Effect::ResolveTrack { bvid: "t".to_string(), part: 1 },
            Effect::Publish(WireMessage::QueueState {
                state: queue_of(1, &at, vec![queued.clone()]),
            }),
            Effect::Ui(UiEvent::Queue(queue_of(1, &at, vec![queued]))),
            status("queued #1, song t"),
            Effect::Publish(WireMessage::QueueState { state: queue_of(2, &at, vec![]) }),
            Effect::Ui(UiEvent::Queue(queue_of(2, &at, vec![]))),
            view("t", false, 0, ALICE),
            Effect::Publish(WireMessage::PlaybackPrepare {
                state: waiting,
                expected_peers: vec![ALICE.to_string()],
            }),
            status("preparing song t"),
            status("downloading song t"),
            Effect::FetchAudio(track("t")),
            status("local audio ready"),
            Effect::Publish(WireMessage::PlaybackState { state: playing.clone() }),
            view("t", false, 0, ALICE),
            status("starting playback in 1.5s (all peers ready, 1/1)"),
        ]
    );
    assert_eq!(session.playback, Some(playing));
    assert_eq!(session.pending, None);
}

#[test]
fn a_player_is_given_the_audio() {
    let mut session = started();
    let at = with_player(world(10), None, 0, false);
    let done = enqueue(&mut session, "t", &at);
    let commands: Vec<&PlayerCommand> = done
        .iter()
        .filter_map(|effect| match effect {
            Effect::Player(command) => Some(command),
            _ => None,
        })
        .collect();
    let at_micros = at.now.wall_micros;
    assert_eq!(
        commands,
        [
            &PlayerCommand::SetPlaying { playing: false, at_micros },
            &PlayerCommand::Load {
                track_id: "t".to_string(),
                position_ms: 0,
                playing: false,
                at_micros,
            },
        ]
    );
}

#[test]
fn later_tracks_wait_in_the_queue() {
    let mut session = started();
    let at = world(10);
    let _done = enqueue(&mut session, "t", &at);
    let done = enqueue(&mut session, "u", &at);
    assert_eq!(said(&done), ["resolving bilibili u part 1", "queued #1, song u"]);
    let effects = session.command(
        NetworkCommand::EnqueueBilibili { bvid: "v".to_string(), part: 0, position: Some(1) },
        &at,
    );
    let done = settle(&mut session, effects, &at, resolving);
    assert_eq!(said(&done), ["resolving bilibili v part 0", "queued #1, song v"]);
    let titles: Vec<&str> = session.queue.items.iter().map(|i| i.track.title.as_str()).collect();
    assert_eq!(titles, ["song v", "song u"]);
    assert_eq!(session.queue.version, 4);
}

#[test]
fn a_track_that_is_not_found_is_told() {
    let mut session = started();
    let at = world(10);
    let effects = session.command(
        NetworkCommand::EnqueueBilibili { bvid: "t".to_string(), part: 1, position: None },
        &at,
    );
    let done = settle(&mut session, effects, &at, |effect| match effect {
        Effect::ResolveTrack { .. } => Outcome::Failed(failure("gone")),
        _ => Outcome::Done,
    });
    assert_eq!(
        said(&done),
        ["resolving bilibili t part 1", "bilibili resolve failed: gone, at length"]
    );
    assert_eq!(session.queue.version, 0);
}

#[test]
fn a_failed_download_ends_the_session_of_the_one_who_asked() {
    let mut session = started();
    let at = world(10);
    let effects = session.command(
        NetworkCommand::EnqueueBilibili { bvid: "t".to_string(), part: 1, position: None },
        &at,
    );
    let done = settle(&mut session, effects, &at, |effect| match effect {
        Effect::FetchAudio(_) => Outcome::Failed(failure("no network")),
        other => resolving(other),
    });
    assert_eq!(
        done[done.len() - 2..],
        [
            Effect::Publish(WireMessage::PlaybackCancel {
                session_id: format!("{ALICE}:{}:t", at.now.wall_micros),
                leader_peer_id: ALICE.to_string(),
                reason: "local audio download failed".to_string(),
            }),
            Effect::Shutdown(failure("no network")),
        ]
    );
    assert_eq!(session.pending, None);
}

#[test]
fn audio_that_cannot_be_loaded_cancels_the_playback() {
    let mut session = started();
    let at = with_player(world(10), None, 0, false);
    let effects = session.command(
        NetworkCommand::EnqueueBilibili { bvid: "t".to_string(), part: 1, position: None },
        &at,
    );
    let done = settle(&mut session, effects, &at, |effect| match effect {
        Effect::Player(PlayerCommand::Load { .. }) => Outcome::Failed(failure("bad audio")),
        other => resolving(other),
    });
    assert_eq!(
        done.last(),
        Some(&Effect::Publish(WireMessage::PlaybackCancel {
            session_id: format!("{ALICE}:{}:t", at.now.wall_micros),
            leader_peer_id: ALICE.to_string(),
            reason: "local audio failed to load".to_string(),
        }))
    );
    assert_eq!(session.pending, None);
    assert!(session.playback.is_some());
}

#[test]
fn playback_waits_for_the_peers() {
    let mut session = started();
    let at = with_peers(world(10), &[BOB]);
    let done = enqueue(&mut session, "t", &at);
    let asked = done.iter().find_map(|effect| match effect {
        Effect::Publish(WireMessage::PlaybackPrepare { expected_peers, .. }) => {
            Some(expected_peers.clone())
        }
        _ => None,
    });
    assert_eq!(asked, Some(vec![BOB.to_string(), ALICE.to_string()]));
    assert_eq!(done.last(), Some(&status("local audio ready")));
    let session_id = session.pending.as_ref().unwrap().state.session_id.clone();
    let ready = |session_id: &str, peer_id: &str| WireMessage::PlaybackReady {
        session_id: session_id.to_string(),
        peer_id: peer_id.to_string(),
    };
    assert_eq!(hear(&mut session, BOB, ready("other", BOB), &at), []);
    assert_eq!(hear(&mut session, CAROL, ready(&session_id, CAROL), &at), []);
    let done = hear(&mut session, BOB, ready(&session_id, BOB), &at);
    assert_eq!(
        said(&done),
        [
            format!("peer {BOB} ready (2/2)"),
            "starting playback in 1.5s (all peers ready, 2/2)".to_string(),
        ]
    );
    assert_eq!(session.pending, None);
}

#[test]
fn playback_does_not_wait_for_ever() {
    let mut session = started();
    let at = with_peers(world(10), &[BOB]);
    let _done = enqueue(&mut session, "t", &at);
    let at = with_peers(world(21), &[BOB]);
    let _done = tick(&mut session, Tick::Music, &at);
    assert!(session.pending.is_some());
    let at = with_peers(world(22), &[BOB]);
    let done = tick(&mut session, Tick::Music, &at);
    assert_eq!(said(&done), ["starting playback in 1.5s (ready wait timed out, 1/2)"]);
    assert_eq!(
        session.playback.as_ref().unwrap().anchor_time_micros,
        at.now.wall_micros + 1_500_000
    );
}

#[test]
fn playback_does_not_wait_for_a_peer_that_has_gone() {
    let mut session = started();
    let at = with_peers(world(10), &[BOB]);
    let _done = enqueue(&mut session, "t", &at);
    let done = event(
        &mut session,
        NetworkEvent::ConnectionClosed {
            peer: peer(BOB),
            connection: 1,
            relayed: false,
            remote: address("/ip4/10.0.0.1/tcp/1"),
            remaining: 0,
        },
        &world(11),
    );
    assert_eq!(
        said(&done),
        [
            format!("disconnected {BOB}"),
            "starting playback in 1.5s (all peers ready, 1/1)".to_string(),
        ]
    );
}

#[test]
fn the_one_who_asked_holds_and_goes_on() {
    let mut session = started();
    session.playback = Some(state_of(ALICE, &world(10), 1, true, 5_000));
    session.playback_version = 7;
    let mut at = with_player(world(12), Some("t"), 7_000, true);
    at.played_ms = 2_000;
    let done = command(&mut session, NetworkCommand::Pause, &at);
    let mut held = state_of(ALICE, &at, 8, false, 7_000);
    assert_eq!(
        done,
        [
            Effect::Player(PlayerCommand::SetPlaying {
                playing: false,
                at_micros: at.now.wall_micros,
            }),
            view("t", false, 7_000, ALICE),
            Effect::Publish(WireMessage::PlaybackState { state: held.clone() }),
        ]
    );
    assert_eq!(session.playback, Some(held.clone()));
    let at = world(20);
    let done = command(&mut session, NetworkCommand::Resume, &at);
    held = state_of(ALICE, &at, 9, true, 7_000);
    assert_eq!(
        done,
        [
            view("t", true, 7_000, ALICE),
            Effect::Publish(WireMessage::PlaybackState { state: held }),
        ]
    );
}

#[test]
fn a_track_that_is_over_cannot_go_on() {
    let mut session = started();
    session.playback = Some(state_of(ALICE, &world(10), 1, false, 100_000));
    let _done = command(&mut session, NetworkCommand::Resume, &world(11));
    assert!(!session.playback.as_ref().unwrap().playing);
}

#[test]
fn the_one_who_asked_seeks() {
    let mut session = started();
    session.playback = Some(state_of(ALICE, &world(10), 1, true, 5_000));
    let at = with_player(world(12), Some("t"), 7_000, true);
    let effects = session.command(NetworkCommand::Seek(30_000), &at);
    let done = settle(&mut session, effects, &at, |effect| match effect {
        Effect::Player(_) => Outcome::Failed(failure("stuck")),
        _ => Outcome::Done,
    });
    assert_eq!(
        done,
        [
            Effect::Player(PlayerCommand::Seek {
                position_ms: 30_000,
                playing: true,
                at_micros: at.now.wall_micros,
            }),
            status("audio seek failed: stuck, at length"),
            view("t", true, 30_000, ALICE),
            Effect::Publish(WireMessage::PlaybackState {
                state: state_of(ALICE, &at, 1, true, 30_000),
            }),
        ]
    );
    let _done = command(&mut session, NetworkCommand::Seek(u64::MAX), &world(13));
    let ended = session.playback.as_ref().unwrap();
    assert_eq!((ended.position_ms, ended.playing), (100_000, false));
}

#[test]
fn a_player_that_fails_ends_the_session() {
    let mut session = started();
    session.playback = Some(state_of(ALICE, &world(10), 1, true, 5_000));
    let at = with_player(world(12), Some("t"), 7_000, true);
    let effects = session.command(NetworkCommand::Pause, &at);
    let done = settle(&mut session, effects, &at, |effect| match effect {
        Effect::Player(_) => Outcome::Failed(failure("stuck")),
        _ => Outcome::Done,
    });
    assert_eq!(done.last(), Some(&Effect::Shutdown(failure("stuck"))));
}

#[test]
fn controls_do_nothing_if_nothing_is_played() {
    let mut session = started();
    let at = world(10);
    assert_eq!(command(&mut session, NetworkCommand::Pause, &at), []);
    assert_eq!(command(&mut session, NetworkCommand::Resume, &at), []);
    assert_eq!(command(&mut session, NetworkCommand::Seek(5), &at), []);
}

#[test]
fn skipping_goes_to_the_next_item() {
    let mut session = started();
    session.playback = Some(state_of(ALICE, &world(10), 1, true, 5_000));
    let _place = session.queue.enqueue(item("u", BOB), None, 5);
    let at = with_player(world(12), Some("t"), 7_000, true);
    let done = command(&mut session, NetworkCommand::Skip, &at);
    let now = at.now.wall_micros;
    let idle = PlaybackState {
        session_id: format!("{ALICE}:{now}:idle"),
        leader_peer_id: ALICE.to_string(),
        track: None,
        track_requested_by: None,
        state_version: 1,
        issued_at_micros: now,
        playing: false,
        position_ms: 0,
        anchor_time_micros: now,
        rate_bits: UNIT_RATE_BITS,
    };
    assert_eq!(
        done[..6],
        [
            Effect::Player(PlayerCommand::Stop),
            Effect::Publish(WireMessage::PlaybackState { state: idle }),
            Effect::Ui(UiEvent::Playback(None)),
            status("skipped"),
            Effect::Publish(WireMessage::QueueState { state: queue_of(2, &at, vec![]) }),
            Effect::Ui(UiEvent::Queue(queue_of(2, &at, vec![]))),
        ]
    );
    let state = session.playback.as_ref().unwrap();
    assert_eq!(state.track, Some(track("u")));
    assert_eq!(state.track_requested_by, Some(BOB.to_string()));
}

#[test]
fn skipping_cancels_what_waits() {
    let mut session = started();
    let at = with_peers(world(10), &[BOB]);
    let _done = enqueue(&mut session, "t", &at);
    let done = command(&mut session, NetworkCommand::Skip, &at);
    assert_eq!(
        done[0],
        Effect::Publish(WireMessage::PlaybackCancel {
            session_id: format!("{ALICE}:{}:t", at.now.wall_micros),
            leader_peer_id: ALICE.to_string(),
            reason: "skipped".to_string(),
        })
    );
    assert_eq!(said(&done), ["skipped"]);
    assert_eq!(session.pending, None);
}

#[test]
fn the_queue_is_shown() {
    let mut session = started();
    let at = world(10);
    let done = command(&mut session, NetworkCommand::ShowQueue, &at);
    assert_eq!(said(&done), ["now: idle", "queue is empty"]);
    session.playback = Some(state_of(BOB, &at, 1, true, 0));
    for id in ["a", "b", "c", "d", "e"] {
        let _place = session.queue.enqueue(item(id, BOB), None, 5);
    }
    let done = command(&mut session, NetworkCommand::ShowQueue, &at);
    assert!(matches!(&done[0], Effect::Ui(UiEvent::Queue(state)) if state.items.len() == 5));
    assert_eq!(
        said(&done),
        [
            "now: song t",
            "#1 song a (12D3KooW)",
            "#2 song b (12D3KooW)",
            "#3 song c (12D3KooW)",
            "... and 2 more",
        ]
    );
}

#[test]
fn the_player_follows_the_playback() {
    let mut session = started();
    session.playback = Some(state_of(BOB, &world(10), 1, true, 5_000));
    let mut at = with_player(world(12), Some("t"), 1_000, true);
    at.played_ms = 2_000;
    let done = tick(&mut session, Tick::Music, &at);
    assert_eq!(
        done,
        [
            Effect::Player(PlayerCommand::Seek {
                position_ms: 7_000,
                playing: true,
                at_micros: at.now.wall_micros,
            }),
            view("t", true, 7_000, BOB),
        ]
    );
    let effects = session.tick(Tick::Music, &at);
    let done = settle(&mut session, effects, &at, |effect| match effect {
        Effect::Player(_) => Outcome::Failed(failure("stuck")),
        _ => Outcome::Done,
    });
    assert_eq!(said(&done), ["playback sync failed: stuck, at length"]);
    assert_eq!(done.last(), Some(&view("t", true, 7_000, BOB)));
    let mut other = with_player(world(12), Some("x"), 1_000, true);
    other.played_ms = 2_000;
    assert_eq!(tick(&mut session, Tick::Music, &other), [view("t", true, 7_000, BOB)]);
}

#[test]
fn a_leader_goes_on_when_the_track_is_over() {
    let mut session = started();
    session.playback = Some(state_of(ALICE, &world(10), 1, true, 99_000));
    let mut at = world(12);
    at.played_ms = 2_000;
    let done = tick(&mut session, Tick::Music, &at);
    assert_eq!(said(&done), ["track finished"]);
    assert!(session.playback.as_ref().unwrap().track.is_none());

    session.playback = Some(state_of(BOB, &world(10), 1, true, 99_000));
    let done = tick(&mut session, Tick::Music, &at);
    assert_eq!(done, [view("t", false, 100_000, BOB)]);

    session.playback = Some(state_of(ALICE, &world(10), 1, true, 0));
    let mut ended = with_player(world(12), Some("t"), 2_000, true);
    ended.played_ms = 2_000;
    if let Some(player) = ended.player.as_mut() {
        player.finished = true;
    }
    let done = tick(&mut session, Tick::Music, &ended);
    assert_eq!(said(&done), ["track finished"]);
}

#[test]
fn a_tick_goes_by_one_reading_of_the_clock() {
    let mut session = started();
    session.playback = Some(state_of(ALICE, &world(10), 1, true, 99_000));
    let mut early = with_player(world(10), Some("t"), 99_900, true);
    early.now.wall_micros += 900_000;
    early.played_ms = 900;
    let mut late = with_player(world(12), Some("t"), 99_950, true);
    late.played_ms = 2_000;

    let mut effects = session.tick(Tick::Music, &early);
    while effects.is_empty() {
        effects = session.resume(Outcome::Done, &early);
    }
    assert_eq!(
        effects,
        [Effect::Player(PlayerCommand::SetPlaying {
            playing: true,
            at_micros: early.now.wall_micros,
        })]
    );
    assert_eq!(session.resume(Outcome::Done, &late), []);
    assert_eq!(session.player_time(late.now.wall_micros), early.now.wall_micros);
    let shown = session.resume(Outcome::Done, &late);
    assert_eq!(shown, [view("t", false, 100_000, ALICE)]);
    assert!(session.is_idle());
    assert_eq!(session.player_time(late.now.wall_micros), late.now.wall_micros);

    let done = tick(&mut session, Tick::Music, &late);
    assert_eq!(
        done[0],
        Effect::Player(PlayerCommand::SetPlaying {
            playing: false,
            at_micros: late.now.wall_micros,
        })
    );
    assert_eq!(said(&done), ["track finished"]);
}

#[test]
fn another_peers_playback_is_followed_from_where_it_stands() {
    let mut session = started();
    let at = with_player(world(12), Some("t"), 0, true);
    let sent = state_of(BOB, &world(5), 4, true, 5_000);
    let effects = session.network_event(
        NetworkEvent::Message {
            via: peer(BOB),
            source: None,
            message: WireMessage::PlaybackState { state: sent },
        },
        &at,
    );
    assert_eq!(effects, []);
    assert_eq!(session.playback, None);
    let next = session.next_playback().unwrap();
    assert_eq!((next.position_ms, next.anchor_time_micros), (5_000, at.now.wall_micros));
    let mut later = with_player(world(13), Some("t"), 1_000, true);
    later.played_ms = 1_000;
    assert_eq!(
        session.resume(Outcome::Done, &later),
        [Effect::Player(PlayerCommand::Seek {
            position_ms: 6_000,
            playing: true,
            at_micros: later.now.wall_micros,
        })]
    );
    let done = settle(&mut session, vec![], &later, well);
    assert_eq!(done, [view("t", true, 6_000, BOB)]);
    assert_eq!(session.next_playback(), session.playback.as_ref());
}

#[test]
fn an_item_waits_from_the_time_at_which_its_turn_came() {
    let mut session = started();
    let at = world(10);
    let _effects = session.command(
        NetworkCommand::EnqueueBilibili { bvid: "t".to_string(), part: 1, position: None },
        &at,
    );
    let _effects = session.resume(Outcome::Track(track("t")), &at);
    let _effects = session.resume(Outcome::Done, &at);
    assert_eq!(session.resume(Outcome::Done, &at), []);
    assert_eq!(session.playback, None);
    let _effects = session.resume(Outcome::Done, &world(13));
    let state = session.playback.as_ref().unwrap();
    assert_eq!(state.issued_at_micros, at.now.wall_micros);
    assert_eq!(state.anchor_time_micros, at.now.wall_micros);
    assert_eq!(state.session_id, format!("{ALICE}:{}:t", at.now.wall_micros));
}

#[test]
fn a_leader_repeats_where_it_stands() {
    let mut session = started();
    session.playback = Some(state_of(ALICE, &world(10), 4, true, 5_000));
    let mut at = world(12);
    at.played_ms = 2_000;
    let done = tick(&mut session, Tick::MusicSync, &at);
    assert_eq!(
        done,
        [
            Effect::Publish(WireMessage::PlaybackState {
                state: state_of(ALICE, &at, 4, true, 7_000),
            }),
            view("t", true, 7_000, ALICE),
        ]
    );
    session.playback = Some(state_of(BOB, &world(10), 4, true, 5_000));
    assert_eq!(tick(&mut session, Tick::MusicSync, &at), []);
    session.playback = None;
    assert_eq!(tick(&mut session, Tick::MusicSync, &at), []);
}

#[test]
fn another_peers_playback_is_followed() {
    let mut session = started();
    let sent = state_of(BOB, &world(5), 4, true, 5_000);
    let at = with_player(world(12), None, 0, false);
    let done = hear(&mut session, BOB, WireMessage::PlaybackState { state: sent.clone() }, &at);
    let mut local = sent.clone();
    local.anchor_time_micros = at.now.wall_micros;
    assert_eq!(
        done,
        [
            status("downloading song t"),
            Effect::FetchAudio(track("t")),
            Effect::Player(PlayerCommand::Load {
                track_id: "t".to_string(),
                position_ms: 5_000,
                playing: true,
                at_micros: at.now.wall_micros,
            }),
            view("t", true, 5_000, BOB),
        ]
    );
    assert_eq!(session.playback, Some(local));
    assert_eq!(
        hear(&mut session, BOB, WireMessage::PlaybackState { state: sent.clone() }, &at),
        []
    );
    let mut own = sent.clone();
    own.leader_peer_id = ALICE.to_string();
    own.issued_at_micros += 10;
    assert_eq!(hear(&mut session, BOB, WireMessage::PlaybackState { state: own }, &at), []);
}

#[test]
fn a_loaded_player_is_steered_to_another_peers_playback() {
    let mut session = started();
    let sent = state_of(BOB, &world(5), 4, true, 5_000);
    let at = with_player(world(12), Some("t"), 5_100, true);
    let done = hear(&mut session, BOB, WireMessage::PlaybackState { state: sent.clone() }, &at);
    assert_eq!(
        done[0],
        Effect::Player(PlayerCommand::SetPlaying { playing: true, at_micros: at.now.wall_micros })
    );
    let mut later = sent.clone();
    later.issued_at_micros += 1;
    later.position_ms = 50_000;
    let effects = session.network_event(
        NetworkEvent::Message {
            via: peer(BOB),
            source: None,
            message: WireMessage::PlaybackState { state: later },
        },
        &at,
    );
    let done = settle(&mut session, effects, &at, |effect| match effect {
        Effect::Player(_) => Outcome::Failed(failure("stuck")),
        _ => Outcome::Done,
    });
    assert_eq!(said(&done), ["playback sync failed: stuck, at length"]);
    assert_eq!(session.playback.as_ref().unwrap().position_ms, 5_000);
}

#[test]
fn another_peers_silence_is_followed() {
    let mut session = started();
    session.playback = Some(state_of(BOB, &world(5), 4, true, 5_000));
    let mut idle = state_of(BOB, &world(6), 5, false, 0);
    idle.track = None;
    let at = with_player(world(12), Some("t"), 5_100, true);
    let done = hear(&mut session, BOB, WireMessage::PlaybackState { state: idle }, &at);
    assert_eq!(
        done,
        [Effect::Player(PlayerCommand::Stop), Effect::Ui(UiEvent::Playback(None))]
    );
}

#[test]
fn what_waits_is_given_up_for_another_peers_playback() {
    let mut session = started();
    let at = with_peers(world(10), &[BOB]);
    let _done = enqueue(&mut session, "u", &at);
    let at = with_peers(world(12), &[BOB]);
    let sent = state_of(BOB, &at, 4, true, 5_000);
    let effects = session.network_event(
        NetworkEvent::Message {
            via: peer(BOB),
            source: None,
            message: WireMessage::PlaybackState { state: sent },
        },
        &at,
    );
    let done = settle(&mut session, effects, &at, |effect| match effect {
        Effect::Publish(_) => Outcome::Failed(failure("down")),
        _ => Outcome::Done,
    });
    assert_eq!(
        done,
        [
            Effect::Publish(WireMessage::PlaybackCancel {
                session_id: format!("{ALICE}:{}:u", world(10).now.wall_micros),
                leader_peer_id: ALICE.to_string(),
                reason: "superseded by remote playback".to_string(),
            }),
            view("t", true, 5_000, BOB),
        ]
    );
    assert_eq!(session.pending, None);
}

#[test]
fn a_peer_gets_ready_when_asked() {
    let mut session = started();
    let at = with_player(world(12), None, 0, false);
    let now = at.now.wall_micros;
    let sent = state_of(BOB, &world(5), 4, false, 0);
    let prepare = |expected: &[&str]| WireMessage::PlaybackPrepare {
        state: sent.clone(),
        expected_peers: expected.iter().map(|p| p.to_string()).collect(),
    };
    let done = hear(&mut session, BOB, prepare(&[BOB, CAROL]), &at);
    assert_eq!(done, [status("ignored playback prepare for another peer set")]);
    let done = hear(&mut session, BOB, prepare(&[BOB, ALICE]), &at);
    assert_eq!(
        done,
        [
            Effect::Player(PlayerCommand::SetPlaying { playing: false, at_micros: now }),
            view("t", false, 0, BOB),
            status("preparing song t"),
            status("downloading song t"),
            Effect::FetchAudio(track("t")),
            Effect::Player(PlayerCommand::Load {
                track_id: "t".to_string(),
                position_ms: 0,
                playing: false,
                at_micros: now,
            }),
            status("local audio ready"),
            Effect::Publish(WireMessage::PlaybackReady {
                session_id: sent.session_id.clone(),
                peer_id: ALICE.to_string(),
            }),
        ]
    );
    assert_eq!(session.playback.as_ref().unwrap().anchor_time_micros, now);
}

#[test]
fn a_peer_without_audio_is_ready_at_once() {
    let mut session = started();
    let at = world(12);
    let sent = state_of(BOB, &world(5), 4, false, 0);
    let message = WireMessage::PlaybackPrepare { state: sent, expected_peers: vec![] };
    let effects = session.network_event(
        NetworkEvent::Message { via: peer(BOB), source: None, message },
        &at,
    );
    let done = settle(&mut session, effects, &at, |effect| match effect {
        Effect::Publish(_) => Outcome::Failed(failure("down")),
        _ => Outcome::Done,
    });
    assert_eq!(
        said(&done),
        [
            "preparing song t",
            "audio output unavailable; confirming prepare",
            "playback ready failed: down",
        ]
    );
}

#[test]
fn a_peer_that_cannot_get_ready_says_so() {
    let mut session = started();
    let at = with_player(world(12), None, 0, false);
    let sent = state_of(BOB, &world(5), 4, false, 0);
    let message = WireMessage::PlaybackPrepare { state: sent, expected_peers: vec![] };
    let effects = session.network_event(
        NetworkEvent::Message { via: peer(BOB), source: None, message },
        &at,
    );
    let done = settle(&mut session, effects, &at, |effect| match effect {
        Effect::FetchAudio(_) => Outcome::Failed(failure("gone")),
        _ => Outcome::Done,
    });
    assert_eq!(
        said(&done),
        ["preparing song t", "downloading song t", "playback prepare failed: gone, at length"]
    );
    assert!(session.is_idle());
}

#[test]
fn a_canceled_playback_is_given_up() {
    let mut session = started();
    session.playback = Some(state_of(BOB, &world(5), 4, true, 0));
    let at = with_player(world(12), Some("t"), 0, true);
    let cancel = |session_id: &str, leader: &str| WireMessage::PlaybackCancel {
        session_id: session_id.to_string(),
        leader_peer_id: leader.to_string(),
        reason: "why not".to_string(),
    };
    let id = format!("{BOB}:1:t");
    assert_eq!(hear(&mut session, BOB, cancel("other", BOB), &at), []);
    assert_eq!(hear(&mut session, BOB, cancel(&id, ALICE), &at), []);
    let done = hear(&mut session, BOB, cancel(&id, BOB), &at);
    assert_eq!(
        done,
        [
            Effect::Player(PlayerCommand::Stop),
            Effect::Ui(UiEvent::Playback(None)),
            status("playback canceled: why not"),
        ]
    );
    assert_eq!(session.playback, None);
}

#[test]
fn queues_are_exchanged() {
    let mut session = started();
    let at = world(12);
    let newer = QueueState {
        version: 3,
        updated_at_micros: 50,
        updated_by: BOB.to_string(),
        items: vec![item("a", BOB)],
    };
    let summary = WireMessage::QueueSummary {
        peer_id: BOB.to_string(),
        version: 3,
        updated_at_micros: 50,
        item_count: 1,
    };
    let done = hear(&mut session, BOB, summary.clone(), &at);
    assert_eq!(
        done,
        [
            Effect::Publish(WireMessage::QueueRequest {
                requester: ALICE.to_string(),
                target: BOB.to_string(),
                known_version: 0,
                known_updated_at_micros: 0,
            }),
            status(&format!("requesting queue from {BOB}")),
        ]
    );
    assert_eq!(hear(&mut session, BOB, summary.clone(), &world(16)), []);
    assert_eq!(hear(&mut session, BOB, summary.clone(), &world(17)).len(), 2);
    let response = |target: &str| WireMessage::QueueResponse {
        target: target.to_string(),
        state: newer.clone(),
    };
    assert_eq!(hear(&mut session, BOB, response(CAROL), &at), []);
    let done = hear(&mut session, BOB, response(ALICE), &at);
    assert_eq!(
        done,
        [
            Effect::Ui(UiEvent::Queue(newer.clone())),
            status("synced queue by 12D3KooW"),
            status("now: idle"),
            status("#1 song a (12D3KooW)"),
        ]
    );
    assert_eq!(
        hear(&mut session, BOB, WireMessage::QueueState { state: newer.clone() }, &at),
        []
    );
    assert_eq!(hear(&mut session, BOB, summary, &world(99)), []);
    let mut newest = newer.clone();
    newest.version = 4;
    newest.items.clear();
    let done = hear(&mut session, BOB, WireMessage::QueueState { state: newest }, &at);
    assert_eq!(said(&done), ["queue updated by 12D3KooW", "now: idle", "queue is empty"]);
}

#[test]
fn a_peer_with_an_older_queue_is_answered() {
    let mut session = started();
    let at = world(12);
    let _place = session.queue.enqueue(item("a", ALICE), None, 50);
    let request = |target: &str, version: u64, updated: i64| WireMessage::QueueRequest {
        requester: BOB.to_string(),
        target: target.to_string(),
        known_version: version,
        known_updated_at_micros: updated,
    };
    assert_eq!(hear(&mut session, BOB, request(CAROL, 0, 0), &at), []);
    assert_eq!(hear(&mut session, BOB, request(ALICE, 1, 50), &at), []);
    let done = hear(&mut session, BOB, request(ALICE, 0, 50), &at);
    assert_eq!(
        done,
        [
            Effect::Publish(WireMessage::QueueResponse {
                target: BOB.to_string(),
                state: QueueState {
                    version: 1,
                    updated_at_micros: 50,
                    updated_by: ALICE.to_string(),
                    items: vec![item("a", ALICE)],
                },
            }),
            status("sent 1 queue item(s)"),
        ]
    );
    for (message, text) in [
        (request(ALICE, 0, 0), "queue response failed: down"),
        (
            WireMessage::QueueSummary {
                peer_id: BOB.to_string(),
                version: 1,
                updated_at_micros: 99,
                item_count: 0,
            },
            "queue request failed: down",
        ),
    ] {
        let effects = session.network_event(
            NetworkEvent::Message { via: peer(BOB), source: None, message },
            &at,
        );
        let done = settle(&mut session, effects, &at, |effect| match effect {
            Effect::Publish(_) => Outcome::Failed(failure("down")),
            _ => Outcome::Done,
        });
        assert_eq!(said(&done), [text]);
    }
}

#[test]
fn a_new_peer_is_sent_what_is_played() {
    let mut session = started();
    let at = with_peers(world(12), &[BOB]);
    let _place = session.queue.enqueue(item("a", ALICE), None, 50);
    session.playback = Some(state_of(ALICE, &world(10), 4, true, 0));
    let done = connect(&mut session, BOB, 1, false, &at);
    assert_eq!(
        done[done.len() - 2..],
        [
            Effect::Publish(WireMessage::QueueState {
                state: QueueState {
                    version: 1,
                    updated_at_micros: 50,
                    updated_by: ALICE.to_string(),
                    items: vec![item("a", ALICE)],
                },
            }),
            Effect::Publish(WireMessage::PlaybackState {
                state: state_of(ALICE, &world(10), 4, true, 0),
            }),
        ]
    );
    let effects = session.network_event(
        NetworkEvent::ConnectionEstablished {
            peer: peer(CAROL),
            connection: 2,
            relayed: false,
            remote: address("/ip4/10.0.0.1/tcp/1"),
        },
        &at,
    );
    let done = settle(&mut session, effects, &at, |effect| match effect {
        Effect::Publish(_) => Outcome::Failed(failure("down")),
        _ => Outcome::Done,
    });
    assert_eq!(
        said(&done)[2..],
        ["sync summary failed: down", "music snapshot failed: down"]
    );
}
