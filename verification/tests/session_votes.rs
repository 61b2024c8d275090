use link_ear::address::Address;
use link_ear::effect::{Effect, Failure, NetworkEvent, Outcome, Tick, World};
use link_ear::model::{
    NetworkCommand, PlaybackState, QueueItem, QueueState, Track, UiEvent, VoteAction, VoteProposal,
    VoteView, WireMessage,
};
use link_ear::peer::{new_vote_id, parse_peer_id, PeerId};
use link_ear::playback::{PlayerCommand, PlayerStatus, UNIT_RATE_BITS};
use link_ear::session::startup::BackendConfig;
use link_ear::session::Session;
use link_ear::time::Moment;

const ALICE: &str = "12D3KooWCKULvuTT1ZDPW8zZpd215MT1QzoNeTvFbPvzhhGHmyDf";
const BOB: &str = "12D3KooWEpUHE3gptbCmfVFLxg5zqk1ESsapZpKbGVbEen4EVjVL";
const CAROL: &str = "12D3KooWHKUDXBvCmdC9pqW86j9zc8ZTUkNGU4zZTUVyV8MuKHD1";
const JOINED: i64 = 1_700_000_000_000_000;
const SECOND: u64 = 1_000_000_000;

fn peer(text: &str) -> PeerId {
    parse_peer_id(text).unwrap()
}

fn address(text: &str) -> Address {
    Address::parse(text).unwrap()
}

fn config() -> BackendConfig {
    BackendConfig {
        name: "ann".to_string(),
        topic: "room".to_string(),
        listen: vec![address("/ip4/127.0.0.1/tcp/1")],
        peer: vec![],
        relay: vec![],
        no_mdns: true,
    }
}

fn world(seconds: u64) -> World {
    World {
        now: Moment {
            wall_micros: JOINED + seconds as i64 * 1_000_000,
            mono_nanos: seconds * SECOND,
        },
        played_ms: 0,
        connected: vec![],
        external_address: false,
        player: None,
    }
}

fn failure(text: &str) -> Failure {
    Failure { brief: text.to_string(), full: format!("{text}, at length") }
}

fn settle(
    session: &mut Session,
    first: Vec<Effect>,
    world: &World,
    mut answer: impl FnMut(&Effect) -> Outcome,
) -> Vec<Effect> {
    let mut done = Vec::new();
    let mut effects = first;
    loop {
        let mut outcome = Outcome::Done;
        for effect in effects {
            outcome = answer(&effect);
            done.push(effect);
            if matches!(outcome, Outcome::Failed(_)) {
                break;
            }
        }
        let failed = matches!(outcome, Outcome::Failed(_));
        if session.is_idle() && !failed {
            return done;
        }
        effects = session.resume(outcome, world);
    }
}

fn well(_effect: &Effect) -> Outcome {
    Outcome::Done
}

fn started() -> Session {
    let (mut session, effects) = Session::start(config(), peer(ALICE), JOINED, None);
    let _done = settle(&mut session, effects, &world(0), well);
    session
}

fn status(text: &str) -> Effect {
    Effect::Ui(UiEvent::Status(text.to_string()))
}

fn said(done: &[Effect]) -> Vec<String> {
    done.iter()
        .filter_map(|effect| match effect {
            Effect::Ui(UiEvent::Status(text)) => Some(text.clone()),
            _ => None,
        })
        .collect()
}

fn command(session: &mut Session, command: NetworkCommand, at: &World) -> Vec<Effect> {
    let effects = session.command(command, at);
    settle(session, effects, at, well)
}

fn event(session: &mut Session, event: NetworkEvent, at: &World) -> Vec<Effect> {
    let effects = session.network_event(event, at);
    settle(session, effects, at, well)
}

fn hear(session: &mut Session, from: &str, message: WireMessage, at: &World) -> Vec<Effect> {
    event(
        session,
        NetworkEvent::Message { via: peer(from), source: Some(peer(from)), message },
        at,
    )
}

fn tick(session: &mut Session, tick: Tick, at: &World) -> Vec<Effect> {
    let effects = session.tick(tick, at);
    settle(session, effects, at, well)
}

fn with_peers(mut at: World, peers: &[&str]) -> World {
    at.connected = peers.iter().map(|p| p.to_string()).collect();
    at
}

fn with_player(mut at: World) -> World {
    at.player = Some(PlayerStatus {
        track_id: Some("t".to_string()),
        position_ms: 0,
        playing: true,
        finished: false,
    });
    at
}

fn item(id: &str, requested_by: &str) -> QueueItem {
    QueueItem {
        item_id: format!("item-{id}"),
        track: Track {
            track_id: id.to_string(),
            title: format!("song {id}"),
            duration_ms: 100_000,
        },
        requested_by: requested_by.to_string(),
        added_at_micros: 1,
    }
}

fn played_for(requester: &str, playing: bool, position_ms: u64) -> PlaybackState {
    PlaybackState {
        session_id: "the session".to_string(),
        leader_peer_id: BOB.to_string(),
        track: Some(item("t", requester).track),
        track_requested_by: Some(requester.to_string()),
        state_version: 1,
        issued_at_micros: JOINED,
        playing,
        position_ms,
        anchor_time_micros: JOINED,
        rate_bits: UNIT_RATE_BITS,
    }
}

fn proposal(action: VoteAction) -> VoteProposal {
    VoteProposal {
        vote_id: "v1".to_string(),
        proposer: BOB.to_string(),
        action,
        queue_version: 0,
        playback_session_id: Some("the session".to_string()),
        created_at_micros: JOINED,
    }
}

fn proposed(action: VoteAction) -> WireMessage {
    WireMessage::VoteProposal { proposal: proposal(action) }
}

fn ballot(vote_id: &str, from: &str, approve: bool) -> WireMessage {
    WireMessage::VoteBallot { vote_id: vote_id.to_string(), peer_id: from.to_string(), approve }
}

fn names(session: &Session) -> Vec<&str> {
    session.queue.items.iter().map(|i| i.item_id.as_str()).collect()
}

#[test]
fn a_lone_peer_decides() {
    let mut session = started();
    let at = world(10);
    let _place = session.queue.enqueue(item("a", BOB), None, 5);
    let _place = session.queue.enqueue(item("b", BOB), None, 5);
    let done = command(&mut session, NetworkCommand::MoveQueueItem { from: 1, to: 2 }, &at);
    let suggested = match &done[0] {
        Effect::Publish(WireMessage::VoteProposal { proposal }) => proposal.clone(),
        other => panic!("{other:?}"),
    };
    assert!(suggested.vote_id.starts_with(&format!("v-{ALICE}-{}-", at.now.wall_micros)));
    assert_eq!(
        suggested,
        VoteProposal {
            vote_id: suggested.vote_id.clone(),
            proposer: ALICE.to_string(),
            action: VoteAction::Move { item_id: "item-a".to_string(), to_index: 1 },
            queue_version: 2,
            playback_session_id: None,
            created_at_micros: at.now.wall_micros,
        }
    );
    assert_eq!(done[1], Effect::Publish(ballot(&suggested.vote_id, ALICE, true)));
    assert_eq!(
        done[2],
        Effect::Ui(UiEvent::Vote(Some(VoteView {
            vote_id: suggested.vote_id.clone(),
            proposer: ALICE.to_string(),
            action_label: "move queue item #1 to #2".to_string(),
            approvals: 1,
            rejections: 0,
            threshold: 1,
        })))
    );
    assert_eq!(
        said(&done),
        [
            "started vote: move queue item #1 to #2 (1/1)",
            "vote passed: move queue item #1 to #2",
            "moved queue item to #2",
        ]
    );
    assert!(done.contains(&Effect::Ui(UiEvent::Vote(None))));
    assert_eq!(names(&session), ["item-b", "item-a"]);
    assert_eq!(session.queue.version, 3);
    assert_eq!(session.vote, None);
}

#[test]
fn one_vote_is_open_at_a_time() {
    let mut session = started();
    let at = with_peers(world(10), &[BOB]);
    let _place = session.queue.enqueue(item("a", BOB), None, 5);
    let _done = command(&mut session, NetworkCommand::RemoveQueueItem(1), &at);
    let done = command(&mut session, NetworkCommand::RemoveQueueItem(1), &at);
    assert_eq!(done, [status("another vote is already active")]);
    let done = hear(&mut session, BOB, proposed(VoteAction::Pause), &at);
    assert_eq!(done, [status("ignored vote v1; another vote is active")]);
}

#[test]
fn own_items_are_removed_without_a_vote() {
    let mut session = started();
    let at = with_peers(world(10), &[BOB]);
    let _place = session.queue.enqueue(item("a", ALICE), None, 5);
    let done = command(&mut session, NetworkCommand::RemoveQueueItem(1), &at);
    assert_eq!(said(&done), ["removed #1: song a"]);
    assert_eq!(done.len(), 3);
    assert!(session.queue.items.is_empty());
    for index in [0, 1] {
        let done = command(&mut session, NetworkCommand::RemoveQueueItem(index), &at);
        assert_eq!(done, [status(&format!("queue item #{index} does not exist"))]);
    }
    let done = command(&mut session, NetworkCommand::MoveQueueItem { from: 3, to: 1 }, &at);
    assert_eq!(done, [status("queue item #3 does not exist")]);
}

#[test]
fn a_vote_passes_with_more_than_half() {
    let mut session = started();
    let at = with_peers(world(10), &[BOB, CAROL]);
    let _place = session.queue.enqueue(item("a", BOB), None, 5);
    let done = command(&mut session, NetworkCommand::RemoveQueueItem(1), &at);
    assert_eq!(said(&done), ["started vote: remove queue item #1 (1/2)"]);
    let id = session.vote.as_ref().unwrap().proposal.vote_id.clone();
    let done = hear(&mut session, BOB, ballot(&id, BOB, false), &at);
    assert_eq!(said(&done), [format!("vote {id}: no from 12D3KooW (1/2)")]);
    assert_eq!(hear(&mut session, CAROL, ballot("other", CAROL, true), &at), []);
    let done = hear(&mut session, CAROL, ballot(&id, CAROL, true), &at);
    assert_eq!(
        said(&done),
        [
            format!("vote {id}: yes from 12D3KooW (2/2)"),
            "vote passed: remove queue item #1".to_string(),
            "removed song a".to_string(),
        ]
    );
    assert!(session.queue.items.is_empty());
}

#[test]
fn a_vote_on_a_changed_queue_is_discarded() {
    let mut session = started();
    let at = with_peers(world(10), &[BOB, CAROL]);
    let _place = session.queue.enqueue(item("a", BOB), None, 5);
    let _done = command(&mut session, NetworkCommand::RemoveQueueItem(1), &at);
    let _place = session.queue.enqueue(item("b", BOB), None, 6);
    let id = session.vote.as_ref().unwrap().proposal.vote_id.clone();
    let done = hear(&mut session, CAROL, ballot(&id, CAROL, true), &at);
    assert_eq!(
        said(&done)[1..],
        ["vote passed: remove queue item #1", "vote discarded: queue changed during vote"]
    );
    assert_eq!(names(&session), ["item-a", "item-b"]);
}

#[test]
fn a_proposal_of_a_peer_is_voted_on() {
    let mut session = started();
    session.playback = Some(played_for(ALICE, true, 5_000));
    let at = with_peers(world(10), &[BOB]);
    let done = hear(&mut session, BOB, proposed(VoteAction::Pause), &at);
    assert_eq!(
        done,
        [
            Effect::Ui(UiEvent::Vote(Some(VoteView {
                vote_id: "v1".to_string(),
                proposer: BOB.to_string(),
                action_label: "pause playback".to_string(),
                approvals: 1,
                rejections: 0,
                threshold: 2,
            }))),
            status("vote requested by 12D3KooW: pause playback (/vote yes|no)"),
        ]
    );
    let done = command(&mut session, NetworkCommand::Vote(false), &at);
    assert_eq!(done[0], Effect::Publish(ballot("v1", ALICE, false)));
    assert_eq!(said(&done), ["voted no on v1"]);
    let mut at = with_player(with_peers(world(12), &[BOB]));
    at.played_ms = 12_000;
    let done = command(&mut session, NetworkCommand::Vote(true), &at);
    assert_eq!(said(&done), ["voted yes on v1", "vote passed: pause playback"]);
    let held = session.playback.clone().unwrap();
    assert_eq!((held.playing, held.position_ms), (false, 17_000));
    assert_eq!(held.leader_peer_id, ALICE);
    assert_eq!(held.anchor_time_micros, at.now.wall_micros);
    assert_eq!(
        done[done.len() - 3..done.len() - 1],
        [
            Effect::Player(PlayerCommand::SetPlaying {
                playing: false,
                at_micros: at.now.wall_micros,
            }),
            Effect::Publish(WireMessage::PlaybackState { state: held }),
        ]
    );
}

#[test]
fn own_proposals_are_not_heard_twice() {
    let mut session = started();
    let at = with_peers(world(10), &[BOB]);
    let mut own = proposal(VoteAction::Pause);
    own.proposer = ALICE.to_string();
    assert_eq!(
        hear(&mut session, BOB, WireMessage::VoteProposal { proposal: own }, &at),
        []
    );
    assert_eq!(session.vote, None);
}

#[test]
fn only_the_one_who_may_carries_out_a_vote() {
    let mut session = started();
    session.playback = Some(played_for(CAROL, true, 5_000));
    let at = with_peers(world(10), &[BOB]);
    let _done = hear(&mut session, BOB, proposed(VoteAction::Seek { position_ms: 9 }), &at);
    let done = command(&mut session, NetworkCommand::Vote(true), &at);
    assert_eq!(said(&done), ["voted yes on v1", "vote passed: seek to 0:00"]);
    assert_eq!(session.playback, Some(played_for(CAROL, true, 5_000)));
}

#[test]
fn votes_to_resume_and_to_seek_are_carried_out() {
    let mut session = started();
    session.playback = Some(played_for(ALICE, false, 5_000));
    let at = with_peers(world(10), &[BOB]);
    let _done = hear(&mut session, BOB, proposed(VoteAction::Resume), &at);
    let done = command(&mut session, NetworkCommand::Vote(true), &at);
    assert_eq!(said(&done), ["voted yes on v1", "vote passed: resume playback"]);
    assert!(session.playback.as_ref().unwrap().playing);
    let _done = hear(&mut session, BOB, proposed(VoteAction::Seek { position_ms: 60_000 }), &at);
    let _done = command(&mut session, NetworkCommand::Vote(true), &at);
    let state = session.playback.as_ref().unwrap();
    assert_eq!((state.position_ms, state.playing), (60_000, true));
    let _done = hear(&mut session, BOB, proposed(VoteAction::Skip), &at);
    let done = command(&mut session, NetworkCommand::Vote(true), &at);
    assert_eq!(said(&done), ["voted yes on v1", "vote passed: skip current track", "skipped"]);
}

#[test]
fn controls_of_another_ones_track_are_voted_on() {
    let at = with_peers(world(10), &[BOB]);
    for (asked, text) in [
        (NetworkCommand::Pause, "started vote: pause playback (1/2)"),
        (NetworkCommand::Resume, "started vote: resume playback (1/2)"),
        (NetworkCommand::Seek(61_000), "started vote: seek to 1:01 (1/2)"),
        (NetworkCommand::Skip, "started vote: skip current track (1/2)"),
    ] {
        let mut session = started();
        session.playback = Some(played_for(BOB, true, 5_000));
        let done = command(&mut session, asked, &at);
        assert_eq!(said(&done), [text]);
        assert_eq!(
            session.vote.as_ref().unwrap().proposal.playback_session_id,
            Some("the session".to_string())
        );
    }
}

#[test]
fn only_a_proposal_takes_a_number() {
    let mut session = started();
    let at = with_peers(world(10), &[BOB]);
    let number = session.nonce_seq;
    for asked in [
        NetworkCommand::Pause,
        NetworkCommand::Resume,
        NetworkCommand::Seek(1_000),
        NetworkCommand::RemoveQueueItem(1),
        NetworkCommand::MoveQueueItem { from: 1, to: 2 },
    ] {
        let _done = command(&mut session, asked, &at);
        assert_eq!(session.nonce_seq, number);
    }
    session.playback = Some(played_for(ALICE, true, 5_000));
    let _place = session.queue.enqueue(item("a", ALICE), None, 5);
    for asked in [
        NetworkCommand::Pause,
        NetworkCommand::Resume,
        NetworkCommand::Seek(1_000),
        NetworkCommand::RemoveQueueItem(1),
    ] {
        let done = command(&mut session, asked, &at);
        assert!(!done.is_empty());
        assert_eq!(session.nonce_seq, number);
    }
    assert!(session.queue.items.is_empty());

    session.playback = Some(played_for(BOB, true, 5_000));
    let _done = command(&mut session, NetworkCommand::Pause, &at);
    assert_eq!(session.nonce_seq, number + 1);
    let first = session.vote.as_ref().unwrap().proposal.vote_id.clone();
    assert_eq!(first, new_vote_id(&peer(ALICE), at.now.wall_micros, number));
    for asked in [NetworkCommand::Pause, NetworkCommand::Skip] {
        let done = command(&mut session, asked, &at);
        assert_eq!(done, [status("another vote is already active")]);
        assert_eq!(session.nonce_seq, number + 1);
    }
    session.vote = None;
    let _done = command(&mut session, NetworkCommand::Skip, &at);
    assert_eq!(session.nonce_seq, number + 2);
    let second = session.vote.as_ref().unwrap().proposal.vote_id.clone();
    assert_eq!(second, new_vote_id(&peer(ALICE), at.now.wall_micros, number + 1));
}

#[test]
fn a_full_queue_version_stops_only_changes_of_the_queue() {
    let mut session = started();
    let at = with_peers(world(10), &[BOB]);
    session.playback = Some(played_for(ALICE, true, 5_000));
    let state = QueueState {
        version: u64::MAX,
        updated_at_micros: 9,
        updated_by: BOB.to_string(),
        items: vec![item("a", ALICE), item("b", BOB)],
    };
    let _done = hear(&mut session, BOB, WireMessage::QueueState { state }, &at);
    assert_eq!(session.queue.version, u64::MAX);
    assert!(!session.can_command(&NetworkCommand::RemoveQueueItem(1)));
    for asked in [
        NetworkCommand::Chat("hi".to_string()),
        NetworkCommand::ShowQueue,
        NetworkCommand::Pause,
        NetworkCommand::Seek(2_000),
        NetworkCommand::RemoveQueueItem(3),
        NetworkCommand::RemoveQueueItem(2),
        NetworkCommand::MoveQueueItem { from: 1, to: 2 },
    ] {
        assert!(session.can_command(&asked));
        let done = command(&mut session, asked, &at);
        assert!(!done.is_empty());
    }
    let _done = tick(&mut session, Tick::Music, &at);
    assert_eq!(names(&session), ["item-a", "item-b"]);

    let asked = NetworkCommand::EnqueueBilibili { bvid: "b".to_string(), part: 1, position: None };
    let _effects = session.command(asked, &at);
    assert!(!session.can_resume(&Outcome::Track(item("c", ALICE).track), &at));
    assert!(session.can_resume(&Outcome::Done, &at));
    assert!(session.can_resume(&Outcome::Failed(failure("not found")), &at));
    session.queue.version = u64::MAX - 1;
    assert!(session.can_resume(&Outcome::Track(item("c", ALICE).track), &at));
}

#[test]
fn a_full_playback_version_stops_only_changes_of_the_playback() {
    let mut session = started();
    session.playback_version = u64::MAX;
    let controls = [NetworkCommand::Pause, NetworkCommand::Resume, NetworkCommand::Seek(1)];
    for asked in &controls {
        assert!(session.can_command(asked));
    }
    session.playback = Some(played_for(BOB, true, 5_000));
    for asked in &controls {
        assert!(session.can_command(asked));
    }
    session.playback = Some(played_for(ALICE, true, 5_000));
    for asked in &controls {
        assert!(!session.can_command(asked));
    }
    assert!(session.can_command(&NetworkCommand::Skip));
    assert!(!session.can_execute(&VoteAction::Pause));
    assert!(session.can_execute(&VoteAction::Skip));
    assert!(session.can_execute(&VoteAction::Remove { item_id: "item-a".to_string() }));
    session.playback_version = u64::MAX - 1;
    for asked in &controls {
        assert!(session.can_command(asked));
    }
}

#[test]
fn without_a_vote_there_is_nothing_to_vote_on() {
    let mut session = started();
    let done = command(&mut session, NetworkCommand::Vote(true), &world(10));
    assert_eq!(done, [status("no active vote")]);
}

#[test]
fn a_vote_times_out() {
    let mut session = started();
    let at = with_peers(world(10), &[BOB]);
    let _done = hear(&mut session, BOB, proposed(VoteAction::Pause), &at);
    assert_eq!(tick(&mut session, Tick::Music, &with_peers(world(29), &[BOB])), []);
    let done = tick(&mut session, Tick::Music, &with_peers(world(30), &[BOB]));
    assert_eq!(done, [status("vote v1 timed out"), Effect::Ui(UiEvent::Vote(None))]);
    assert_eq!(session.vote, None);
}

#[test]
fn a_vote_passes_when_peers_go() {
    let mut session = started();
    let at = with_peers(world(10), &[BOB]);
    session.playback = None;
    let mut lasting = proposal(VoteAction::Skip);
    lasting.playback_session_id = None;
    let _done = hear(&mut session, BOB, WireMessage::VoteProposal { proposal: lasting }, &at);
    let done = tick(&mut session, Tick::Music, &world(11));
    assert_eq!(said(&done), ["vote passed: skip current track"]);
}

#[test]
fn failures_of_a_vote_are_told_or_end_the_session() {
    let failing = |effect: &Effect| match effect {
        Effect::Player(_) => Outcome::Failed(failure("stuck")),
        _ => Outcome::Done,
    };
    let at = with_player(with_peers(world(10), &[BOB]));
    let mut session = started();
    session.playback = Some(played_for(ALICE, true, 5_000));
    let _done = hear(&mut session, BOB, proposed(VoteAction::Pause), &at);
    let effects = session.network_event(
        NetworkEvent::Message {
            via: peer(BOB),
            source: None,
            message: ballot("v1", CAROL, true),
        },
        &at,
    );
    let done = settle(&mut session, effects, &at, failing);
    assert_eq!(said(&done).last().unwrap(), "vote execution failed: stuck, at length");

    let mut session = started();
    session.playback = Some(played_for(ALICE, true, 5_000));
    let _done = hear(&mut session, BOB, proposed(VoteAction::Pause), &at);
    let effects = session.command(NetworkCommand::Vote(true), &at);
    let done = settle(&mut session, effects, &at, failing);
    assert_eq!(done.last(), Some(&Effect::Shutdown(failure("stuck"))));
}

#[test]
fn a_proposal_that_cannot_be_sent_is_not_open() {
    let mut session = started();
    let at = with_peers(world(10), &[BOB]);
    let effects = session.command(NetworkCommand::Skip, &at);
    let done = settle(&mut session, effects, &at, |effect| match effect {
        Effect::Publish(_) => Outcome::Failed(failure("down")),
        _ => Outcome::Done,
    });
    assert_eq!(done.last(), Some(&Effect::Shutdown(failure("down"))));
    assert_eq!(session.vote, None);
}
