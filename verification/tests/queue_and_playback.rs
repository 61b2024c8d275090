use link_ear::collections::TextSet;
use link_ear::model::{PlaybackState, PlaybackView, QueueItem, QueueState, Track};
use link_ear::playback::{
    can_control_playback, can_play_at_position, clamp_playback_position_ms, has_finished,
    new_idle_state, new_waiting_state, normalize_remote_playback_state, playback_duration_ms,
    playback_elapsed_micros, playback_has_track, playback_order_key, playback_position_ms,
    playback_should_be_audible, repeat_state, should_apply_playback_state, start_state, steer,
    sync_loaded_player_to_state, view_playback, PendingPlayback, PlayerCommand, PlayerStatus,
    UNIT_RATE_BITS,
};
use link_ear::queue::{
    build_queue_state, find_item, is_queue_state_newer, queue_item_at, should_apply_queue_state,
    MusicQueue,
};

const ALICE: &str = "12D3KooWCKULvuTT1ZDPW8zZpd215MT1QzoNeTvFbPvzhhGHmyDf";
const BOB: &str = "12D3KooWEpUHE3gptbCmfVFLxg5zqk1ESsapZpKbGVbEen4EVjVL";

fn track(id: &str) -> Track {
    Track { track_id: id.to_string(), title: format!("title {id}"), duration_ms: 10_000 }
}

fn item(id: &str) -> QueueItem {
    QueueItem {
        item_id: id.to_string(),
        track: track(id),
        requested_by: ALICE.to_string(),
        added_at_micros: 1,
    }
}

fn queue(names: &[&str]) -> MusicQueue {
    let mut queue = MusicQueue::new();
    for name in names {
        let _place = queue.enqueue(item(name), None, 10);
    }
    queue
}

fn names(queue: &MusicQueue) -> Vec<String> {
    queue.items.iter().map(|i| i.item_id.clone()).collect()
}

fn state(playing: bool, position_ms: u64, anchor: i64) -> PlaybackState {
    PlaybackState {
        session_id: "s".to_string(),
        leader_peer_id: ALICE.to_string(),
        track: Some(track("t")),
        track_requested_by: Some(BOB.to_string()),
        state_version: 3,
        issued_at_micros: 100,
        playing,
        position_ms,
        anchor_time_micros: anchor,
        rate_bits: UNIT_RATE_BITS,
    }
}

fn player(position_ms: u64, playing: bool) -> PlayerStatus {
    PlayerStatus { track_id: Some("t".to_string()), position_ms, playing, finished: false }
}

#[test]
fn later_queues_are_newer() {
    assert!(is_queue_state_newer(1, 11, 9, 10));
    assert!(!is_queue_state_newer(9, 10, 1, 11));
    assert!(is_queue_state_newer(2, 10, 1, 10));
    assert!(!is_queue_state_newer(1, 10, 1, 10));
}

#[test]
fn items_are_found_by_position_and_identifier() {
    let q = queue(&["a", "b"]);
    assert!(queue_item_at(&q.items, 0).is_none());
    assert_eq!(queue_item_at(&q.items, 1).unwrap().item_id, "a");
    assert_eq!(queue_item_at(&q.items, 2).unwrap().item_id, "b");
    assert!(queue_item_at(&q.items, 3).is_none());
    assert_eq!(find_item(&q.items, "b"), Some(1));
    assert_eq!(find_item(&q.items, "c"), None);
}

#[test]
fn items_are_queued_where_asked() {
    let mut q = queue(&["a", "b"]);
    assert_eq!(q.enqueue(item("c"), Some(1), 20), 0);
    assert_eq!(q.enqueue(item("d"), Some(0), 20), 0);
    assert_eq!(q.enqueue(item("e"), Some(3), 20), 2);
    assert_eq!(q.enqueue(item("f"), Some(99), 20), 5);
    assert_eq!(names(&q), ["d", "c", "e", "a", "b", "f"]);
    assert_eq!(q.version, 6);
    assert_eq!(q.updated_at, 20);
}

#[test]
fn items_leave_the_queue() {
    let mut q = queue(&["a", "b", "c"]);
    assert_eq!(q.take_next(30).unwrap().item_id, "a");
    assert_eq!(q.remove_at(1, 40).item_id, "c");
    assert_eq!(names(&q), ["b"]);
    assert_eq!((q.version, q.updated_at), (5, 40));
    let mut empty = MusicQueue::new();
    assert_eq!(empty.take_next(1), None);
    assert_eq!(empty, MusicQueue::new());
}

#[test]
fn items_are_moved() {
    let mut q = queue(&["a", "b", "c"]);
    assert_eq!(q.move_to(0, 1, 5), 1);
    assert_eq!(names(&q), ["b", "a", "c"]);
    assert_eq!(q.move_to(0, usize::MAX, 5), 2);
    assert_eq!(names(&q), ["a", "c", "b"]);
    assert_eq!(q.move_to(2, 0, 5), 0);
    assert_eq!(names(&q), ["b", "a", "c"]);
}

#[test]
fn queues_are_taken_over_if_newer() {
    let ahead = queue(&["a", "b"]);
    let sent = ahead.state(BOB);
    assert_eq!(
        sent,
        QueueState {
            version: 2,
            updated_at_micros: 10,
            updated_by: BOB.to_string(),
            items: vec![item("a"), item("b")],
        }
    );
    assert_eq!(sent, build_queue_state(2, 10, BOB, &ahead.items));
    let mut behind = queue(&["x"]);
    assert!(should_apply_queue_state(behind.version, behind.updated_at, &sent));
    assert!(behind.receive(&sent));
    assert_eq!(behind, ahead);
    assert!(!behind.receive(&sent));
    assert_eq!(behind, ahead);
}

#[test]
fn queues_converge_in_any_order() {
    let a = queue(&["a"]).state(ALICE);
    let b = queue(&["a", "b", "c"]).state(BOB);
    let mut one = MusicQueue::new();
    let mut two = MusicQueue::new();
    let _applied = (one.receive(&a), one.receive(&b));
    let _applied = (two.receive(&b), two.receive(&a));
    assert_eq!(one, two);
}

#[test]
fn an_untouched_queue_is_nothing_to_tell() {
    assert!(MusicQueue::new().is_untouched());
    assert!(!queue(&["a"]).is_untouched());
}

#[test]
fn a_playing_track_moves_on() {
    let s = state(true, 1_000, 1_000_000);
    assert_eq!(playback_elapsed_micros(&s, 3_500_000), 2_500_000);
    assert_eq!(playback_elapsed_micros(&s, 0), 0);
    assert_eq!(playback_elapsed_micros(&state(true, 0, i64::MIN), 1), i64::MAX);
    assert_eq!(playback_position_ms(&s, 3_500_000, 2_500), 3_500);
    assert_eq!(playback_position_ms(&s, 1_000_000, 77), 1_000);
    assert_eq!(playback_position_ms(&s, 9_000_000_000, 20_000), 10_000);
    assert_eq!(playback_position_ms(&s, 9_000_000_000, u64::MAX), 10_000);
    assert_eq!(playback_position_ms(&state(false, 500, 0), 9_000_000, 9_000), 500);
}

#[test]
fn positions_end_with_the_track() {
    let s = state(true, 0, 0);
    assert_eq!(playback_duration_ms(&s), Some(10_000));
    assert_eq!(clamp_playback_position_ms(&s, 10_001), 10_000);
    assert_eq!(clamp_playback_position_ms(&s, 9_999), 9_999);
    assert!(can_play_at_position(&s, 9_999));
    assert!(!can_play_at_position(&s, 10_000));
    let mut idle = s.clone();
    idle.track = None;
    assert_eq!(playback_duration_ms(&idle), None);
    assert_eq!(clamp_playback_position_ms(&idle, 10_001), 10_001);
    assert!(can_play_at_position(&idle, u64::MAX));
    assert!(playback_has_track(Some(&s)));
    assert!(!playback_has_track(Some(&idle)));
    assert!(!playback_has_track(None));
}

#[test]
fn a_track_is_heard_from_its_anchor_to_its_end() {
    let s = state(true, 0, 1_000);
    assert!(!playback_should_be_audible(&s, 999, 0));
    assert!(playback_should_be_audible(&s, 1_000, 0));
    assert!(playback_should_be_audible(&s, 2_000, 1));
    assert!(!playback_should_be_audible(&s, 20_000_000, 10_000));
    assert!(!playback_should_be_audible(&state(false, 0, 0), 5, 0));
}

#[test]
fn a_playback_never_runs_back_and_its_end_stays_silent() {
    for rate in [0.0f64, 0.5, 1.0, 1.75] {
        let s = state(true, 4_000, 1_000_000);
        let mut position = 0;
        let mut silent = false;
        for second in 1..30 {
            let now = second * 1_000_000;
            let played = (playback_elapsed_micros(&s, now) as f64 / 1_000.0 * rate) as u64;
            let stands_at = playback_position_ms(&s, now, played);
            assert!(position <= stands_at);
            position = stands_at;
            let audible = playback_should_be_audible(&s, now, played);
            assert_eq!(audible, stands_at < 10_000);
            assert!(!(silent && audible));
            silent = !audible;
        }
        assert_eq!(position, if rate == 0.0 { 4_000 } else { 10_000 });
        assert_eq!(silent, rate > 0.0);
    }
}

#[test]
fn the_requester_controls_the_track() {
    assert!(can_control_playback(&state(true, 0, 0), BOB));
    assert!(!can_control_playback(&state(true, 0, 0), ALICE));
    let mut s = state(true, 0, 0);
    s.track_requested_by = None;
    assert!(!can_control_playback(&s, BOB));
}

#[test]
fn states_are_ordered_by_time_version_and_leader() {
    let current = state(true, 0, 0);
    assert_eq!(playback_order_key(&current), (100, 3, ALICE));
    assert!(should_apply_playback_state(None, &current));
    assert!(!should_apply_playback_state(Some(&current), &current));
    let mut next = current.clone();
    next.issued_at_micros = 101;
    next.state_version = 1;
    assert!(should_apply_playback_state(Some(&current), &next));
    assert!(!should_apply_playback_state(Some(&next), &current));
    let mut next = current.clone();
    next.state_version = 4;
    assert!(should_apply_playback_state(Some(&current), &next));
    let mut next = current.clone();
    next.leader_peer_id = BOB.to_string();
    assert!(should_apply_playback_state(Some(&current), &next));
    assert!(!should_apply_playback_state(Some(&next), &current));
}

#[test]
fn states_with_the_same_key_replace_each_other_if_they_say_something_new() {
    let current = state(true, 0, 50);
    let mut next = current.clone();
    next.anchor_time_micros = 51;
    assert!(should_apply_playback_state(Some(&current), &next));
    assert!(!should_apply_playback_state(Some(&next), &current));
    let mut next = current.clone();
    next.position_ms = 1;
    assert!(should_apply_playback_state(Some(&current), &next));
    let mut next = current.clone();
    next.playing = false;
    assert!(should_apply_playback_state(Some(&current), &next));
    next.track = Some(track("other"));
    assert!(!should_apply_playback_state(Some(&current), &next));
    next.track = None;
    assert!(!should_apply_playback_state(Some(&current), &next));
}

#[test]
fn remote_states_are_counted_from_their_arrival() {
    let mut s = state(true, 5, 1_600_100);
    s.issued_at_micros = 100_100;
    let local = normalize_remote_playback_state(&s, 7_000_000);
    assert_eq!(local.anchor_time_micros, 8_500_000);
    assert_eq!(local.position_ms, 5);
    s.playing = false;
    assert_eq!(normalize_remote_playback_state(&s, 7_000_000).anchor_time_micros, 7_000_000);
    s.playing = true;
    s.anchor_time_micros = 50;
    assert_eq!(normalize_remote_playback_state(&s, 7_000_000).anchor_time_micros, 7_000_000);
    s.anchor_time_micros = i64::MAX;
    s.issued_at_micros = i64::MIN;
    assert_eq!(normalize_remote_playback_state(&s, 7_000_000).anchor_time_micros, i64::MAX);
}

#[test]
fn an_idle_state_plays_nothing() {
    let idle = new_idle_state(ALICE, 8, 1_234);
    assert_eq!(idle.session_id, format!("{ALICE}:1234:idle"));
    assert_eq!(idle.state_version, 8);
    assert_eq!(idle.track, None);
    assert_eq!(idle.anchor_time_micros, 1_234);
    assert_eq!(view_playback(&idle, 2_000, 0), None);
}

#[test]
fn a_waiting_state_starts_after_a_pause() {
    let mut waiting = new_waiting_state(&item("x"), BOB, 2, 1_000);
    assert_eq!(waiting.session_id, format!("{BOB}:1000:x"));
    assert_eq!(waiting.track_requested_by, Some(ALICE.to_string()));
    assert!(!waiting.playing);
    start_state(&mut waiting, 3, 2_000);
    assert!(waiting.playing);
    assert_eq!(waiting.anchor_time_micros, 1_502_000);
    assert_eq!((waiting.state_version, waiting.issued_at_micros), (3, 2_000));
    assert_eq!(
        view_playback(&waiting, 2_000, 0),
        Some(PlaybackView {
            title: "title x".to_string(),
            playing: false,
            position_ms: 0,
            duration_ms: 10_000,
            leader_peer_id: BOB.to_string(),
        })
    );
}

#[test]
fn a_leader_repeats_where_the_track_stands() {
    let mut s = state(true, 1_000, 1_000_000);
    repeat_state(&mut s, 3_000_000, 2_000);
    assert_eq!((s.position_ms, s.anchor_time_micros, s.issued_at_micros), (3_000, 3_000_000, 3_000_000));
    assert_eq!(s.state_version, 3);
    let mut early = state(true, 0, 5_000_000);
    repeat_state(&mut early, 3_000_000, 0);
    assert_eq!((early.position_ms, early.anchor_time_micros, early.issued_at_micros), (0, 5_000_000, 3_000_000));
}

#[test]
fn a_player_is_steered_gently() {
    assert_eq!(
        steer(&player(1_000, true), 1_700, true, 9),
        PlayerCommand::SetPlaying { playing: true, at_micros: 9 }
    );
    assert_eq!(
        steer(&player(1_000, true), 1_701, true, 9),
        PlayerCommand::Seek { position_ms: 1_701, playing: true, at_micros: 9 }
    );
    assert_eq!(
        steer(&player(1_701, true), 1_000, false, 9),
        PlayerCommand::Seek { position_ms: 1_000, playing: false, at_micros: 9 }
    );
    assert_eq!(
        steer(&player(1_000, false), 1_000, true, 9),
        PlayerCommand::Seek { position_ms: 1_000, playing: true, at_micros: 9 }
    );
    assert_eq!(
        steer(&player(1_000, false), 1_000, false, 9),
        PlayerCommand::SetPlaying { playing: false, at_micros: 9 }
    );
}

#[test]
fn only_a_player_with_the_track_is_synced() {
    let s = state(true, 4_000, 0);
    assert_eq!(sync_loaded_player_to_state(&None, &s, 1_000, 1), None);
    let mut other = player(0, true);
    other.track_id = Some("u".to_string());
    assert_eq!(sync_loaded_player_to_state(&Some(other), &s, 1_000, 1), None);
    assert_eq!(
        sync_loaded_player_to_state(&Some(player(0, true)), &s, 1_000, 1),
        Some(PlayerCommand::Seek { position_ms: 4_001, playing: true, at_micros: 1_000 })
    );
    let mut idle = s.clone();
    idle.track = None;
    assert_eq!(sync_loaded_player_to_state(&Some(player(0, true)), &idle, 1_000, 1), None);
}

#[test]
fn a_track_finishes_for_its_leader() {
    let s = state(true, 0, 0);
    assert!(has_finished(&s, ALICE, &None, 10_000_000, 10_000));
    assert!(!has_finished(&s, ALICE, &None, 9_000_000, 9_000));
    assert!(!has_finished(&s, BOB, &None, 10_000_000, 10_000));
    let mut done = player(5, false);
    done.finished = true;
    assert!(has_finished(&s, ALICE, &Some(done), 1, 0));
    assert!(!has_finished(&state(false, 10_000, 0), ALICE, &None, 1, 0));
}

#[test]
fn peers_that_were_asked_get_ready() {
    let mut expected = TextSet::new();
    let _new = (expected.insert(ALICE), expected.insert(BOB));
    let mut pending = PendingPlayback::new(state(false, 0, 0), expected, 77);
    assert!(!pending.is_ready());
    assert!(pending.mark_ready(ALICE));
    assert!(!pending.mark_ready(ALICE));
    assert!(!pending.mark_ready("stranger"));
    assert_eq!((pending.ready_count(), pending.expected_count()), (1, 2));
    pending.drop_peer(BOB);
    assert!(pending.is_ready());
    assert_eq!((pending.ready_count(), pending.expected_count()), (1, 1));
}
