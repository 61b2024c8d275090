use link_ear::model::{PlaybackState, QueueItem, Track, VoteAction, VoteProposal, VoteView};
use link_ear::playback::new_waiting_state;
use link_ear::vote::{
    ballot_word, describe_vote_action, majority_threshold, should_execute_vote_locally,
    stale_vote_reason, view_vote, ActiveVote,
};
use std::collections::VecDeque;

const ALICE: &str = "12D3KooWCKULvuTT1ZDPW8zZpd215MT1QzoNeTvFbPvzhhGHmyDf";
const BOB: &str = "12D3KooWEpUHE3gptbCmfVFLxg5zqk1ESsapZpKbGVbEen4EVjVL";

fn item(id: &str) -> QueueItem {
    QueueItem {
        item_id: id.to_string(),
        track: Track { track_id: id.to_string(), title: id.to_string(), duration_ms: 1_000 },
        requested_by: BOB.to_string(),
        added_at_micros: 0,
    }
}

fn playback() -> PlaybackState {
    new_waiting_state(&item("t"), ALICE, 1, 5)
}

fn proposal(action: VoteAction, session: Option<String>) -> VoteProposal {
    VoteProposal {
        vote_id: "v".to_string(),
        proposer: ALICE.to_string(),
        action,
        queue_version: 4,
        playback_session_id: session,
        created_at_micros: 0,
    }
}

#[test]
fn a_majority_is_more_than_half() {
    assert_eq!(majority_threshold(0), 1);
    assert_eq!(majority_threshold(1), 1);
    assert_eq!(majority_threshold(2), 2);
    assert_eq!(majority_threshold(3), 2);
    assert_eq!(majority_threshold(4), 3);
    assert_eq!(majority_threshold(5), 3);
    assert_eq!(majority_threshold(usize::MAX), usize::MAX / 2 + 1);
}

#[test]
fn the_last_ballot_of_a_peer_counts() {
    let mut vote = ActiveVote::new(proposal(VoteAction::Pause, None), 9);
    vote.vote(ALICE, true);
    vote.vote(ALICE, true);
    vote.vote(BOB, false);
    assert_eq!((vote.approval_count(), vote.rejections.len()), (1, 1));
    vote.vote(BOB, true);
    assert_eq!((vote.approval_count(), vote.rejections.len()), (2, 0));
    vote.vote(ALICE, false);
    assert_eq!((vote.approval_count(), vote.rejections.len()), (1, 1));
}

#[test]
fn votes_on_the_queue_go_stale_with_its_version() {
    let remove = proposal(VoteAction::Remove { item_id: "a".to_string() }, None);
    assert_eq!(stale_vote_reason(&remove, 4, &None), None);
    assert_eq!(stale_vote_reason(&remove, 5, &None), Some("queue changed during vote"));
    let shift = proposal(VoteAction::Move { item_id: "a".to_string(), to_index: 0 }, None);
    assert_eq!(stale_vote_reason(&shift, 4, &Some(playback())), None);
    assert_eq!(stale_vote_reason(&shift, 3, &None), Some("queue changed during vote"));
}

#[test]
fn votes_on_the_playback_go_stale_with_its_session() {
    let current = playback();
    let session = Some(current.session_id.clone());
    let stale = Some("playback changed during vote");
    for action in [
        VoteAction::Pause,
        VoteAction::Resume,
        VoteAction::Skip,
        VoteAction::Seek { position_ms: 1 },
    ] {
        let good = proposal(action.clone(), session.clone());
        assert_eq!(stale_vote_reason(&good, 0, &Some(current.clone())), None);
        assert_eq!(stale_vote_reason(&good, 0, &None), stale);
        let other = proposal(action.clone(), Some("other".to_string()));
        assert_eq!(stale_vote_reason(&other, 0, &Some(current.clone())), stale);
        let none = proposal(action, None);
        assert_eq!(stale_vote_reason(&none, 0, &None), None);
        assert_eq!(stale_vote_reason(&none, 0, &Some(current.clone())), stale);
    }
    let mut idle = current.clone();
    idle.track = None;
    assert_eq!(stale_vote_reason(&proposal(VoteAction::Skip, session), 0, &Some(idle)), stale);
}

#[test]
fn one_peer_carries_out_a_vote() {
    let remove = proposal(VoteAction::Remove { item_id: "a".to_string() }, None);
    assert!(should_execute_vote_locally(&remove, &None, ALICE));
    assert!(!should_execute_vote_locally(&remove, &Some(playback()), BOB));
    let skip = proposal(VoteAction::Skip, None);
    assert!(should_execute_vote_locally(&skip, &Some(playback()), BOB));
    assert!(!should_execute_vote_locally(&skip, &Some(playback()), ALICE));
    assert!(!should_execute_vote_locally(&skip, &None, ALICE));
}

#[test]
fn votes_are_described() {
    let queue = VecDeque::from(vec![item("a"), item("b")]);
    assert_eq!(describe_vote_action(&VoteAction::Pause, &queue), "pause playback");
    assert_eq!(describe_vote_action(&VoteAction::Resume, &queue), "resume playback");
    assert_eq!(describe_vote_action(&VoteAction::Skip, &queue), "skip current track");
    assert_eq!(
        describe_vote_action(&VoteAction::Seek { position_ms: 83_000 }, &queue),
        "seek to 1:23"
    );
    let remove = |id: &str| VoteAction::Remove { item_id: id.to_string() };
    assert_eq!(describe_vote_action(&remove("b"), &queue), "remove queue item #2");
    assert_eq!(describe_vote_action(&remove("z"), &queue), "remove queue item");
    let shift = |id: &str, to_index: usize| VoteAction::Move { item_id: id.to_string(), to_index };
    assert_eq!(describe_vote_action(&shift("b", 0), &queue), "move queue item #2 to #1");
    assert_eq!(describe_vote_action(&shift("z", 4), &queue), "move queue item to #5");
}

#[test]
fn a_vote_is_shown_with_its_counts() {
    let queue = VecDeque::from(vec![item("a")]);
    let mut vote = ActiveVote::new(
        proposal(VoteAction::Remove { item_id: "a".to_string() }, None),
        9,
    );
    vote.vote(ALICE, true);
    vote.vote(BOB, false);
    assert_eq!(
        view_vote(&vote, &queue, 2),
        VoteView {
            vote_id: "v".to_string(),
            proposer: ALICE.to_string(),
            action_label: "remove queue item #1".to_string(),
            approvals: 1,
            rejections: 1,
            threshold: 2,
        }
    );
    assert_eq!(ballot_word(true), "yes");
    assert_eq!(ballot_word(false), "no");
}
