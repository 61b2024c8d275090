//! Votes on what a peer may not do alone.
use crate::collections::{deep, with_item, without_item, TextSet};
use crate::model::{
    PlaybackState, PlaybackStateModel, QueueItem, QueueItemModel, VoteAction, VoteActionModel,
    VoteProposal, VoteProposalModel, VoteView, VoteViewModel,
};
use crate::playback::{can_control_playback, controls};
use crate::queue::{find_item, item_place};
use crate::text::{decimal, decimal_text};
use crate::time::{duration_ms_text, format_duration_ms};
use std::collections::VecDeque;
use vstd::prelude::*;
use vstd::string::*;

verus! {

/// A vote that is open.
#[derive(Debug, PartialEq, Eq)]
pub struct ActiveVote {
    pub proposal: VoteProposal,
    /// The peers that approve.
    pub approvals: TextSet,
    /// The peers that do not.
    pub rejections: TextSet,
    /// When the vote closes, on the monotonic clock.
    pub deadline: u64,
}

/// The content of [`ActiveVote`].
#[verifier::ext_equal]
pub struct ActiveVoteModel {
    pub proposal: VoteProposalModel,
    pub approvals: Seq<Seq<char>>,
    pub rejections: Seq<Seq<char>>,
    pub deadline: u64,
}

impl View for ActiveVote {
    type V = ActiveVoteModel;

    open spec fn view(&self) -> ActiveVoteModel {
        ActiveVoteModel {
            proposal: self.proposal@,
            approvals: self.approvals@,
            rejections: self.rejections@,
            deadline: self.deadline,
        }
    }
}

impl DeepView for ActiveVote {
    type V = ActiveVoteModel;

    open spec fn deep_view(&self) -> ActiveVoteModel {
        self@
    }
}

impl Clone for ActiveVote {
    fn clone(&self) -> (copy: Self)
        ensures
            copy@ == self@,
    {
        ActiveVote {
            proposal: self.proposal.clone(),
            approvals: self.approvals.clone(),
            rejections: self.rejections.clone(),
            deadline: self.deadline,
        }
    }
}

/// The number of approvals that is more than half of the peers.
pub fn majority_threshold(total_peers: usize) -> (threshold: usize)
    ensures
        threshold == total_peers / 2 + 1,
{
    total_peers / 2 + 1
}

impl ActiveVoteModel {
    /// A vote without ballots.
    pub open spec fn opened(proposal: VoteProposalModel, deadline: u64) -> ActiveVoteModel {
        ActiveVoteModel {
            proposal: proposal,
            approvals: Seq::empty(),
            rejections: Seq::empty(),
            deadline: deadline,
        }
    }

    /// A peer has voted. Its last ballot is the one that counts.
    pub open spec fn with_ballot(self, peer_id: Seq<char>, approve: bool) -> ActiveVoteModel {
        if approve {
            ActiveVoteModel {
                approvals: with_item(self.approvals, peer_id),
                rejections: without_item(self.rejections, peer_id),
                ..self
            }
        } else {
            ActiveVoteModel {
                approvals: without_item(self.approvals, peer_id),
                rejections: with_item(self.rejections, peer_id),
                ..self
            }
        }
    }

    /// A vote that its proposer has approved.
    pub open spec fn proposed(proposal: VoteProposalModel, deadline: u64) -> ActiveVoteModel {
        Self::opened(proposal, deadline).with_ballot(proposal.proposer, true)
    }
}

impl ActiveVote {
    /// A vote without ballots.
    pub fn new(proposal: VoteProposal, deadline: u64) -> (vote: ActiveVote)
        ensures
            vote@ == ActiveVoteModel::opened(proposal@, deadline),
    {
        ActiveVote { proposal, approvals: TextSet::new(), rejections: TextSet::new(), deadline }
    }

    /// Takes the ballot of a peer in place of an earlier one.
    pub fn vote(&mut self, peer_id: &str, approve: bool)
        ensures
            final(self)@ == old(self)@.with_ballot(peer_id@, approve),
    {
        if approve {
            let _new = self.approvals.insert(peer_id);
            let _old = self.rejections.remove(peer_id);
        } else {
            let _old = self.approvals.remove(peer_id);
            let _new = self.rejections.insert(peer_id);
        }
    }

    /// The number of approvals.
    pub fn approval_count(&self) -> (count: usize)
        ensures
            count == self@.approvals.len(),
    {
        self.approvals.len()
    }
}

/// The action changes the queue, not the playback.
pub open spec fn is_about_queue(action: VoteActionModel) -> bool {
    action is Remove || action is Move
}

/// The playback session that has a track, if there is one.
pub open spec fn current_session(playback: Option<PlaybackStateModel>) -> Option<Seq<char>> {
    match playback {
        Some(state) => if state.track is Some {
            Some(state.session_id)
        } else {
            None
        },
        None => None,
    }
}

/// Why a vote that has passed is not carried out: what it is about has changed since.
pub open spec fn stale_reason(
    proposal: VoteProposalModel,
    queue_version: u64,
    playback: Option<PlaybackStateModel>,
) -> Option<Seq<char>> {
    if is_about_queue(proposal.action) {
        if proposal.queue_version != queue_version {
            Some("queue changed during vote"@)
        } else {
            None
        }
    } else if proposal.playback_session_id != current_session(playback) {
        Some("playback changed during vote"@)
    } else {
        None
    }
}

fn concerns_queue(action: &VoteAction) -> (about_queue: bool)
    ensures
        about_queue == is_about_queue(action@),
{
    match action {
        VoteAction::Remove { .. } => true,
        VoteAction::Move { .. } => true,
        _ => false,
    }
}

/// Why a vote that has passed is not carried out, if it is not.
pub fn stale_vote_reason(
    proposal: &VoteProposal,
    queue_version: u64,
    playback_state: &Option<PlaybackState>,
) -> (reason: Option<&'static str>)
    ensures
        match reason {
            Some(r) => stale_reason(proposal@, queue_version, playback_state.deep_view()) == Some(
                r@,
            ),
            None => stale_reason(proposal@, queue_version, playback_state.deep_view()) is None,
        },
{
    if concerns_queue(&proposal.action) {
        if proposal.queue_version != queue_version {
            return Some("queue changed during vote");
        }
        return None;
    }
    let current: Option<&String> = match playback_state {
        Some(state) => if state.track.is_some() {
            Some(&state.session_id)
        } else {
            None
        },
        None => None,
    };
    let same: bool = match (&proposal.playback_session_id, current) {
        (Some(then_session), Some(now_session)) => *then_session == *now_session,
        (None, None) => true,
        _ => false,
    };
    if same {
        None
    } else {
        Some("playback changed during vote")
    }
}

/// The local peer is the one to carry out a vote: the proposer if it is about the queue, else
/// the peer that asked for the track.
pub open spec fn executes(
    proposal: VoteProposalModel,
    playback: Option<PlaybackStateModel>,
    local_peer_id: Seq<char>,
) -> bool {
    if is_about_queue(proposal.action) {
        proposal.proposer == local_peer_id
    } else {
        playback is Some && controls(playback->0, local_peer_id)
    }
}

/// Whether the local peer is the one to carry out a vote.
pub fn should_execute_vote_locally(
    proposal: &VoteProposal,
    playback_state: &Option<PlaybackState>,
    local_peer_id: &str,
) -> (local: bool)
    ensures
        local == executes(proposal@, playback_state.deep_view(), local_peer_id@),
{
    if concerns_queue(&proposal.action) {
        proposal.proposer == local_peer_id.to_owned()
    } else {
        match playback_state {
            Some(state) => can_control_playback(state, local_peer_id),
            None => false,
        }
    }
}

/// A vote in words, with the places that its item has in the queue.
pub open spec fn action_text(action: VoteActionModel, items: Seq<QueueItemModel>) -> Seq<char> {
    match action {
        VoteActionModel::Pause => "pause playback"@,
        VoteActionModel::Resume => "resume playback"@,
        VoteActionModel::Skip => "skip current track"@,
        VoteActionModel::Seek { position_ms } => "seek to "@ + duration_ms_text(position_ms as nat),
        VoteActionModel::Remove { item_id } => match item_place(items, item_id) {
            Some(place) => "remove queue item #"@ + decimal((place + 1) as nat),
            None => "remove queue item"@,
        },
        VoteActionModel::Move { item_id, to_index } => match item_place(items, item_id) {
            Some(place) => "move queue item #"@ + decimal((place + 1) as nat) + " to #"@ + decimal(
                (to_index + 1) as nat,
            ),
            None => "move queue item to #"@ + decimal((to_index + 1) as nat),
        },
    }
}

/// Writes the place that comes behind `index` others.
pub fn ordinal_text(index: usize) -> (text: String)
    ensures
        text@ == decimal((index + 1) as nat),
{
    decimal_text(index as u128 + 1)
}

/// Writes a vote in words.
pub fn describe_vote_action(action: &VoteAction, queue: &VecDeque<QueueItem>) -> (text: String)
    ensures
        text@ == action_text(action@, deep(queue@)),
{
    match action {
        VoteAction::Pause => "pause playback".to_owned(),
        VoteAction::Resume => "resume playback".to_owned(),
        VoteAction::Skip => "skip current track".to_owned(),
        VoteAction::Seek { position_ms } => "seek to ".to_owned().concat(
            format_duration_ms(*position_ms).as_str(),
        ),
        VoteAction::Remove { item_id } => match find_item(queue, item_id.as_str()) {
            Some(place) => "remove queue item #".to_owned().concat(ordinal_text(place).as_str()),
            None => "remove queue item".to_owned(),
        },
        VoteAction::Move { item_id, to_index } => match find_item(queue, item_id.as_str()) {
            Some(place) => "move queue item #".to_owned().concat(
                ordinal_text(place).as_str(),
            ).concat(" to #").concat(ordinal_text(*to_index).as_str()),
            None => "move queue item to #".to_owned().concat(ordinal_text(*to_index).as_str()),
        },
    }
}

/// What is shown of a vote.
pub open spec fn vote_view(
    vote: ActiveVoteModel,
    items: Seq<QueueItemModel>,
    threshold: usize,
) -> VoteViewModel {
    VoteViewModel {
        vote_id: vote.proposal.vote_id,
        proposer: vote.proposal.proposer,
        action_label: action_text(vote.proposal.action, items),
        approvals: vote.approvals.len() as usize,
        rejections: vote.rejections.len() as usize,
        threshold: threshold,
    }
}

/// Makes what is shown of a vote.
pub fn view_vote(vote: &ActiveVote, queue: &VecDeque<QueueItem>, threshold: usize) -> (view:
    VoteView)
    ensures
        view@ == vote_view(vote@, deep(queue@), threshold),
{
    VoteView {
        vote_id: vote.proposal.vote_id.clone(),
        proposer: vote.proposal.proposer.clone(),
        action_label: describe_vote_action(&vote.proposal.action, queue),
        approvals: vote.approvals.len(),
        rejections: vote.rejections.len(),
        threshold,
    }
}

/// A ballot in a word.
pub open spec fn ballot_text(approve: bool) -> Seq<char> {
    if approve {
        "yes"@
    } else {
        "no"@
    }
}

/// Writes a ballot in a word.
pub fn ballot_word(approve: bool) -> (text: &'static str)
    ensures
        text@ == ballot_text(approve),
{
    if approve {
        "yes"
    } else {
        "no"
    }
}

} // verus!
