//! What holds of votes.
use crate::collections::set_laws;
use crate::effect::{EffectModel, WorldModel};
use crate::model::{NetworkCommandModel, PlaybackStateModel, QueueItemModel, VoteProposalModel};
use crate::session::music::queue_status;
use crate::session::{next_number, threshold, SessionModel};
use crate::vote::{executes, ActiveVoteModel};
use vstd::prelude::*;

verus! {

/// The approvals that a vote needs are more than half of the peers, and no more than that takes.
pub proof fn a_majority_is_more_than_half(at: WorldModel)
    requires
        at.connected.len() < usize::MAX,
    ensures
        2 * threshold(at) > at.connected.len() + 1,
        2 * (threshold(at) - 1) <= at.connected.len() + 1,
{
}

/// A peer that is alone decides alone.
pub proof fn a_lone_peer_decides(at: WorldModel)
    requires
        at.connected.len() == 0,
    ensures
        threshold(at) == 1,
{
}

impl ActiveVoteModel {
    /// No peer counts twice, and none both approves and rejects.
    pub open spec fn wf(self) -> bool {
        &&& self.approvals.no_duplicates()
        &&& self.rejections.no_duplicates()
        &&& forall|p: Seq<char>|
            #[trigger] self.approvals.contains(p) ==> !self.rejections.contains(p)
    }
}

/// A ballot keeps a vote in order, counts for its peer, and leaves the ballots of others alone.
pub proof fn the_last_ballot_counts(
    vote: ActiveVoteModel,
    peer_id: Seq<char>,
    approve: bool,
    other: Seq<char>,
)
    requires
        vote.wf(),
    ensures
        vote.with_ballot(peer_id, approve).wf(),
        vote.with_ballot(peer_id, approve).approvals.contains(peer_id) == approve,
        vote.with_ballot(peer_id, approve).rejections.contains(peer_id) == !approve,
        other != peer_id ==> vote.with_ballot(peer_id, approve).approvals.contains(other)
            == vote.approvals.contains(other) && vote.with_ballot(
            peer_id,
            approve,
        ).rejections.contains(other) == vote.rejections.contains(other),
        vote.with_ballot(peer_id, approve).proposal == vote.proposal,
{
    let after = vote.with_ballot(peer_id, approve);
    set_laws(vote.approvals, peer_id, peer_id);
    set_laws(vote.rejections, peer_id, peer_id);
    set_laws(vote.approvals, peer_id, other);
    set_laws(vote.rejections, peer_id, other);
    assert forall|p: Seq<char>| #[trigger] after.approvals.contains(p) implies
        !after.rejections.contains(p) by {
        set_laws(vote.approvals, peer_id, p);
        set_laws(vote.rejections, peer_id, p);
    }
}

/// A vote begins with the approval of its proposer and no other ballot.
pub proof fn a_vote_begins_with_its_proposer(proposal: VoteProposalModel, deadline: u64)
    ensures
        ActiveVoteModel::proposed(proposal, deadline).wf(),
        ActiveVoteModel::proposed(proposal, deadline).approvals == seq![proposal.proposer],
        ActiveVoteModel::proposed(proposal, deadline).rejections == Seq::<Seq<char>>::empty(),
{
    let opened = ActiveVoteModel::opened(proposal, deadline);
    assert(opened.wf());
    the_last_ballot_counts(opened, proposal.proposer, true, proposal.proposer);
    assert(ActiveVoteModel::proposed(proposal, deadline).approvals =~= seq![proposal.proposer]);
}

/// A proposal is put to the peers.
pub open spec fn is_proposal(effect: EffectModel) -> bool {
    effect matches EffectModel::Publish(message) && message is VoteProposal
}

proof fn commands_keep_the_count(
    session: SessionModel,
    command: NetworkCommandModel,
    fresh: Seq<char>,
    at: WorldModel,
)
    ensures
        session.command(command, fresh, at).after.nonce_seq == session.nonce_seq,
{
}

proof fn a_proposal_comes_first(
    session: SessionModel,
    command: NetworkCommandModel,
    fresh: Seq<char>,
    at: WorldModel,
)
    requires
        session.proposes(command),
    ensures
        session.command(command, fresh, at).effects.len() > 0,
        is_proposal(session.command(command, fresh, at).effects[0]),
        session.command(command, fresh, at).effects[0]->Publish_0->proposal.vote_id == fresh,
{
}

proof fn the_status_proposes_nothing(
    playback: Option<PlaybackStateModel>,
    items: Seq<QueueItemModel>,
)
    ensures
        forall|i: int|
            0 <= i < queue_status(playback, items).len() ==> !is_proposal(
                #[trigger] queue_status(playback, items)[i],
            ),
{
}

#[verifier::rlimit(40)]
proof fn other_commands_propose_nothing(
    session: SessionModel,
    command: NetworkCommandModel,
    fresh: Seq<char>,
    at: WorldModel,
)
    requires
        !session.proposes(command),
    ensures
        forall|i: int|
            0 <= i < session.command(command, fresh, at).effects.len() ==> !is_proposal(
                #[trigger] session.command(command, fresh, at).effects[i],
            ),
{
    if command is ShowQueue {
        the_status_proposes_nothing(session.playback, session.queue.items);
    }
}

/// A command takes a number exactly if it puts a proposal to the peers, and that proposal bears
/// the identifier made of the number. No other command puts one.
pub proof fn only_a_proposal_takes_a_number(
    session: SessionModel,
    command: NetworkCommandModel,
    fresh: Seq<char>,
    at: WorldModel,
)
    ensures
        ({
            let step = session.numbering(command).command(command, fresh, at);
            &&& step.after.nonce_seq == if session.proposes(command) {
                next_number(session.nonce_seq)
            } else {
                session.nonce_seq
            }
            &&& session.proposes(command) <==> exists|i: int|
                0 <= i < step.effects.len() && is_proposal(#[trigger] step.effects[i])
            &&& session.proposes(command) ==> is_proposal(step.effects[0])
                && step.effects[0]->Publish_0->proposal.vote_id == fresh
        }),
{
    let numbered = session.numbering(command);
    assert(numbered.proposes(command) == session.proposes(command));
    commands_keep_the_count(numbered, command, fresh, at);
    if session.proposes(command) {
        a_proposal_comes_first(numbered, command, fresh, at);
    } else {
        other_commands_propose_nothing(numbered, command, fresh, at);
    }
}

/// No vote is carried out by two peers that see the same playback.
pub proof fn one_peer_carries_out_a_vote(
    proposal: VoteProposalModel,
    playback: Option<PlaybackStateModel>,
    a: Seq<char>,
    b: Seq<char>,
)
    requires
        executes(proposal, playback, a),
        executes(proposal, playback, b),
    ensures
        a == b,
{
}

} // verus!
