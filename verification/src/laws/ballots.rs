//! How the peers of a room decide together.
use crate::effect::{EffectModel, OutcomeModel, TaskModel, Tick, WorldModel};
use crate::laws::basics::{one_less, one_more, said, told_at_length};
use crate::laws::queueing::shortened;
use crate::model::{
    NetworkCommandModel, QueueItemModel, UiEventModel, VoteActionModel, VoteProposalModel,
    VoteViewModel, WireMessageModel,
};
use crate::queue::item_place;
use crate::session::SessionModel;
use crate::text::{decimal, two_digits};
use crate::vote::ActiveVoteModel;
use vstd::prelude::*;

verus! {

/// The user asked for what is played, and so controls it alone.
pub open spec fn is_own(session: SessionModel) -> bool {
    session.playback is Some && session.playback->0.track_requested_by == Some(session.local)
}

/// What the user cannot do alone: control what somebody else asked for, remove the item of somebody
/// else, or move any item. Positions are counted from one.
pub open spec fn needs_a_vote(
    session: SessionModel,
    command: NetworkCommandModel,
) -> Option<VoteActionModel> {
    let items = session.queue.items;
    match command {
        NetworkCommandModel::Pause => if session.playback is Some && !is_own(session) {
            Some(VoteActionModel::Pause)
        } else {
            None
        },
        NetworkCommandModel::Resume => if session.playback is Some && !is_own(session) {
            Some(VoteActionModel::Resume)
        } else {
            None
        },
        NetworkCommandModel::Seek(position_ms) => if session.playback is Some && !is_own(session) {
            Some(VoteActionModel::Seek { position_ms: position_ms })
        } else {
            None
        },
        NetworkCommandModel::Skip => if !is_own(session) {
            Some(VoteActionModel::Skip)
        } else {
            None
        },
        NetworkCommandModel::RemoveQueueItem(index) => if 1 <= index <= items.len() && items[index
            - 1].requested_by != session.local {
            Some(VoteActionModel::Remove { item_id: items[index - 1].item_id })
        } else {
            None
        },
        NetworkCommandModel::MoveQueueItem { from, to } => if 1 <= from <= items.len() {
            Some(
                VoteActionModel::Move {
                    item_id: items[from - 1].item_id,
                    to_index: (if to == 0 {
                        0
                    } else {
                        to - 1
                    }) as usize,
                },
            )
        } else {
            None
        },
        _ => None,
    }
}

/// What the user cannot do alone is proposed to the peers as it was asked for, with the approval of
/// the user, and stays open for twenty seconds. Only one vote is open at a time.
#[verifier::rlimit(80)]
pub proof fn what_needs_a_vote_is_proposed(
    session: SessionModel,
    command: NetworkCommandModel,
    fresh: Seq<char>,
    at: WorldModel,
)
    requires
        needs_a_vote(session, command) is Some,
        at.now.in_range(),
    ensures
        ({
            let step = session.command(command, fresh, at);
            let vote = step.after.agenda[0]->OpenVote_vote;
            let proposal = VoteProposalModel {
                vote_id: fresh,
                proposer: session.local,
                action: needs_a_vote(session, command)->0,
                queue_version: session.queue.version,
                playback_session_id: match session.playback {
                    Some(state) => Some(state.session_id),
                    None => None,
                },
                created_at_micros: at.now.wall_micros,
            };
            &&& session.vote is Some ==> step.after == session && step.effects == seq![
                said("another vote is already active"@),
            ]
            &&& session.vote is None ==> {
                &&& step.effects == seq![
                    EffectModel::Publish(WireMessageModel::VoteProposal { proposal: proposal }),
                    EffectModel::Publish(
                        WireMessageModel::VoteBallot {
                            vote_id: fresh,
                            peer_id: session.local,
                            approve: true,
                        },
                    ),
                ]
                &&& step.after.agenda.len() > 0
                &&& step.after == (SessionModel {
                    agenda: seq![TaskModel::OpenVote { vote: vote }] + session.agenda,
                    ..session
                })
                &&& vote.proposal == proposal
                &&& vote.approvals == seq![session.local]
                &&& vote.rejections.len() == 0
                &&& vote.deadline == at.now.mono_nanos + 20_000_000_000
            }
        }),
{
    let proposal = session.proposal(needs_a_vote(session, command)->0, fresh, at);
    crate::laws::votes::a_vote_begins_with_its_proposer(
        proposal,
        (at.now.mono_nanos + 20_000_000_000) as u64,
    );
}

/// There is nothing to move at a position that does not exist.
pub proof fn there_is_nothing_to_move(
    session: SessionModel,
    from: usize,
    to: usize,
    fresh: Seq<char>,
    at: WorldModel,
)
    requires
        from == 0 || from > session.queue.items.len(),
    ensures
        ({
            let step = session.command(
                NetworkCommandModel::MoveQueueItem { from: from, to: to },
                fresh,
                at,
            );
            &&& step.after == session
            &&& step.effects == seq![
                said("queue item #"@ + decimal(from as nat) + " does not exist"@),
            ]
        }),
{
}

/// A vote in words.
pub open spec fn in_words(action: VoteActionModel, items: Seq<QueueItemModel>) -> Seq<char> {
    match action {
        VoteActionModel::Pause => "pause playback"@,
        VoteActionModel::Resume => "resume playback"@,
        VoteActionModel::Skip => "skip current track"@,
        VoteActionModel::Seek { position_ms } => "seek to "@ + (decimal(
            (position_ms / 1000 / 60) as nat,
        ) + ":"@ + two_digits((position_ms / 1000 % 60) as nat)),
        VoteActionModel::Remove { item_id } => match item_place(items, item_id) {
            Some(place) => "remove queue item #"@ + decimal((place + 1) as nat),
            None => "remove queue item"@,
        },
        VoteActionModel::Move { item_id, to_index } => match item_place(items, item_id) {
            Some(place) => "move queue item #"@ + decimal((place + 1) as nat) + " to #"@ + decimal(
                (to_index + 1) as nat,
            ),
            None => "move queue item to #"@ + decimal((to_index + 1) as nat),
        },
    }
}

/// The votes that it takes: more than half of the connected peers and this one.
pub open spec fn majority(at: WorldModel) -> nat {
    ((at.connected.len() + 1) / 2 + 1) as nat
}

/// What is shown of a vote: what it is about, by whom, how it stands and what it takes.
pub open spec fn vote_seen(
    vote: ActiveVoteModel,
    items: Seq<QueueItemModel>,
    at: WorldModel,
) -> EffectModel {
    EffectModel::Ui(
        UiEventModel::Vote(
            Some(
                VoteViewModel {
                    vote_id: vote.proposal.vote_id,
                    proposer: vote.proposal.proposer,
                    action_label: in_words(vote.proposal.action, items),
                    approvals: vote.approvals.len() as usize,
                    rejections: vote.rejections.len() as usize,
                    threshold: majority(at) as usize,
                },
            ),
        ),
    )
}

/// A vote that was proposed here is open, shown, and passes at once if that is enough.
#[verifier::rlimit(60)]
pub proof fn a_proposed_vote_is_open(
    session: SessionModel,
    vote: ActiveVoteModel,
    outcome: OutcomeModel,
    fresh: Seq<char>,
    at: WorldModel,
)
    requires
        at.connected.len() < usize::MAX,
    ensures
        ({
            let step = session.run(TaskModel::OpenVote { vote: vote }, outcome, fresh, at);
            &&& step.after == (SessionModel {
                vote: Some(vote),
                agenda: seq![TaskModel::ResolveVote] + session.agenda,
                ..session
            })
            &&& step.effects == seq![
                vote_seen(vote, session.queue.items, at),
                said(
                    "started vote: "@ + in_words(vote.proposal.action, session.queue.items) + " ("@
                        + decimal(vote.approvals.len()) + "/"@ + decimal(majority(at)) + ")"@,
                ),
            ]
        }),
{
}

/// A ballot of a peer was counted in place of an earlier one of that peer, and nothing else of the
/// vote has changed.
pub open spec fn is_counted(
    before: ActiveVoteModel,
    after: ActiveVoteModel,
    peer: Seq<char>,
    approve: bool,
) -> bool {
    &&& after.proposal == before.proposal
    &&& after.deadline == before.deadline
    &&& after.approvals.contains(peer) == approve
    &&& after.rejections.contains(peer) == !approve
    &&& forall|other: Seq<char>|
        other != peer ==> (#[trigger] after.approvals.contains(other)
            == before.approvals.contains(other))
    &&& forall|other: Seq<char>|
        other != peer ==> (#[trigger] after.rejections.contains(other)
            == before.rejections.contains(other))
}

proof fn ballots_are_counted(vote: ActiveVoteModel, peer: Seq<char>, approve: bool)
    requires
        vote.approvals.no_duplicates(),
        vote.rejections.no_duplicates(),
    ensures
        is_counted(vote, vote.with_ballot(peer, approve), peer, approve),
{
    let after = vote.with_ballot(peer, approve);
    one_more(vote.approvals, peer, peer);
    one_less(vote.approvals, peer, peer);
    one_more(vote.rejections, peer, peer);
    one_less(vote.rejections, peer, peer);
    assert forall|other: Seq<char>| other != peer implies (#[trigger] after.approvals.contains(
        other,
    ) == vote.approvals.contains(other)) by {
        one_more(vote.approvals, peer, other);
        one_less(vote.approvals, peer, other);
    }
    assert forall|other: Seq<char>| other != peer implies (#[trigger] after.rejections.contains(
        other,
    ) == vote.rejections.contains(other)) by {
        one_more(vote.rejections, peer, other);
        one_less(vote.rejections, peer, other);
    }
}

/// The user's ballot on the open vote is counted as the user cast it and sent to the peers; then it
/// is seen whether the vote has passed. Without a vote there is nothing to vote on.
#[verifier::rlimit(60)]
pub proof fn the_users_ballot_is_counted_and_sent(
    session: SessionModel,
    approve: bool,
    fresh: Seq<char>,
    at: WorldModel,
)
    requires
        at.connected.len() < usize::MAX,
        session.vote is Some ==> session.vote->0.approvals.no_duplicates(),
        session.vote is Some ==> session.vote->0.rejections.no_duplicates(),
    ensures
        ({
            let step = session.command(NetworkCommandModel::Vote(approve), fresh, at);
            let vote = session.vote->0;
            let after = step.after.vote->0;
            &&& session.vote is None ==> step.after == session && step.effects == seq![
                said("no active vote"@),
            ]
            &&& session.vote is Some ==> {
                &&& step.after.vote is Some
                &&& is_counted(vote, after, session.local, approve)
                &&& step.after == (SessionModel {
                    vote: Some(after),
                    agenda: seq![TaskModel::ResolveVote] + session.agenda,
                    ..session
                })
                &&& step.effects == seq![
                    EffectModel::Publish(
                        WireMessageModel::VoteBallot {
                            vote_id: vote.proposal.vote_id,
                            peer_id: session.local,
                            approve: approve,
                        },
                    ),
                    said(
                        "voted "@ + (if approve {
                            "yes"@
                        } else {
                            "no"@
                        }) + " on "@ + vote.proposal.vote_id,
                    ),
                    vote_seen(after, session.queue.items, at),
                ]
            }
        }),
{
    if let Some(vote) = session.vote {
        ballots_are_counted(vote, session.local, approve);
    }
}

/// The ballot of a peer counts as it was cast if it is for the open vote, and for nothing if not.
/// In any case it is then seen whether the vote has passed.
#[verifier::rlimit(80)]
pub proof fn the_ballots_of_peers_are_counted(
    session: SessionModel,
    source: Seq<char>,
    vote_id: Seq<char>,
    peer: Seq<char>,
    approve: bool,
    fresh: Seq<char>,
    at: WorldModel,
)
    requires
        at.connected.len() < usize::MAX,
        session.vote is Some ==> session.vote->0.approvals.no_duplicates(),
        session.vote is Some ==> session.vote->0.rejections.no_duplicates(),
    ensures
        ({
            let message = WireMessageModel::VoteBallot {
                vote_id: vote_id,
                peer_id: peer,
                approve: approve,
            };
            let step = session.hear(source, message, fresh, at);
            let vote = session.vote->0;
            let after = step.after.vote->0;
            let counts = session.vote is Some && vote.proposal.vote_id == vote_id;
            &&& step.after == (SessionModel {
                vote: step.after.vote,
                agenda: seq![
                    TaskModel::ResolveVote,
                    told_at_length("vote execution failed: "@),
                ] + session.agenda,
                ..session
            })
            &&& !counts ==> step.after.vote == session.vote && step.effects.len() == 0
            &&& counts ==> {
                &&& step.after.vote is Some
                &&& is_counted(vote, after, peer, approve)
                &&& step.effects == seq![
                    said(
                        "vote "@ + vote_id + ": "@ + (if approve {
                            "yes"@
                        } else {
                            "no"@
                        }) + " from "@ + shortened(peer) + " ("@ + decimal(after.approvals.len())
                            + "/"@ + decimal(majority(at)) + ")"@,
                    ),
                    vote_seen(after, session.queue.items, at),
                ]
            }
        }),
{
    assert(shortened(peer) =~= crate::text::short_peer_text(peer));
    if let Some(vote) = session.vote {
        ballots_are_counted(vote, peer, approve);
    }
}

/// A vote that another peer proposes is open here too, with the approval of its proposer, for twenty
/// seconds, unless there is one already. This peer's own proposals are not heard again.
#[verifier::rlimit(80)]
pub proof fn a_proposal_of_a_peer_is_open(
    session: SessionModel,
    source: Seq<char>,
    proposal: VoteProposalModel,
    fresh: Seq<char>,
    at: WorldModel,
)
    requires
        at.now.in_range(),
        at.connected.len() < usize::MAX,
    ensures
        ({
            let message = WireMessageModel::VoteProposal { proposal: proposal };
            let step = session.hear(source, message, fresh, at);
            let vote = step.after.vote->0;
            if proposal.proposer == session.local {
                step.after == session && step.effects.len() == 0
            } else if session.vote is Some {
                step.after == session && step.effects == seq![
                    said("ignored vote "@ + proposal.vote_id + "; another vote is active"@),
                ]
            } else {
                &&& step.after == (SessionModel { vote: step.after.vote, ..session })
                &&& step.after.vote is Some
                &&& vote.proposal == proposal
                &&& vote.approvals == seq![proposal.proposer]
                &&& vote.rejections.len() == 0
                &&& vote.deadline == at.now.mono_nanos + 20_000_000_000
                &&& step.effects == seq![
                    vote_seen(vote, session.queue.items, at),
                    said(
                        "vote requested by "@ + shortened(proposal.proposer) + ": "@ + in_words(
                            proposal.action,
                            session.queue.items,
                        ) + " (/vote yes|no)"@,
                    ),
                ]
            }
        }),
{
    assert(shortened(proposal.proposer) =~= crate::text::short_peer_text(proposal.proposer));
    crate::laws::votes::a_vote_begins_with_its_proposer(
        proposal,
        (at.now.mono_nanos + 20_000_000_000) as u64,
    );
}

/// What a vote was about has changed since it was proposed: the queue, for a vote on the queue, else
/// the playback.
pub open spec fn has_changed(proposal: VoteProposalModel, session: SessionModel) -> bool {
    if proposal.action is Remove || proposal.action is Move {
        proposal.queue_version != session.queue.version
    } else {
        proposal.playback_session_id != if session.playback is Some
            && session.playback->0.track is Some {
            Some(session.playback->0.session_id)
        } else {
            None
        }
    }
}

/// The peer whose turn it is to carry out a vote: the proposer for a vote on the queue, else the one
/// who asked for the track.
pub open spec fn is_its_turn(proposal: VoteProposalModel, session: SessionModel) -> bool {
    if proposal.action is Remove || proposal.action is Move {
        proposal.proposer == session.local
    } else {
        is_own(session)
    }
}

/// A vote passes as soon as more than half of the connected peers and this one approve, and not
/// before. Then it is closed; it is carried out here if it is this peer's turn and nothing has
/// changed, and it is told if something has.
#[verifier::rlimit(80)]
pub proof fn more_than_half_decide(
    session: SessionModel,
    outcome: OutcomeModel,
    fresh: Seq<char>,
    at: WorldModel,
)
    requires
        at.connected.len() < usize::MAX,
    ensures
        ({
            let step = session.run(TaskModel::ResolveVote, outcome, fresh, at);
            let vote = session.vote->0;
            let proposal = vote.proposal;
            let passed = session.vote is Some && 2 * vote.approvals.len() > at.connected.len() + 1;
            let news = seq![
                EffectModel::Ui(UiEventModel::Vote(None)),
                said("vote passed: "@ + in_words(proposal.action, session.queue.items)),
            ];
            &&& !passed ==> step.after == session && step.effects.len() == 0
            &&& passed ==> {
                &&& step.after == (SessionModel {
                    vote: None,
                    agenda: (if !has_changed(proposal, session) && is_its_turn(proposal, session) {
                        seq![TaskModel::ExecuteVote { action: proposal.action }]
                    } else {
                        Seq::empty()
                    }) + session.agenda,
                    ..session
                })
                &&& !has_changed(proposal, session) ==> step.effects == news
                &&& has_changed(proposal, session) ==> step.effects == news.push(
                    said(
                        if proposal.action is Remove || proposal.action is Move {
                            "vote discarded: "@ + "queue changed during vote"@
                        } else {
                            "vote discarded: "@ + "playback changed during vote"@
                        },
                    ),
                )
            }
        }),
{
    assert(Seq::<TaskModel>::empty() + session.agenda =~= session.agenda);
}

/// A vote is closed without effect once its time is over, and not before.
#[verifier::rlimit(60)]
pub proof fn a_vote_ends_with_its_time(session: SessionModel, at: WorldModel)
    requires
        session.vote is Some,
    ensures
        ({
            let step = session.tick(Tick::Music, at);
            let vote = session.vote->0;
            &&& at.now.mono_nanos >= vote.deadline ==> {
                &&& step.after.vote is None
                &&& step.effects == seq![
                    said("vote "@ + vote.proposal.vote_id + " timed out"@),
                    EffectModel::Ui(UiEventModel::Vote(None)),
                ]
            }
            &&& at.now.mono_nanos < vote.deadline ==> {
                &&& step.after.vote == session.vote
                &&& step.effects.len() == 0
            }
            &&& step.after == (SessionModel {
                vote: step.after.vote,
                agenda: step.after.agenda,
                ..session
            })
            &&& step.after.agenda == seq![
                TaskModel::ResolveVote,
                told_at_length("vote execution failed: "@),
                TaskModel::MaybeStart,
                told_at_length("playback prepare failed: "@),
                TaskModel::SyncPlayer,
            ] + session.agenda
        }),
{
}

} // verus!
