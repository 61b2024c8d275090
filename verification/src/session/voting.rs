//! Proposing, casting and carrying out votes.
use crate::collections::{deep, group_deep};
use crate::effect::{Effect, EffectModel, Task, TaskModel, World, WorldModel};
use crate::model::{
    UiEvent, UiEventModel, VoteAction, VoteActionModel, VoteProposal, VoteProposalModel, WireMessage,
    WireMessageModel,
};
use crate::queue::{find_item, item_place, move_item};
use crate::session::{
    guard_fully, guarded_fully, just, nothing, tell, telling, threshold, votes_needed, Session,
    SessionModel, Step,
};
use crate::text::{decimal, decimal_text, short_peer, short_peer_text};
use crate::time::VOTE_TIMEOUT;
use crate::vote::{
    action_text, ballot_text, ballot_word, describe_vote_action, executes, ordinal_text,
    should_execute_vote_locally, stale_reason, stale_vote_reason, view_vote, vote_view, ActiveVote,
    ActiveVoteModel,
};
use vstd::prelude::*;
use vstd::string::*;

verus! {

impl SessionModel {
    /// What is shown of the vote.
    pub open spec fn vote_shown(self, at: WorldModel) -> EffectModel {
        EffectModel::Ui(
            UiEventModel::Vote(
                match self.vote {
                    Some(vote) => Some(vote_view(vote, self.queue.items, threshold(at))),
                    None => None,
                },
            ),
        )
    }

    /// A vote in words.
    pub open spec fn action_words(self, action: VoteActionModel) -> Seq<char> {
        action_text(action, self.queue.items)
    }

    /// A proposal of this peer, with the identifier `vote_id`.
    pub open spec fn proposal(
        self,
        action: VoteActionModel,
        vote_id: Seq<char>,
        at: WorldModel,
    ) -> VoteProposalModel {
        VoteProposalModel {
            vote_id: vote_id,
            proposer: self.local,
            action: action,
            queue_version: self.queue.version,
            playback_session_id: match self.playback {
                Some(state) => Some(state.session_id),
                None => None,
            },
            created_at_micros: at.now.wall_micros,
        }
    }

    /// The ballot of this peer.
    pub open spec fn ballot(self, vote_id: Seq<char>, approve: bool) -> EffectModel {
        EffectModel::Publish(
            WireMessageModel::VoteBallot { vote_id: vote_id, peer_id: self.local, approve: approve },
        )
    }

    /// This peer asks the others to vote, unless there is a vote already.
    pub open spec fn propose(
        self,
        action: VoteActionModel,
        vote_id: Seq<char>,
        at: WorldModel,
    ) -> Step {
        let proposal = self.proposal(action, vote_id, at);
        let vote = ActiveVoteModel::proposed(
            proposal,
            (at.now.mono_nanos + VOTE_TIMEOUT) as u64,
        );
        if self.vote is Some {
            self.saying("another vote is already active"@)
        } else {
            self.deferring(seq![TaskModel::OpenVote { vote: vote }]).asking(
                seq![
                    EffectModel::Publish(WireMessageModel::VoteProposal { proposal: proposal }),
                    self.ballot(vote_id, true),
                ],
            )
        }
    }

    /// The vote of this peer is open.
    pub open spec fn open_vote(self, vote: ActiveVoteModel, at: WorldModel) -> Step {
        let after = SessionModel { vote: Some(vote), ..self };
        after.deferring(seq![TaskModel::ResolveVote]).asking(
            seq![
                after.vote_shown(at),
                telling(
                    "started vote: "@ + self.action_words(vote.proposal.action) + " ("@ + decimal(
                        vote.approvals.len(),
                    ) + "/"@ + decimal(threshold(at) as nat) + ")"@,
                ),
            ],
        )
    }

    /// The user votes.
    pub open spec fn cast(self, approve: bool, at: WorldModel) -> Step {
        match self.vote {
            Some(vote) => {
                let after = SessionModel {
                    vote: Some(vote.with_ballot(self.local, approve)),
                    ..self
                };
                after.deferring(seq![TaskModel::ResolveVote]).asking(
                    seq![
                        self.ballot(vote.proposal.vote_id, approve),
                        telling(
                            "voted "@ + ballot_text(approve) + " on "@ + vote.proposal.vote_id,
                        ),
                        after.vote_shown(at),
                    ],
                )
            },
            None => self.saying("no active vote"@),
        }
    }

    /// A vote that has enough approvals is closed, and carried out by the one peer whose turn it
    /// is, unless what it is about has changed since.
    pub open spec fn resolve_vote(self, at: WorldModel) -> Step {
        match self.vote {
            Some(vote) => if vote.approvals.len() >= threshold(at) {
                let after = SessionModel { vote: None, ..self };
                let news = seq![
                    EffectModel::Ui(UiEventModel::Vote(None)),
                    telling("vote passed: "@ + self.action_words(vote.proposal.action)),
                ];
                match stale_reason(vote.proposal, self.queue.version, self.playback) {
                    Some(reason) => after.asking(
                        news.push(telling("vote discarded: "@ + reason)),
                    ),
                    None => if executes(vote.proposal, self.playback, self.local) {
                        after.deferring(
                            seq![TaskModel::ExecuteVote { action: vote.proposal.action }],
                        ).asking(news)
                    } else {
                        after.asking(news)
                    },
                }
            } else {
                self.stay()
            },
            None => self.stay(),
        }
    }

    /// An item leaves the queue by a vote.
    pub open spec fn remove_by_vote(self, item_id: Seq<char>, at: WorldModel) -> Step {
        match item_place(self.queue.items, item_id) {
            Some(place) => {
                let after = SessionModel {
                    queue: self.queue.changed(self.queue.items.remove(place), at.now.wall_micros),
                    ..self
                };
                after.asking(
                    seq![
                        after.queue_message(),
                        after.queue_view(),
                        telling("removed "@ + self.queue.items[place].track.title),
                    ],
                )
            },
            None => self.stay(),
        }
    }

    /// An item goes to another place of the queue by a vote, or to its end.
    pub open spec fn move_by_vote(self, item_id: Seq<char>, to_index: usize, at: WorldModel) -> Step {
        match item_place(self.queue.items, item_id) {
            Some(place) => {
                let after = SessionModel {
                    queue: self.queue.changed(
                        move_item(self.queue.items, place, to_index as int),
                        at.now.wall_micros,
                    ),
                    ..self
                };
                let last = self.queue.items.len() - 1;
                after.asking(
                    seq![
                        after.queue_message(),
                        after.queue_view(),
                        telling(
                            "moved queue item to #"@ + decimal(
                                (if to_index < last {
                                    to_index as int
                                } else {
                                    last
                                } + 1) as nat,
                            ),
                        ),
                    ],
                )
            },
            None => self.stay(),
        }
    }

    /// What a vote counts up if it is carried out can be counted up.
    pub open spec fn can_execute(self, action: VoteActionModel) -> bool {
        match action {
            VoteActionModel::Pause => self.playback is Some ==> self.can_issue(),
            VoteActionModel::Resume => self.playback is Some ==> self.can_issue(),
            VoteActionModel::Skip => true,
            VoteActionModel::Seek { .. } => self.playback is Some ==> self.can_issue(),
            VoteActionModel::Remove { item_id } => item_place(self.queue.items, item_id) is Some
                ==> self.can_change_queue(),
            VoteActionModel::Move { item_id, .. } => item_place(self.queue.items, item_id) is Some
                ==> self.can_change_queue(),
        }
    }

    /// A vote is carried out.
    pub open spec fn execute_vote(self, action: VoteActionModel, at: WorldModel) -> Step {
        match action {
            VoteActionModel::Pause => if self.playback is Some {
                self.play_or_hold_by_vote(false, at)
            } else {
                self.stay()
            },
            VoteActionModel::Resume => if self.playback is Some {
                self.play_or_hold_by_vote(true, at)
            } else {
                self.stay()
            },
            VoteActionModel::Skip => self.skip_current(),
            VoteActionModel::Seek { position_ms } => if self.playback is Some {
                self.seek_by_vote(position_ms, at)
            } else {
                self.stay()
            },
            VoteActionModel::Remove { item_id } => self.remove_by_vote(item_id, at),
            VoteActionModel::Move { item_id, to_index } => self.move_by_vote(item_id, to_index, at),
        }
    }

    /// A peer asks to vote, which it may unless there is a vote already.
    pub open spec fn hear_vote_proposal(self, proposal: VoteProposalModel, at: WorldModel) -> Step {
        if proposal.proposer == self.local {
            self.stay()
        } else if self.vote is Some {
            self.saying("ignored vote "@ + proposal.vote_id + "; another vote is active"@)
        } else {
            let after = SessionModel {
                vote: Some(
                    ActiveVoteModel::proposed(
                        proposal,
                        (at.now.mono_nanos + VOTE_TIMEOUT) as u64,
                    ),
                ),
                ..self
            };
            after.asking(
                seq![
                    after.vote_shown(at),
                    telling(
                        "vote requested by "@ + short_peer_text(proposal.proposer) + ": "@
                            + self.action_words(proposal.action) + " (/vote yes|no)"@,
                    ),
                ],
            )
        }
    }

    /// The ballot of a peer has come. It counts if it is for the current vote.
    pub open spec fn hear_vote_ballot(
        self,
        vote_id: Seq<char>,
        peer_id: Seq<char>,
        approve: bool,
        at: WorldModel,
    ) -> Step {
        let tasks = seq![TaskModel::ResolveVote, guard_fully("vote execution failed: "@)];
        if self.vote is Some && self.vote->0.proposal.vote_id == vote_id {
            let vote = self.vote->0.with_ballot(peer_id, approve);
            let after = SessionModel { vote: Some(vote), ..self };
            after.deferring(tasks).asking(
                seq![
                    telling(
                        "vote "@ + vote_id + ": "@ + ballot_text(approve) + " from "@
                            + short_peer_text(peer_id) + " ("@ + decimal(vote.approvals.len())
                            + "/"@ + decimal(threshold(at) as nat) + ")"@,
                    ),
                    after.vote_shown(at),
                ],
            )
        } else {
            self.deferring(tasks).stay()
        }
    }

    /// A vote whose time is over is closed.
    pub open spec fn expire_vote(self, at: WorldModel) -> Step {
        match self.vote {
            Some(vote) => if at.now.mono_nanos >= vote.deadline {
                SessionModel { vote: None, ..self }.asking(
                    seq![
                        telling("vote "@ + vote.proposal.vote_id + " timed out"@),
                        EffectModel::Ui(UiEventModel::Vote(None)),
                    ],
                )
            } else {
                self.stay()
            },
            None => self.stay(),
        }
    }
}

impl Session {
    /// Shows the vote to the user.
    pub fn send_vote_view(&self, at: &World) -> (effect: Effect)
        requires
            at.in_range(),
        ensures
            effect@ == self@.vote_shown(at@),
    {
        Effect::Ui(
            UiEvent::Vote(
                match &self.vote {
                    Some(vote) => Some(view_vote(vote, &self.queue.items, votes_needed(at))),
                    None => None,
                },
            ),
        )
    }

    /// Sends the ballot of this peer.
    pub fn publish_vote_ballot(&self, vote_id: String, approve: bool) -> (effect: Effect)
        ensures
            effect@ == self@.ballot(vote_id@, approve),
    {
        Effect::Publish(
            WireMessage::VoteBallot { vote_id, peer_id: self.local.to_text(), approve },
        )
    }

    /// Asks the peers to vote, unless there is a vote already.
    pub fn propose_or_execute_vote(&mut self, action: VoteAction, vote_id: String, at: &World) -> (
    effects: Vec<Effect>)
        requires
            at.in_range(),
        ensures
            (Step { after: final(self)@, effects: deep(effects@) }) == old(self)@.propose(
                action@,
                vote_id@,
                at@,
            ),
    {
        if self.vote.is_some() {
            return just(tell("another vote is already active".to_owned()));
        }
        let proposal = VoteProposal {
            vote_id: vote_id.clone(),
            proposer: self.local.to_text(),
            action,
            queue_version: self.queue.version,
            playback_session_id: match &self.playback {
                Some(state) => Some(state.session_id.clone()),
                None => None,
            },
            created_at_micros: at.now.wall_micros,
        };
        let mut vote = ActiveVote::new(proposal.clone(), at.now.mono_nanos + VOTE_TIMEOUT);
        vote.vote(self.local.as_str(), true);
        let effects = vec![
            Effect::Publish(WireMessage::VoteProposal { proposal }),
            self.publish_vote_ballot(vote_id, true),
        ];
        self.defer(vec![Task::OpenVote { vote }]);
        assert(deep(effects@) =~= old(self)@.propose(action@, vote_id@, at@).effects);
        effects
    }

    /// Opens the vote of this peer.
    pub fn open_vote(&mut self, vote: ActiveVote, at: &World) -> (effects: Vec<Effect>)
        requires
            at.in_range(),
        ensures
            (Step { after: final(self)@, effects: deep(effects@) }) == old(self)@.open_vote(
                vote@,
                at@,
            ),
    {
        let words = describe_vote_action(&vote.proposal.action, &self.queue.items);
        let approvals: usize = vote.approval_count();
        self.vote = Some(vote);
        let started = "started vote: ".to_owned().concat(words.as_str()).concat(" (").concat(
            decimal_text(approvals as u128).as_str(),
        ).concat("/").concat(decimal_text(votes_needed(at) as u128).as_str()).concat(")");
        let effects = vec![self.send_vote_view(at), tell(started)];
        self.defer(vec![Task::ResolveVote]);
        assert(deep(effects@) =~= old(self)@.open_vote(vote@, at@).effects);
        effects
    }

    /// Takes the user's vote.
    pub fn cast_vote(&mut self, approve: bool, at: &World) -> (effects: Vec<Effect>)
        requires
            at.in_range(),
        ensures
            (Step { after: final(self)@, effects: deep(effects@) }) == old(self)@.cast(
                approve,
                at@,
            ),
    {
        let mut vote = match self.vote.take() {
            Some(vote) => vote,
            None => return just(tell("no active vote".to_owned())),
        };
        vote.vote(self.local.as_str(), approve);
        let vote_id = vote.proposal.vote_id.clone();
        self.vote = Some(vote);
        let voted = "voted ".to_owned().concat(ballot_word(approve)).concat(" on ").concat(
            vote_id.as_str(),
        );
        let effects = vec![
            self.publish_vote_ballot(vote_id, approve),
            tell(voted),
            self.send_vote_view(at),
        ];
        self.defer(vec![Task::ResolveVote]);
        assert(deep(effects@) =~= old(self)@.cast(approve, at@).effects);
        effects
    }

    /// Closes and carries out the vote if it has enough approvals.
    pub fn resolve_active_vote(&mut self, at: &World) -> (effects: Vec<Effect>)
        requires
            at.in_range(),
        ensures
            (Step { after: final(self)@, effects: deep(effects@) }) == old(self)@.resolve_vote(
                at@,
            ),
    {
        broadcast use group_deep;

        let vote = match self.vote.take() {
            Some(vote) => vote,
            None => return nothing(),
        };
        if vote.approval_count() < votes_needed(at) {
            self.vote = Some(vote);
            return nothing();
        }
        let words = describe_vote_action(&vote.proposal.action, &self.queue.items);
        let mut effects = vec![
            Effect::Ui(UiEvent::Vote(None)),
            tell("vote passed: ".to_owned().concat(words.as_str())),
        ];
        assert(deep(effects@) =~= seq![
            EffectModel::Ui(UiEventModel::Vote(None)),
            telling("vote passed: "@ + old(self)@.action_words(vote@.proposal.action)),
        ]);
        match stale_vote_reason(&vote.proposal, self.queue.version, &self.playback) {
            Some(reason) => {
                effects.push(tell("vote discarded: ".to_owned().concat(reason)));
            },
            None => {
                if should_execute_vote_locally(
                    &vote.proposal,
                    &self.playback,
                    self.local.as_str(),
                ) {
                    self.defer(vec![Task::ExecuteVote { action: vote.proposal.action }]);
                }
            },
        }
        effects
    }

    fn remove_by_vote(&mut self, item_id: &str, at: &World) -> (effects: Vec<Effect>)
        requires
            item_place(old(self)@.queue.items, item_id@) is Some ==> old(self)@.can_change_queue(),
        ensures
            (Step { after: final(self)@, effects: deep(effects@) }) == old(self)@.remove_by_vote(
                item_id@,
                at@,
            ),
    {
        match find_item(&self.queue.items, item_id) {
            Some(place) => {
                let item = self.queue.remove_at(place, at.now.wall_micros);
                let effects = vec![
                    self.publish_queue(),
                    self.show_queue(),
                    tell("removed ".to_owned().concat(item.track.title.as_str())),
                ];
                assert(deep(effects@) =~= old(self)@.remove_by_vote(item_id@, at@).effects);
                effects
            },
            None => nothing(),
        }
    }

    fn move_by_vote(&mut self, item_id: &str, to_index: usize, at: &World) -> (effects: Vec<Effect>)
        requires
            item_place(old(self)@.queue.items, item_id@) is Some ==> old(self)@.can_change_queue(),
        ensures
            (Step { after: final(self)@, effects: deep(effects@) }) == old(self)@.move_by_vote(
                item_id@,
                to_index,
                at@,
            ),
    {
        match find_item(&self.queue.items, item_id) {
            Some(place) => {
                let moved: usize = self.queue.move_to(place, to_index, at.now.wall_micros);
                let effects = vec![
                    self.publish_queue(),
                    self.show_queue(),
                    tell("moved queue item to #".to_owned().concat(ordinal_text(moved).as_str())),
                ];
                assert(deep(effects@) =~= old(self)@.move_by_vote(
                    item_id@,
                    to_index,
                    at@,
                ).effects);
                effects
            },
            None => nothing(),
        }
    }

    /// Whether what a vote counts up if it is carried out can be counted up.
    pub fn can_execute(&self, action: &VoteAction) -> (can: bool)
        ensures
            can == self@.can_execute(action@),
    {
        match action {
            VoteAction::Pause => self.playback.is_none() || self.can_issue(),
            VoteAction::Resume => self.playback.is_none() || self.can_issue(),
            VoteAction::Skip => true,
            VoteAction::Seek { .. } => self.playback.is_none() || self.can_issue(),
            VoteAction::Remove { item_id } => find_item(
                &self.queue.items,
                item_id.as_str(),
            ).is_none() || self.can_change_queue(),
            VoteAction::Move { item_id, .. } => find_item(
                &self.queue.items,
                item_id.as_str(),
            ).is_none() || self.can_change_queue(),
        }
    }

    /// Carries out a vote.
    pub fn execute_vote_action(&mut self, action: VoteAction, at: &World) -> (effects: Vec<Effect>)
        requires
            old(self)@.can_execute(action@),
        ensures
            (Step { after: final(self)@, effects: deep(effects@) }) == old(self)@.execute_vote(
                action@,
                at@,
            ),
    {
        match action {
            VoteAction::Pause => if self.playback.is_some() {
                self.play_or_hold_by_vote(false, at)
            } else {
                nothing()
            },
            VoteAction::Resume => if self.playback.is_some() {
                self.play_or_hold_by_vote(true, at)
            } else {
                nothing()
            },
            VoteAction::Skip => self.skip_current_track(),
            VoteAction::Seek { position_ms } => if self.playback.is_some() {
                self.seek_by_vote(position_ms, at)
            } else {
                nothing()
            },
            VoteAction::Remove { item_id } => self.remove_by_vote(item_id.as_str(), at),
            VoteAction::Move { item_id, to_index } => self.move_by_vote(
                item_id.as_str(),
                to_index,
                at,
            ),
        }
    }

    /// A peer asks to vote.
    pub fn hear_vote_proposal(&mut self, proposal: VoteProposal, at: &World) -> (effects: Vec<
        Effect,
    >)
        requires
            at.in_range(),
        ensures
            (Step { after: final(self)@, effects: deep(effects@) })
                == old(self)@.hear_vote_proposal(proposal@, at@),
    {
        if proposal.proposer == self.local.to_text() {
            return nothing();
        }
        if self.vote.is_some() {
            return just(
                tell(
                    "ignored vote ".to_owned().concat(proposal.vote_id.as_str()).concat(
                        "; another vote is active",
                    ),
                ),
            );
        }
        let words = describe_vote_action(&proposal.action, &self.queue.items);
        let requested = "vote requested by ".to_owned().concat(
            short_peer(proposal.proposer.as_str()).as_str(),
        ).concat(": ").concat(words.as_str()).concat(" (/vote yes|no)");
        let proposer = proposal.proposer.clone();
        let mut vote = ActiveVote::new(proposal, at.now.mono_nanos + VOTE_TIMEOUT);
        vote.vote(proposer.as_str(), true);
        self.vote = Some(vote);
        let effects = vec![self.send_vote_view(at), tell(requested)];
        assert(deep(effects@) =~= old(self)@.hear_vote_proposal(proposal@, at@).effects);
        effects
    }

    /// The ballot of a peer has come.
    pub fn hear_vote_ballot(&mut self, vote_id: &String, peer_id: &str, approve: bool, at: &World) -> (
    effects: Vec<Effect>)
        requires
            at.in_range(),
        ensures
            (Step { after: final(self)@, effects: deep(effects@) }) == old(self)@.hear_vote_ballot(
                vote_id@,
                peer_id@,
                approve,
                at@,
            ),
    {
        let mut effects = nothing();
        if let Some(mut vote) = self.vote.take() {
            let current: bool = vote.proposal.vote_id == *vote_id;
            if current {
                vote.vote(peer_id, approve);
            }
            let approvals: usize = vote.approval_count();
            self.vote = Some(vote);
            if current {
                let counted = "vote ".to_owned().concat(vote_id.as_str()).concat(": ").concat(
                    ballot_word(approve),
                ).concat(" from ").concat(short_peer(peer_id).as_str()).concat(" (").concat(
                    decimal_text(approvals as u128).as_str(),
                ).concat("/").concat(decimal_text(votes_needed(at) as u128).as_str()).concat(")");
                effects = vec![tell(counted), self.send_vote_view(at)];
            }
        }
        let tasks = vec![Task::ResolveVote, guarded_fully("vote execution failed: ")];
        assert(deep(tasks@) =~= seq![
            TaskModel::ResolveVote,
            guard_fully("vote execution failed: "@),
        ]);
        self.defer(tasks);
        assert(deep(effects@) =~= old(self)@.hear_vote_ballot(
            vote_id@,
            peer_id@,
            approve,
            at@,
        ).effects);
        effects
    }

    /// Closes the vote if its time is over.
    pub fn expire_vote(&mut self, at: &World) -> (effects: Vec<Effect>)
        ensures
            (Step { after: final(self)@, effects: deep(effects@) }) == old(self)@.expire_vote(at@),
    {
        let vote = match self.vote.take() {
            Some(vote) => vote,
            None => return nothing(),
        };
        if at.now.mono_nanos < vote.deadline {
            self.vote = Some(vote);
            return nothing();
        }
        let effects = vec![
            tell(
                "vote ".to_owned().concat(vote.proposal.vote_id.as_str()).concat(" timed out"),
            ),
            Effect::Ui(UiEvent::Vote(None)),
        ];
        assert(deep(effects@) =~= old(self)@.expire_vote(at@).effects);
        effects
    }
}

} // verus!
