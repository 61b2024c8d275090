//! What the user asks for.
use crate::collections::{deep, group_deep};
use crate::effect::{Effect, EffectModel, Task, TaskModel, World, WorldModel};
use crate::model::{NetworkCommand, NetworkCommandModel, VoteAction, VoteActionModel};
use crate::peer::{is_message_id, is_vote_id, new_message_id, new_vote_id};
use crate::playback::{can_control_playback, controls};
use crate::queue::queue_item_at;
use crate::session::music::{queue_status, send_queue_status};
use crate::session::{just, nothing, tell, telling, Session, SessionModel, Step};
use crate::text::{decimal, decimal_text};
use vstd::prelude::*;
use vstd::string::*;

verus! {

/// The position before one that is counted from one.
pub open spec fn from_zero(position: usize) -> usize {
    if position == 0 {
        0
    } else {
        (position - 1) as usize
    }
}

impl SessionModel {
    /// A command that the user may give without a vote is carried out, else it is voted on.
    pub open spec fn control(
        self,
        step: Step,
        action: VoteActionModel,
        vote_id: Seq<char>,
        at: WorldModel,
    ) -> Step {
        match self.playback {
            Some(state) => if controls(state, self.local) {
                step
            } else {
                self.propose(action, vote_id, at)
            },
            None => self.stay(),
        }
    }

    /// There is an item at a position counted from one.
    pub open spec fn is_queued(self, index: usize) -> bool {
        1 <= index <= self.queue.items.len()
    }

    /// The user takes an item out of the queue: alone if the user asked for it, else by a vote.
    pub open spec fn remove_item(self, index: usize, vote_id: Seq<char>, at: WorldModel) -> Step {
        if self.is_queued(index) {
            let item = self.queue.items[index - 1];
            if item.requested_by == self.local {
                let after = SessionModel {
                    queue: self.queue.changed(
                        self.queue.items.remove(index - 1),
                        at.now.wall_micros,
                    ),
                    ..self
                };
                after.asking(
                    seq![
                        after.queue_message(),
                        after.queue_view(),
                        telling("removed #"@ + decimal(index as nat) + ": "@ + item.track.title),
                    ],
                )
            } else {
                self.propose(VoteActionModel::Remove { item_id: item.item_id }, vote_id, at)
            }
        } else {
            self.saying("queue item #"@ + decimal(index as nat) + " does not exist"@)
        }
    }

    /// The user asks for a vote to move an item.
    pub open spec fn move_item(
        self,
        from: usize,
        to: usize,
        vote_id: Seq<char>,
        at: WorldModel,
    ) -> Step {
        if self.is_queued(from) {
            self.propose(
                VoteActionModel::Move {
                    item_id: self.queue.items[from - 1].item_id,
                    to_index: from_zero(to),
                },
                vote_id,
                at,
            )
        } else {
            self.saying("queue item #"@ + decimal(from as nat) + " does not exist"@)
        }
    }

    /// The user asks for a track.
    pub open spec fn enqueue(self, bvid: Seq<char>, part: usize, position: Option<usize>) -> Step {
        self.deferring(seq![TaskModel::TrackResolved { position: position }]).asking(
            seq![
                telling("resolving bilibili "@ + bvid + " part "@ + decimal(part as nat)),
                EffectModel::ResolveTrack { bvid: bvid, part: from_zero(part) },
            ],
        )
    }

    /// The user asks for something. `fresh` is the identifier of what the user writes or
    /// proposes.
    pub open spec fn command(
        self,
        command: NetworkCommandModel,
        fresh: Seq<char>,
        at: WorldModel,
    ) -> Step {
        match command {
            NetworkCommandModel::Chat(text) => self.write_chat(text, fresh, at),
            NetworkCommandModel::EnqueueBilibili { bvid, part, position } => self.enqueue(
                bvid,
                part,
                position,
            ),
            NetworkCommandModel::ShowQueue => self.asking(
                seq![self.queue_view()] + queue_status(self.playback, self.queue.items),
            ),
            NetworkCommandModel::Pause => self.control(
                self.play_or_hold(false, at),
                VoteActionModel::Pause,
                fresh,
                at,
            ),
            NetworkCommandModel::Resume => self.control(
                self.play_or_hold(true, at),
                VoteActionModel::Resume,
                fresh,
                at,
            ),
            NetworkCommandModel::Seek(position_ms) => self.control(
                self.seek(position_ms, at),
                VoteActionModel::Seek { position_ms: position_ms },
                fresh,
                at,
            ),
            NetworkCommandModel::Skip => if self.playback is Some && controls(
                self.playback->0,
                self.local,
            ) {
                self.skip_current()
            } else {
                self.propose(VoteActionModel::Skip, fresh, at)
            },
            NetworkCommandModel::RemoveQueueItem(index) => self.remove_item(index, fresh, at),
            NetworkCommandModel::MoveQueueItem { from, to } => self.move_item(from, to, fresh, at),
            NetworkCommandModel::Vote(approve) => self.cast(approve, at),
        }
    }

    /// The user may control what is played without a vote.
    pub open spec fn has_control(self) -> bool {
        self.playback is Some && controls(self.playback->0, self.local)
    }

    /// There is an item at a position counted from one, and the user asked for it.
    pub open spec fn owns_item(self, index: usize) -> bool {
        self.is_queued(index) && self.queue.items[index - 1].requested_by == self.local
    }

    /// A command makes a proposal: it needs a vote, and none is open.
    pub open spec fn proposes(self, command: NetworkCommandModel) -> bool {
        self.vote is None && match command {
            NetworkCommandModel::Pause => self.playback is Some && !self.has_control(),
            NetworkCommandModel::Resume => self.playback is Some && !self.has_control(),
            NetworkCommandModel::Seek(_) => self.playback is Some && !self.has_control(),
            NetworkCommandModel::Skip => !self.has_control(),
            NetworkCommandModel::RemoveQueueItem(index) => self.is_queued(index)
                && !self.owns_item(index),
            NetworkCommandModel::MoveQueueItem { from, .. } => self.is_queued(from),
            _ => false,
        }
    }

    /// What a command counts up can be counted up.
    pub open spec fn can_command(self, command: NetworkCommandModel) -> bool {
        match command {
            NetworkCommandModel::Chat(_) => self.message_seq < u64::MAX,
            NetworkCommandModel::Pause => self.has_control() ==> self.can_issue(),
            NetworkCommandModel::Resume => self.has_control() ==> self.can_issue(),
            NetworkCommandModel::Seek(_) => self.has_control() ==> self.can_issue(),
            NetworkCommandModel::RemoveQueueItem(index) => self.owns_item(index)
                ==> self.can_change_queue(),
            _ => true,
        }
    }

    /// The session once the identifier for a command is made: that of a proposal takes a digest.
    pub open spec fn numbering(self, command: NetworkCommandModel) -> SessionModel {
        if self.proposes(command) {
            self.with_digest()
        } else {
            self
        }
    }

    /// The identifier that is made for a command, empty if none is.
    pub open spec fn fresh_on_command(
        self,
        command: NetworkCommandModel,
        fresh: Seq<char>,
        at: WorldModel,
    ) -> bool {
        if self.proposes(command) {
            is_vote_id(fresh, self.local, at.now.wall_micros, self.nonce_seq)
        } else {
            match command {
                NetworkCommandModel::Chat(text) => is_message_id(
                    fresh,
                    self.local,
                    at.now.wall_micros,
                    (self.message_seq + 1) as u64,
                    text,
                ),
                _ => fresh == Seq::<char>::empty(),
            }
        }
    }
}

impl Session {
    fn remove_item(&mut self, index: usize, vote_id: String, at: &World) -> (effects: Vec<Effect>)
        requires
            old(self)@.owns_item(index) ==> old(self)@.can_change_queue(),
            at.in_range(),
        ensures
            (Step { after: final(self)@, effects: deep(effects@) }) == old(self)@.remove_item(
                index,
                vote_id@,
                at@,
            ),
    {
        let number = decimal_text(index as u128);
        let (own, item_id): (bool, String) = match queue_item_at(&self.queue.items, index) {
            Some(item) => (item.requested_by == self.local.to_text(), item.item_id.clone()),
            None => {
                return just(
                    tell(
                        "queue item #".to_owned().concat(number.as_str()).concat(
                            " does not exist",
                        ),
                    ),
                );
            },
        };
        if !own {
            return self.propose_or_execute_vote(VoteAction::Remove { item_id }, vote_id, at);
        }
        let item = self.queue.remove_at(index - 1, at.now.wall_micros);
        let removed = "removed #".to_owned().concat(number.as_str()).concat(": ").concat(
            item.track.title.as_str(),
        );
        let effects = vec![self.publish_queue(), self.show_queue(), tell(removed)];
        assert(deep(effects@) =~= old(self)@.remove_item(index, vote_id@, at@).effects);
        effects
    }

    fn move_item(&mut self, from: usize, to: usize, vote_id: String, at: &World) -> (effects: Vec<
        Effect,
    >)
        requires
            at.in_range(),
        ensures
            (Step { after: final(self)@, effects: deep(effects@) }) == old(self)@.move_item(
                from,
                to,
                vote_id@,
                at@,
            ),
    {
        let item_id = match queue_item_at(&self.queue.items, from) {
            Some(item) => item.item_id.clone(),
            None => {
                return just(
                    tell(
                        "queue item #".to_owned().concat(
                            decimal_text(from as u128).as_str(),
                        ).concat(" does not exist"),
                    ),
                );
            },
        };
        self.propose_or_execute_vote(
            VoteAction::Move { item_id, to_index: to.saturating_sub(1) },
            vote_id,
            at,
        )
    }

    fn enqueue(&mut self, bvid: String, part: usize, position: Option<usize>) -> (effects: Vec<
        Effect,
    >)
        ensures
            (Step { after: final(self)@, effects: deep(effects@) }) == old(self)@.enqueue(
                bvid@,
                part,
                position,
            ),
    {
        let resolving = "resolving bilibili ".to_owned().concat(bvid.as_str()).concat(
            " part ",
        ).concat(decimal_text(part as u128).as_str());
        self.defer(vec![Task::TrackResolved { position }]);
        let effects = vec![
            tell(resolving),
            Effect::ResolveTrack { bvid, part: part.saturating_sub(1) },
        ];
        assert(deep(effects@) =~= old(self)@.enqueue(bvid@, part, position).effects);
        effects
    }

    fn show_queue_and_status(&self) -> (effects: Vec<Effect>)
        ensures
            deep(effects@) == seq![self@.queue_view()] + queue_status(
                self@.playback,
                self@.queue.items,
            ),
    {
        broadcast use group_deep;

        let mut effects = just(self.show_queue());
        let mut status = send_queue_status(&self.playback, &self.queue.items);
        effects.append(&mut status);
        effects
    }

    /// Whether the user may control the playback without a vote, if anything is played.
    fn own_control(&self) -> (control: Option<bool>)
        ensures
            match control {
                Some(own) => self@.playback is Some && own == controls(
                    self@.playback->0,
                    self@.local,
                ),
                None => self@.playback is None,
            },
    {
        match &self.playback {
            Some(state) => Some(can_control_playback(state, self.local.as_str())),
            None => None,
        }
    }

    fn owns_item(&self, index: usize) -> (owns: bool)
        ensures
            owns == self@.owns_item(index),
    {
        match queue_item_at(&self.queue.items, index) {
            Some(item) => item.requested_by == self.local.to_text(),
            None => false,
        }
    }

    fn proposes(&self, command: &NetworkCommand) -> (proposes: bool)
        ensures
            proposes == self@.proposes(command@),
    {
        let shared: bool = match self.own_control() {
            Some(own) => !own,
            None => false,
        };
        self.vote.is_none() && match command {
            NetworkCommand::Pause => shared,
            NetworkCommand::Resume => shared,
            NetworkCommand::Seek(_) => shared,
            NetworkCommand::Skip => shared || self.playback.is_none(),
            NetworkCommand::RemoveQueueItem(index) => queue_item_at(
                &self.queue.items,
                *index,
            ).is_some() && !self.owns_item(*index),
            NetworkCommand::MoveQueueItem { from, .. } => queue_item_at(
                &self.queue.items,
                *from,
            ).is_some(),
            _ => false,
        }
    }

    /// Whether what a command counts up can be counted up.
    pub fn can_command(&self, command: &NetworkCommand) -> (can: bool)
        ensures
            can == self@.can_command(command@),
    {
        let own: bool = match self.own_control() {
            Some(own) => own,
            None => false,
        };
        match command {
            NetworkCommand::Chat(_) => self.message_seq < u64::MAX,
            NetworkCommand::Pause => !own || self.can_issue(),
            NetworkCommand::Resume => !own || self.can_issue(),
            NetworkCommand::Seek(_) => !own || self.can_issue(),
            NetworkCommand::RemoveQueueItem(index) => !self.owns_item(*index)
                || self.can_change_queue(),
            _ => true,
        }
    }

    /// Does what the user asks for. `fresh` is the identifier of what the user writes or
    /// proposes.
    pub fn command_with_id(&mut self, command: NetworkCommand, fresh: String, at: &World) -> (
    effects: Vec<Effect>)
        requires
            old(self)@.can_command(command@),
            at.in_range(),
        ensures
            (Step { after: final(self)@, effects: deep(effects@) }) == old(self)@.command(
                command@,
                fresh@,
                at@,
            ),
    {
        match command {
            NetworkCommand::Chat(text) => self.write_chat(text, fresh, at),
            NetworkCommand::EnqueueBilibili { bvid, part, position } => self.enqueue(
                bvid,
                part,
                position,
            ),
            NetworkCommand::ShowQueue => self.show_queue_and_status(),
            NetworkCommand::Pause => match self.own_control() {
                Some(own) => if own {
                    self.play_or_hold(false, at)
                } else {
                    self.propose_or_execute_vote(VoteAction::Pause, fresh, at)
                },
                None => nothing(),
            },
            NetworkCommand::Resume => match self.own_control() {
                Some(own) => if own {
                    self.play_or_hold(true, at)
                } else {
                    self.propose_or_execute_vote(VoteAction::Resume, fresh, at)
                },
                None => nothing(),
            },
            NetworkCommand::Seek(position_ms) => match self.own_control() {
                Some(own) => if own {
                    self.seek(position_ms, at)
                } else {
                    self.propose_or_execute_vote(VoteAction::Seek { position_ms }, fresh, at)
                },
                None => nothing(),
            },
            NetworkCommand::Skip => match self.own_control() {
                Some(own) => if own {
                    self.skip_current_track()
                } else {
                    self.propose_or_execute_vote(VoteAction::Skip, fresh, at)
                },
                None => self.propose_or_execute_vote(VoteAction::Skip, fresh, at),
            },
            NetworkCommand::RemoveQueueItem(index) => self.remove_item(index, fresh, at),
            NetworkCommand::MoveQueueItem { from, to } => self.move_item(from, to, fresh, at),
            NetworkCommand::Vote(approve) => self.cast_vote(approve, at),
        }
    }

    /// Does what the user asks for.
    pub fn command(&mut self, command: NetworkCommand, at: &World) -> (effects: Vec<Effect>)
        requires
            old(self)@.can_command(command@),
            at.in_range(),
        ensures
            exists|fresh: Seq<char>|
                #![trigger old(self)@.fresh_on_command(command@, fresh, at@)]
                old(self)@.fresh_on_command(command@, fresh, at@) && (Step {
                    after: final(self)@,
                    effects: deep(effects@),
                }) == old(self)@.numbering(command@).command(command@, fresh, at@),
    {
        let now: i64 = at.now.wall_micros;
        let fresh = match &command {
            NetworkCommand::Chat(text) => new_message_id(
                &self.local,
                now,
                self.message_seq + 1,
                text.as_str(),
            ),
            _ => if self.proposes(&command) {
                let sequence: u64 = self.next_nonce();
                new_vote_id(&self.local, now, sequence)
            } else {
                String::new()
            },
        };
        assert(old(self)@.fresh_on_command(command@, fresh@, at@));
        self.command_with_id(command, fresh, at)
    }
}

} // verus!
