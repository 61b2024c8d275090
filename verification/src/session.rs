//! A peer in a listening room: how it answers commands, clocks and the network.
use crate::collections::{deep, group_deep};
use crate::effect::{Detail, DetailModel, Effect, EffectModel, Task, TaskModel, World, WorldModel};
use crate::history::{History, HistoryModel};
use crate::model::{
    PlaybackState, PlaybackStateModel, UiEvent, UiEventModel, WireMessage, WireMessageModel,
};
use crate::names::{LocalIdentity, NameRegistry, NameRegistryModel};
use crate::peer::PeerId;
use crate::playback::{PendingPlayback, PendingPlaybackModel};
use crate::queue::{MusicQueue, MusicQueueModel};
use crate::routes::{PeerBook, PeerBookModel};
use crate::sync::{SyncBook, SyncBookModel};
use crate::vote::{majority_threshold, ActiveVote, ActiveVoteModel};
use vstd::prelude::*;
use vstd::string::*;

pub mod chat;
pub mod clock;
pub mod command;
pub mod engine;
pub mod events;
pub mod links;
pub mod music;
pub mod remote;
pub mod startup;
pub mod summary;
pub mod voting;

verus! {

/// The state of a peer in a room.
#[derive(Debug, PartialEq, Eq)]
pub struct Session {
    /// The peer itself.
    pub local: PeerId,
    /// The name that it goes by.
    pub name: String,
    /// When it joined.
    pub joined_at: i64,
    /// The room.
    pub topic: String,
    pub history: History,
    pub names: NameRegistry,
    pub peers: PeerBook,
    pub queue: MusicQueue,
    /// What is played.
    pub playback: Option<PlaybackState>,
    /// What waits to be played.
    pub pending: Option<PendingPlayback>,
    pub playback_version: u64,
    pub vote: Option<ActiveVote>,
    pub sync: SyncBook,
    /// The number of chat messages that were written.
    pub message_seq: u64,
    /// The number of digests that were made.
    pub nonce_seq: u64,
    /// What is yet to be done, in order.
    pub agenda: Vec<Task>,
}

/// The number after a number; after the last one they begin again.
pub open spec fn next_number(number: u64) -> u64 {
    if number == u64::MAX {
        0
    } else {
        (number + 1) as u64
    }
}

/// The content of [`Session`].
#[verifier::ext_equal]
pub struct SessionModel {
    pub local: Seq<char>,
    pub name: Seq<char>,
    pub joined_at: i64,
    pub topic: Seq<char>,
    pub history: HistoryModel,
    pub names: NameRegistryModel,
    pub peers: PeerBookModel,
    pub queue: MusicQueueModel,
    pub playback: Option<PlaybackStateModel>,
    pub pending: Option<PendingPlaybackModel>,
    pub playback_version: u64,
    pub vote: Option<ActiveVoteModel>,
    pub sync: SyncBookModel,
    pub message_seq: u64,
    pub nonce_seq: u64,
    pub agenda: Seq<TaskModel>,
}

impl View for Session {
    type V = SessionModel;

    open spec fn view(&self) -> SessionModel {
        SessionModel {
            local: self.local@,
            name: self.name@,
            joined_at: self.joined_at,
            topic: self.topic@,
            history: self.history@,
            names: self.names@,
            peers: self.peers@,
            queue: self.queue@,
            playback: self.playback.deep_view(),
            pending: self.pending.deep_view(),
            playback_version: self.playback_version,
            vote: self.vote.deep_view(),
            sync: self.sync@,
            message_seq: self.message_seq,
            nonce_seq: self.nonce_seq,
            agenda: deep(self.agenda@),
        }
    }
}

/// What a session does at once: how it changes, and the effects that it asks for.
#[verifier::ext_equal]
pub struct Step {
    pub after: SessionModel,
    pub effects: Seq<EffectModel>,
}

/// Tells the user something.
pub open spec fn telling(text: Seq<char>) -> EffectModel {
    EffectModel::Ui(UiEventModel::Status(text))
}

/// Tells the user something, if there is anything to tell.
pub open spec fn telling_if(text: Option<Seq<char>>) -> Seq<EffectModel> {
    match text {
        Some(t) => seq![telling(t)],
        None => Seq::empty(),
    }
}

/// Asks for effects.
pub open spec fn perform(effects: Seq<EffectModel>) -> TaskModel {
    TaskModel::Perform(effects)
}

/// Tells the user of a failure with all that is known of it.
pub open spec fn guard_fully(prefix: Seq<char>) -> TaskModel {
    TaskModel::Report { done: None, failed: Some(prefix), detail: DetailModel::Full }
}

/// Tells the user of a failure.
pub open spec fn guard(prefix: Seq<char>) -> TaskModel {
    TaskModel::Report { done: None, failed: Some(prefix), detail: DetailModel::Brief }
}

/// Tells the user what came of an effect.
pub open spec fn announcement(done: Seq<char>, failed: Seq<char>) -> TaskModel {
    TaskModel::Report { done: Some(done), failed: Some(failed), detail: DetailModel::Brief }
}

/// Goes on in spite of a failure.
pub open spec fn disregard() -> TaskModel {
    TaskModel::Report { done: None, failed: None, detail: DetailModel::Nothing }
}

impl SessionModel {
    /// Who this peer is to others.
    pub open spec fn identity(self) -> LocalIdentity {
        LocalIdentity { peer_id: self.local, name: self.name, joined_at: self.joined_at }
    }

    /// The version of the queue can be counted up once more.
    pub open spec fn can_change_queue(self) -> bool {
        self.queue.version < u64::MAX
    }

    /// The version of the playback can be counted up once more.
    pub open spec fn can_issue(self) -> bool {
        self.playback_version < u64::MAX
    }

    /// One more digest was made.
    pub open spec fn with_digest(self) -> SessionModel {
        SessionModel { nonce_seq: next_number(self.nonce_seq), ..self }
    }

    /// Nothing is left to be done.
    pub open spec fn is_idle(self) -> bool {
        self.agenda.len() == 0
    }

    /// Some tasks come before what is yet to be done.
    pub open spec fn deferring(self, tasks: Seq<TaskModel>) -> SessionModel {
        SessionModel { agenda: tasks + self.agenda, ..self }
    }

    /// The session does nothing.
    pub open spec fn stay(self) -> Step {
        Step { after: self, effects: Seq::empty() }
    }

    /// The session asks for effects and is otherwise as it was.
    pub open spec fn asking(self, effects: Seq<EffectModel>) -> Step {
        Step { after: self, effects: effects }
    }

    /// The session tells the user something.
    pub open spec fn saying(self, text: Seq<char>) -> Step {
        self.asking(seq![telling(text)])
    }

    /// The first task is taken off.
    pub open spec fn popped(self) -> SessionModel {
        SessionModel { agenda: self.agenda.skip(1), ..self }
    }

    /// The queue as it is shown.
    pub open spec fn queue_view(self) -> EffectModel {
        EffectModel::Ui(UiEventModel::Queue(self.queue.state(self.local)))
    }

    /// The history as it is shown.
    pub open spec fn history_view(self) -> EffectModel {
        EffectModel::Ui(UiEventModel::History(self.history.records))
    }

    /// The queue as it is sent to the peers.
    pub open spec fn queue_message(self) -> EffectModel {
        EffectModel::Publish(WireMessageModel::QueueState { state: self.queue.state(self.local) })
    }
}

/// The approvals that a vote needs.
pub open spec fn threshold(at: WorldModel) -> usize {
    ((at.connected.len() + 1) / 2 + 1) as usize
}

/// Whether a text is one of some.
pub fn is_among(texts: &Vec<String>, text: &str) -> (found: bool)
    ensures
        found == deep(texts@).contains(text@),
{
    let wanted = text.to_owned();
    let mut i: usize = 0;
    while i < texts.len()
        invariant
            wanted@ == text@,
            i <= texts@.len(),
            forall|j: int| 0 <= j < i ==> deep(texts@)[j] != text@,
        decreases texts.len() - i,
    {
        if texts[i] == wanted {
            assert(deep(texts@)[i as int] == text@);
            return true;
        }
        i = i + 1;
    }
    false
}

/// The approvals that a vote needs.
pub fn votes_needed(at: &World) -> (needed: usize)
    requires
        at.in_range(),
    ensures
        needed == threshold(at@),
{
    majority_threshold(at.connected.len() + 1)
}

/// Tells the user something.
pub fn tell(text: String) -> (effect: Effect)
    ensures
        effect@ == telling(text@),
{
    Effect::Ui(UiEvent::Status(text))
}

/// No effects.
pub fn nothing() -> (effects: Vec<Effect>)
    ensures
        deep(effects@) == Seq::<EffectModel>::empty(),
{
    let effects: Vec<Effect> = Vec::new();
    assert(deep(effects@) =~= Seq::<EffectModel>::empty());
    effects
}

/// One effect.
pub fn just(effect: Effect) -> (effects: Vec<Effect>)
    ensures
        deep(effects@) == seq![effect@],
{
    let effects: Vec<Effect> = vec![effect];
    assert(deep(effects@) =~= seq![effect@]);
    effects
}

/// Tells the user something, if there is anything to tell.
pub fn tell_if(text: Option<String>) -> (effects: Vec<Effect>)
    ensures
        deep(effects@) == telling_if(text.deep_view()),
{
    match text {
        Some(t) => just(tell(t)),
        None => nothing(),
    }
}

/// Tells the user of a failure with all that is known of it.
pub fn guarded_fully(prefix: &str) -> (task: Task)
    ensures
        task@ == guard_fully(prefix@),
{
    Task::Report { done: None, failed: Some(prefix.to_owned()), detail: Detail::Full }
}

/// Tells the user of a failure.
pub fn guarded(prefix: &str) -> (task: Task)
    ensures
        task@ == guard(prefix@),
{
    Task::Report { done: None, failed: Some(prefix.to_owned()), detail: Detail::Brief }
}

/// Tells the user what came of an effect.
pub fn announce(done: String, failed: String) -> (task: Task)
    ensures
        task@ == announcement(done@, failed@),
{
    Task::Report { done: Some(done), failed: Some(failed), detail: Detail::Brief }
}

/// Goes on in spite of a failure.
pub fn disregarded() -> (task: Task)
    ensures
        task@ == disregard(),
{
    Task::Report { done: None, failed: None, detail: Detail::Nothing }
}

impl Session {
    /// Whether the version of the queue can be counted up once more.
    pub fn can_change_queue(&self) -> (can: bool)
        ensures
            can == self@.can_change_queue(),
    {
        self.queue.version < u64::MAX
    }

    /// Whether the version of the playback can be counted up once more.
    pub fn can_issue(&self) -> (can: bool)
        ensures
            can == self@.can_issue(),
    {
        self.playback_version < u64::MAX
    }

    /// Whether nothing is left to be done.
    pub fn is_idle(&self) -> (idle: bool)
        ensures
            idle == self@.is_idle(),
    {
        self.agenda.len() == 0
    }

    /// Puts tasks before what is yet to be done.
    pub fn defer(&mut self, tasks: Vec<Task>)
        ensures
            final(self)@ == old(self)@.deferring(deep(tasks@)),
    {
        broadcast use group_deep;

        let mut agenda = tasks;
        agenda.append(&mut self.agenda);
        self.agenda = agenda;
    }

    /// The number of the next digest.
    pub(crate) fn next_nonce(&mut self) -> (sequence: u64)
        ensures
            final(self)@ == old(self)@.with_digest(),
            sequence == old(self)@.nonce_seq,
    {
        let sequence: u64 = self.nonce_seq;
        self.nonce_seq = sequence.wrapping_add(1);
        sequence
    }

    /// Shows the queue to the user.
    pub fn show_queue(&self) -> (effect: Effect)
        ensures
            effect@ == self@.queue_view(),
    {
        Effect::Ui(UiEvent::Queue(self.queue.state(self.local.as_str())))
    }

    /// Shows the history to the user.
    pub fn show_history(&self) -> (effect: Effect)
        ensures
            effect@ == self@.history_view(),
    {
        Effect::Ui(UiEvent::History(crate::collections::copy_all(&self.history.records)))
    }

    /// Sends the queue to the peers.
    pub fn publish_queue(&self) -> (effect: Effect)
        ensures
            effect@ == self@.queue_message(),
    {
        Effect::Publish(WireMessage::QueueState { state: self.queue.state(self.local.as_str()) })
    }
}

} // verus!
