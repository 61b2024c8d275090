//! How a session goes on after the effects that it has asked for.
use crate::collections::{deep, group_deep};
use crate::effect::{
    Detail, DetailModel, Effect, EffectModel, Failure, FailureModel, Outcome, OutcomeModel, Task,
    TaskModel, World, WorldModel,
};
use crate::model::{PlaybackState, PlaybackStateModel};
use crate::peer::{is_queue_item_id, new_queue_item_id};
use crate::session::startup::listen_places;
use crate::session::{just, nothing, tell, tell_if, telling_if, Session, SessionModel, Step};
use vstd::prelude::*;
use vstd::string::*;

verus! {

/// What a task is about.
#[derive(Debug, PartialEq, Eq, Clone, Copy)]
pub enum TaskKind {
    /// The session itself.
    Plain,
    /// The queue and what is played from it.
    Music,
    /// Votes, and the playback of other peers.
    Shared,
    /// Connections.
    Links,
    /// What peers tell each other of what they know.
    Sync,
}

/// What a task is about.
pub open spec fn kind_of(task: TaskModel) -> TaskKind {
    match task {
        TaskModel::TrackResolved { .. } => TaskKind::Music,
        TaskModel::StartNext => TaskKind::Music,
        TaskModel::Supersede { .. } => TaskKind::Music,
        TaskModel::Prepare { .. } => TaskKind::Music,
        TaskModel::FetchOwn { .. } => TaskKind::Music,
        TaskModel::OwnFetched { .. } => TaskKind::Music,
        TaskModel::OwnLoaded => TaskKind::Music,
        TaskModel::MaybeStart => TaskKind::Music,
        TaskModel::StopCurrent { .. } => TaskKind::Music,
        TaskModel::GoIdle { .. } => TaskKind::Music,
        TaskModel::SyncPlayer => TaskKind::Music,
        TaskModel::CheckFinished { .. } => TaskKind::Music,
        TaskModel::ShowPlayback => TaskKind::Music,
        TaskModel::OpenVote { .. } => TaskKind::Shared,
        TaskModel::ResolveVote => TaskKind::Shared,
        TaskModel::ExecuteVote { .. } => TaskKind::Shared,
        TaskModel::ApplyRemote { .. } => TaskKind::Shared,
        TaskModel::Adopt { .. } => TaskKind::Shared,
        TaskModel::AcceptPrepare { .. } => TaskKind::Shared,
        TaskModel::AdoptPrepare { .. } => TaskKind::Shared,
        TaskModel::PrepareAudio { .. } => TaskKind::Shared,
        TaskModel::LoadPrepared { .. } => TaskKind::Shared,
        TaskModel::PublishReady { .. } => TaskKind::Shared,
        TaskModel::Promote { .. } => TaskKind::Links,
        TaskModel::Dialed { .. } => TaskKind::Links,
        TaskModel::FollowRegistration { .. } => TaskKind::Links,
        TaskModel::RegisterNode { .. } => TaskKind::Links,
        TaskModel::CloseRelays { .. } => TaskKind::Links,
        TaskModel::RelaysClosed { .. } => TaskKind::Links,
        TaskModel::EarlyClosed { .. } => TaskKind::Links,
        TaskModel::CountPeers => TaskKind::Links,
        TaskModel::TriggerSync => TaskKind::Sync,
        TaskModel::ScheduleBurst => TaskKind::Sync,
        TaskModel::MusicSnapshot => TaskKind::Sync,
        TaskModel::DrainSync { .. } => TaskKind::Sync,
        TaskModel::HistoryRequested { .. } => TaskKind::Sync,
        TaskModel::QueueRequested { .. } => TaskKind::Sync,
        _ => TaskKind::Plain,
    }
}

/// What the user is told of a failure, as far as it goes.
pub open spec fn failure_text(prefix: Seq<char>, failure: FailureModel, detail: DetailModel) -> Seq<
    char,
> {
    match detail {
        DetailModel::Nothing => prefix,
        DetailModel::Brief => prefix + failure.brief,
        DetailModel::Full => prefix + failure.full,
    }
}

/// The number that a reply gives.
pub open spec fn counted(outcome: OutcomeModel) -> usize {
    match outcome {
        OutcomeModel::Count(count) => count,
        _ => 0,
    }
}

/// A task that goes on when what it waits for has failed.
pub open spec fn handles_failure(task: TaskModel) -> bool {
    match task {
        TaskModel::Report { .. } => true,
        TaskModel::ChatSent { .. } => true,
        TaskModel::TrackResolved { .. } => true,
        TaskModel::OwnFetched { .. } => true,
        TaskModel::OwnLoaded => true,
        TaskModel::Dialed { .. } => true,
        TaskModel::HistoryRequested { .. } => true,
        TaskModel::QueueRequested { .. } => true,
        _ => false,
    }
}

impl SessionModel {
    /// A task goes on after a failure.
    pub open spec fn recover(self, task: TaskModel, failure: FailureModel, at: WorldModel) -> Step {
        match task {
            TaskModel::Report { failed, detail, .. } => match failed {
                Some(prefix) => self.saying(failure_text(prefix, failure, detail)),
                None => self.stay(),
            },
            TaskModel::ChatSent { .. } => self.saying("publish failed: "@ + failure.brief),
            TaskModel::TrackResolved { .. } => self.saying(
                "bilibili resolve failed: "@ + failure.full,
            ),
            TaskModel::OwnFetched { .. } => self.own_fetch_failed(failure),
            TaskModel::OwnLoaded => self.own_load_failed(),
            TaskModel::Dialed { peer, .. } => self.promotion_failed(
                peer,
                "dial request failed: "@ + failure.brief,
                at,
            ),
            TaskModel::HistoryRequested { .. } => self.saying(
                "history request failed: "@ + failure.brief,
            ),
            TaskModel::QueueRequested { .. } => self.saying(
                "queue request failed: "@ + failure.brief,
            ),
            _ => self.stay(),
        }
    }

    /// Something has failed: tasks are given up until one goes on all the same. If none does,
    /// the session ends.
    pub open spec fn fail(self, failure: FailureModel, at: WorldModel) -> Step
        decreases self.agenda.len(),
    {
        if self.agenda.len() == 0 {
            self.asking(seq![EffectModel::Shutdown(failure)])
        } else if handles_failure(self.agenda[0]) {
            self.popped().recover(self.agenda[0], failure, at)
        } else {
            self.popped().fail(failure, at)
        }
    }

    /// A task about the session itself is done.
    pub open spec fn run_plain(self, task: TaskModel, outcome: OutcomeModel, at: WorldModel) -> Step {
        match task {
            TaskModel::Perform(effects) => self.asking(effects),
            TaskModel::Report { done, .. } => self.asking(telling_if(done)),
            TaskModel::Raise(failure) => self.fail(failure, at),
            TaskModel::Open { listen, relay, peer } => match Self::places(listen) {
                Ok(places) => self.open_doors(places, relay, peer).stay(),
                Err(reason) => self.fail(FailureModel { brief: reason, full: reason }, at),
            },
            TaskModel::ChatSent { message } => self.chat_sent(message, outcome),
            _ => self.stay(),
        }
    }

    /// A task about the queue and what is played from it is done. `fresh` is the identifier of an
    /// item that is queued.
    pub open spec fn run_music(self, task: TaskModel, outcome: OutcomeModel, fresh: Seq<char>, at: WorldModel) -> Step {
        match task {
            TaskModel::TrackResolved { position } => match outcome {
                OutcomeModel::Track(track) => self.track_resolved(track, position, fresh, at),
                _ => self.stay(),
            },
            TaskModel::StartNext => self.start_next(at),
            TaskModel::Supersede { item } => self.supersede(item, at),
            TaskModel::Prepare { item, at_micros } => self.prepare(item, at_micros, at),
            TaskModel::FetchOwn { track } => self.fetch_own(track),
            TaskModel::OwnFetched { track } => self.own_fetched(track, at),
            TaskModel::OwnLoaded => self.own_loaded(),
            TaskModel::MaybeStart => self.maybe_start(at),
            TaskModel::StopCurrent { reason } => self.stop_current(reason, at),
            TaskModel::GoIdle { reason } => self.go_idle(reason, at),
            TaskModel::SyncPlayer => self.sync_player(at),
            TaskModel::CheckFinished { at_micros, played_ms } => self.check_finished(
                at_micros,
                played_ms,
                at,
            ),
            TaskModel::ShowPlayback => self.show_playback(at),
            _ => self.stay(),
        }
    }

    /// A task about a vote or the playback of another peer is done.
    pub open spec fn run_shared(self, task: TaskModel, at: WorldModel) -> Step {
        match task {
            TaskModel::OpenVote { vote } => self.open_vote(vote, at),
            TaskModel::ResolveVote => self.resolve_vote(at),
            TaskModel::ExecuteVote { action } => self.execute_vote(action, at),
            TaskModel::ApplyRemote { state } => self.apply_remote(state, at),
            TaskModel::Adopt { state } => self.adopt(state),
            TaskModel::AcceptPrepare { state } => self.accept_prepare(state, at),
            TaskModel::AdoptPrepare { state } => self.adopt_prepare(state),
            TaskModel::PrepareAudio { track } => self.prepare_audio(track, at),
            TaskModel::LoadPrepared { track } => self.load_prepared(track, at),
            TaskModel::PublishReady { session_id } => self.publish_ready(session_id),
            _ => self.stay(),
        }
    }

    /// A task about connections is done.
    pub open spec fn run_links(self, task: TaskModel, outcome: OutcomeModel, at: WorldModel) -> Step {
        match task {
            TaskModel::Promote { peer } => self.promote(peer, at),
            TaskModel::Dialed { peer, count } => self.dialed(peer, count),
            TaskModel::FollowRegistration { peer, addresses } => self.follow_registration(
                peer,
                addresses,
                at,
            ),
            TaskModel::RegisterNode { node } => self.register_node(node, at),
            TaskModel::CloseRelays { peer } => self.close_relays(peer),
            TaskModel::RelaysClosed { peer, promoted } => self.relays_closed(
                peer,
                promoted,
                counted(outcome),
            ),
            TaskModel::EarlyClosed { peer } => self.early_closed(peer, counted(outcome)),
            TaskModel::CountPeers => self.count_peers(at),
            _ => self.stay(),
        }
    }

    /// A task about what peers tell each other is done.
    pub open spec fn run_sync(self, task: TaskModel, at: WorldModel) -> Step {
        match task {
            TaskModel::TriggerSync => self.trigger_sync(),
            TaskModel::ScheduleBurst => self.schedule_burst(at),
            TaskModel::MusicSnapshot => self.asking(self.music_snapshot()),
            TaskModel::DrainSync { now } => self.drain_sync(now),
            TaskModel::HistoryRequested { peer } => self.history_requested(peer, at),
            TaskModel::QueueRequested { peer } => self.queue_requested(peer, at),
            _ => self.stay(),
        }
    }

    /// A task is done. `fresh` is the identifier of an item that is queued.
    pub open spec fn run(
        self,
        task: TaskModel,
        outcome: OutcomeModel,
        fresh: Seq<char>,
        at: WorldModel,
    ) -> Step {
        match kind_of(task) {
            TaskKind::Plain => self.run_plain(task, outcome, at),
            TaskKind::Music => self.run_music(task, outcome, fresh, at),
            TaskKind::Shared => self.run_shared(task, at),
            TaskKind::Links => self.run_links(task, outcome, at),
            TaskKind::Sync => self.run_sync(task, at),
        }
    }

    /// What a task counts up can be counted up.
    pub open spec fn can_run(self, task: TaskModel, outcome: OutcomeModel, at: WorldModel) -> bool {
        match task {
            TaskModel::TrackResolved { .. } => outcome is Track ==> self.can_change_queue(),
            TaskModel::StartNext => self.starts_next() ==> self.can_change_queue(),
            TaskModel::Prepare { .. } => self.can_issue(),
            TaskModel::MaybeStart => self.starts(at) ==> self.can_issue(),
            TaskModel::GoIdle { .. } => self.can_issue(),
            TaskModel::ExecuteVote { action } => self.can_execute(action),
            _ => true,
        }
    }

    /// The playback that the session goes by next: that of a peer that is about to be followed,
    /// else the current one.
    pub open spec fn next_playback(self) -> Option<PlaybackStateModel> {
        if self.agenda.len() > 0 && self.agenda[0] is ApplyRemote {
            Some(self.agenda[0]->ApplyRemote_state)
        } else {
            self.playback
        }
    }

    /// The time for which the session asks next what the player is doing: that at which the player
    /// was brought in line if it is yet to be seen whether the track was over then, else `now`.
    pub open spec fn player_time(self, now: i64) -> i64 {
        if self.agenda.len() > 0 && self.agenda[0] is CheckFinished {
            self.agenda[0]->CheckFinished_at_micros
        } else {
            now
        }
    }

    /// What the next task counts up can be counted up.
    pub open spec fn can_resume(self, outcome: OutcomeModel, at: WorldModel) -> bool {
        outcome is Failed || self.agenda.len() == 0 || self.can_run(self.agenda[0], outcome, at)
    }

    /// The effects that were asked for last were carried out, or one of them has failed: the
    /// next task is done, or the failure is dealt with.
    pub open spec fn resume(self, outcome: OutcomeModel, fresh: Seq<char>, at: WorldModel) -> Step {
        match outcome {
            OutcomeModel::Failed(failure) => self.fail(failure, at),
            _ => if self.agenda.len() == 0 {
                self.stay()
            } else {
                self.popped().run(self.agenda[0], outcome, fresh, at)
            },
        }
    }

    /// The identifier that is made when a session goes on.
    pub open spec fn fresh_on_resume(
        self,
        outcome: OutcomeModel,
        fresh: Seq<char>,
        at: WorldModel,
    ) -> bool {
        if outcome is Track && self.agenda.len() > 0 && self.agenda[0] is TrackResolved {
            is_queue_item_id(fresh, self.local, at.now.wall_micros, outcome->Track_0.track_id)
        } else {
            fresh == Seq::<char>::empty()
        }
    }
}

fn find_kind(task: &Task) -> (kind: TaskKind)
    ensures
        kind == kind_of(task@),
{
    match task {
        Task::TrackResolved { .. } => TaskKind::Music,
        Task::StartNext => TaskKind::Music,
        Task::Supersede { .. } => TaskKind::Music,
        Task::Prepare { .. } => TaskKind::Music,
        Task::FetchOwn { .. } => TaskKind::Music,
        Task::OwnFetched { .. } => TaskKind::Music,
        Task::OwnLoaded => TaskKind::Music,
        Task::MaybeStart => TaskKind::Music,
        Task::StopCurrent { .. } => TaskKind::Music,
        Task::GoIdle { .. } => TaskKind::Music,
        Task::SyncPlayer => TaskKind::Music,
        Task::CheckFinished { .. } => TaskKind::Music,
        Task::ShowPlayback => TaskKind::Music,
        Task::OpenVote { .. } => TaskKind::Shared,
        Task::ResolveVote => TaskKind::Shared,
        Task::ExecuteVote { .. } => TaskKind::Shared,
        Task::ApplyRemote { .. } => TaskKind::Shared,
        Task::Adopt { .. } => TaskKind::Shared,
        Task::AcceptPrepare { .. } => TaskKind::Shared,
        Task::AdoptPrepare { .. } => TaskKind::Shared,
        Task::PrepareAudio { .. } => TaskKind::Shared,
        Task::LoadPrepared { .. } => TaskKind::Shared,
        Task::PublishReady { .. } => TaskKind::Shared,
        Task::Promote { .. } => TaskKind::Links,
        Task::Dialed { .. } => TaskKind::Links,
        Task::FollowRegistration { .. } => TaskKind::Links,
        Task::RegisterNode { .. } => TaskKind::Links,
        Task::CloseRelays { .. } => TaskKind::Links,
        Task::RelaysClosed { .. } => TaskKind::Links,
        Task::EarlyClosed { .. } => TaskKind::Links,
        Task::CountPeers => TaskKind::Links,
        Task::TriggerSync => TaskKind::Sync,
        Task::ScheduleBurst => TaskKind::Sync,
        Task::MusicSnapshot => TaskKind::Sync,
        Task::DrainSync { .. } => TaskKind::Sync,
        Task::HistoryRequested { .. } => TaskKind::Sync,
        Task::QueueRequested { .. } => TaskKind::Sync,
        _ => TaskKind::Plain,
    }
}

fn describe_failure(prefix: &str, failure: &Failure, detail: &Detail) -> (text: String)
    ensures
        text@ == failure_text(prefix@, failure@, detail@),
{
    match detail {
        Detail::Nothing => prefix.to_owned(),
        Detail::Brief => prefix.to_owned().concat(failure.brief.as_str()),
        Detail::Full => prefix.to_owned().concat(failure.full.as_str()),
    }
}

fn count_of(outcome: &Outcome) -> (count: usize)
    ensures
        count == counted(outcome@),
{
    match outcome {
        Outcome::Count(count) => *count,
        _ => 0,
    }
}

fn goes_on(task: &Task) -> (handles: bool)
    ensures
        handles == handles_failure(task@),
{
    match task {
        Task::Report { .. } => true,
        Task::ChatSent { .. } => true,
        Task::TrackResolved { .. } => true,
        Task::OwnFetched { .. } => true,
        Task::OwnLoaded => true,
        Task::Dialed { .. } => true,
        Task::HistoryRequested { .. } => true,
        Task::QueueRequested { .. } => true,
        _ => false,
    }
}

impl Session {
    fn recover(&mut self, task: Task, failure: Failure, at: &World) -> (effects: Vec<Effect>)
        ensures
            (Step { after: final(self)@, effects: deep(effects@) }) == old(self)@.recover(
                task@,
                failure@,
                at@,
            ),
    {
        match task {
            Task::Report { failed, detail, .. } => match failed {
                Some(prefix) => just(tell(describe_failure(prefix.as_str(), &failure, &detail))),
                None => nothing(),
            },
            Task::ChatSent { .. } => just(
                tell("publish failed: ".to_owned().concat(failure.brief.as_str())),
            ),
            Task::TrackResolved { .. } => just(
                tell("bilibili resolve failed: ".to_owned().concat(failure.full.as_str())),
            ),
            Task::OwnFetched { .. } => self.own_fetch_failed(failure),
            Task::OwnLoaded => self.own_load_failed(),
            Task::Dialed { peer, .. } => {
                let reason = "dial request failed: ".to_owned().concat(failure.brief.as_str());
                self.promotion_failed(peer.as_str(), reason.as_str(), at)
            },
            Task::HistoryRequested { .. } => just(
                tell("history request failed: ".to_owned().concat(failure.brief.as_str())),
            ),
            Task::QueueRequested { .. } => just(
                tell("queue request failed: ".to_owned().concat(failure.brief.as_str())),
            ),
            _ => nothing(),
        }
    }

    fn pop_task(&mut self) -> (task: Option<Task>)
        ensures
            match task {
                Some(t) => old(self)@.agenda.len() > 0 && t@ == old(self)@.agenda[0]
                    && final(self)@ == old(self)@.popped(),
                None => old(self)@.agenda.len() == 0 && final(self)@ == old(self)@,
            },
    {
        broadcast use group_deep;

        if self.agenda.len() == 0 {
            return None;
        }
        let task = self.agenda.remove(0);
        assert(deep(self.agenda@) =~= old(self)@.agenda.skip(1));
        Some(task)
    }

    fn fail(&mut self, failure: Failure, at: &World) -> (effects: Vec<Effect>)
        ensures
            (Step { after: final(self)@, effects: deep(effects@) }) == old(self)@.fail(
                failure@,
                at@,
            ),
    {
        let ghost before = self@;
        loop
            invariant
                before == old(self)@,
                before.fail(failure@, at@) == self@.fail(failure@, at@),
            decreases self.agenda.len(),
        {
            match self.pop_task() {
                Some(task) => {
                    if goes_on(&task) {
                        return self.recover(task, failure, at);
                    }
                },
                None => {
                    return just(Effect::Shutdown(failure));
                },
            }
        }
    }

    fn run_plain(&mut self, task: Task, outcome: Outcome, at: &World) -> (effects: Vec<Effect>)
        requires
            at.in_range(),
        ensures
            (Step { after: final(self)@, effects: deep(effects@) }) == old(self)@.run_plain(
                task@,
                outcome@,
                at@,
            ),
    {
        match task {
            Task::Perform(effects) => effects,
            Task::Report { done, .. } => tell_if(done),
            Task::Raise(failure) => self.fail(failure, at),
            Task::Open { listen, relay, peer } => {
                match listen_places(listen) {
                    Ok(places) => {
                        self.open_doors(places, relay, peer);
                        nothing()
                    },
                    Err(reason) => self.fail(
                        Failure { brief: reason.clone(), full: reason },
                        at,
                    ),
                }
            },
            Task::ChatSent { message } => self.chat_sent(&message, &outcome),
            _ => nothing(),
        }
    }

    fn run_music(&mut self, task: Task, outcome: Outcome, fresh: String, at: &World) -> (effects: Vec<Effect>)
        requires
            old(self)@.can_run(task@, outcome@, at@),
            at.in_range(),
        ensures
            (Step { after: final(self)@, effects: deep(effects@) }) == old(self)@.run_music(
                task@,
                outcome@,
                fresh@,
                at@,
            ),
    {
        match task {
            Task::TrackResolved { position } => match outcome {
                Outcome::Track(track) => self.track_resolved(track, position, fresh, at),
                _ => nothing(),
            },
            Task::StartNext => self.start_next_if_idle(at),
            Task::Supersede { item } => self.supersede(item, at),
            Task::Prepare { item, at_micros } => self.begin_playback_prepare(item, at_micros, at),
            Task::FetchOwn { track } => self.fetch_own(track),
            Task::OwnFetched { track } => self.own_fetched(track, at),
            Task::OwnLoaded => self.own_loaded(),
            Task::MaybeStart => self.maybe_start_pending_playback(at),
            Task::StopCurrent { reason } => self.stop_current_playback(reason, at),
            Task::GoIdle { reason } => self.go_idle(reason, at),
            Task::SyncPlayer => self.sync_player(at),
            Task::CheckFinished { at_micros, played_ms } => self.check_finished(
                at_micros,
                played_ms,
                at,
            ),
            Task::ShowPlayback => self.show_playback(at),
            _ => nothing(),
        }
    }

    fn run_shared(&mut self, task: Task, at: &World) -> (effects: Vec<Effect>)
        requires
            task@ matches TaskModel::ExecuteVote { action } ==> old(self)@.can_execute(action),
            at.in_range(),
        ensures
            (Step { after: final(self)@, effects: deep(effects@) }) == old(self)@.run_shared(
                task@,
                at@,
            ),
    {
        match task {
            Task::OpenVote { vote } => self.open_vote(vote, at),
            Task::ResolveVote => self.resolve_active_vote(at),
            Task::ExecuteVote { action } => self.execute_vote_action(action, at),
            Task::ApplyRemote { state } => self.apply_remote_playback_state(state, at),
            Task::Adopt { state } => self.adopt(state),
            Task::AcceptPrepare { state } => self.apply_playback_prepare(state, at),
            Task::AdoptPrepare { state } => self.adopt_prepare(state),
            Task::PrepareAudio { track } => self.prepare_audio(track, at),
            Task::LoadPrepared { track } => self.load_prepared(track, at),
            Task::PublishReady { session_id } => self.publish_playback_ready(session_id),
            _ => nothing(),
        }
    }

    fn run_links(&mut self, task: Task, outcome: Outcome, at: &World) -> (effects: Vec<Effect>)
        requires
            at.in_range(),
        ensures
            (Step { after: final(self)@, effects: deep(effects@) }) == old(self)@.run_links(
                task@,
                outcome@,
                at@,
            ),
    {
        match task {
            Task::Promote { peer } => self.maybe_promote_relayed_peer(peer, at),
            Task::Dialed { peer, count } => self.dialed(peer.as_str(), count),
            Task::FollowRegistration { peer, addresses } => self.follow_registration(
                peer,
                addresses,
                at,
            ),
            Task::RegisterNode { node } => self.register_with_rendezvous_node(node, at),
            Task::CloseRelays { peer } => self.close_relays(peer),
            Task::RelaysClosed { peer, promoted } => self.relays_closed(
                peer.as_str(),
                promoted,
                count_of(&outcome),
            ),
            Task::EarlyClosed { peer } => self.early_closed(peer.as_str(), count_of(&outcome)),
            Task::CountPeers => self.count_peers(at),
            _ => nothing(),
        }
    }

    fn run_sync(&mut self, task: Task, at: &World) -> (effects: Vec<Effect>)
        requires
            at.in_range(),
        ensures
            (Step { after: final(self)@, effects: deep(effects@) }) == old(self)@.run_sync(
                task@,
                at@,
            ),
    {
        match task {
            Task::TriggerSync => self.trigger_sync(),
            Task::ScheduleBurst => self.schedule_burst(at),
            Task::MusicSnapshot => self.publish_music_snapshot(),
            Task::DrainSync { now } => self.publish_pending_sync_summaries(now),
            Task::HistoryRequested { peer } => self.history_requested(peer.as_str(), at),
            Task::QueueRequested { peer } => self.queue_requested(peer.as_str(), at),
            _ => nothing(),
        }
    }

    /// Does a task. `fresh` is the identifier of an item that is queued.
    pub fn run(&mut self, task: Task, outcome: Outcome, fresh: String, at: &World) -> (effects: Vec<
        Effect,
    >)
        requires
            old(self)@.can_run(task@, outcome@, at@),
            at.in_range(),
        ensures
            (Step { after: final(self)@, effects: deep(effects@) }) == old(self)@.run(
                task@,
                outcome@,
                fresh@,
                at@,
            ),
    {
        match find_kind(&task) {
            TaskKind::Plain => self.run_plain(task, outcome, at),
            TaskKind::Music => self.run_music(task, outcome, fresh, at),
            TaskKind::Shared => self.run_shared(task, at),
            TaskKind::Links => self.run_links(task, outcome, at),
            TaskKind::Sync => self.run_sync(task, at),
        }
    }

    /// The playback that the session goes by next.
    pub fn next_playback(&self) -> (state: Option<&PlaybackState>)
        ensures
            match state {
                Some(s) => self@.next_playback() == Some(s@),
                None => self@.next_playback() is None,
            },
    {
        if self.agenda.len() > 0 {
            if let Task::ApplyRemote { state } = &self.agenda[0] {
                return Some(state);
            }
        }
        self.playback.as_ref()
    }

    /// The time for which the session asks next what the player is doing.
    pub fn player_time(&self, now: i64) -> (time: i64)
        ensures
            time == self@.player_time(now),
    {
        if self.agenda.len() > 0 {
            if let Task::CheckFinished { at_micros, .. } = &self.agenda[0] {
                return *at_micros;
            }
        }
        now
    }

    /// Whether what the next task counts up can be counted up.
    pub fn can_resume(&self, outcome: &Outcome, at: &World) -> (can: bool)
        ensures
            can == self@.can_resume(outcome@, at@),
    {
        let (failed, resolved): (bool, bool) = match outcome {
            Outcome::Failed(_) => (true, false),
            Outcome::Track(_) => (false, true),
            _ => (false, false),
        };
        if failed || self.agenda.len() == 0 {
            return true;
        }
        match &self.agenda[0] {
            Task::TrackResolved { .. } => !resolved || self.can_change_queue(),
            Task::StartNext => !self.starts_next() || self.can_change_queue(),
            Task::Prepare { .. } => self.can_issue(),
            Task::MaybeStart => !self.starts(at) || self.can_issue(),
            Task::GoIdle { .. } => self.can_issue(),
            Task::ExecuteVote { action } => self.can_execute(action),
            _ => true,
        }
    }

    /// Goes on after the effects that were asked for last. `fresh` is the identifier of an item
    /// that is queued.
    pub fn resume_with_id(&mut self, outcome: Outcome, fresh: String, at: &World) -> (effects: Vec<
        Effect,
    >)
        requires
            old(self)@.can_resume(outcome@, at@),
            at.in_range(),
        ensures
            (Step { after: final(self)@, effects: deep(effects@) }) == old(self)@.resume(
                outcome@,
                fresh@,
                at@,
            ),
    {
        match outcome {
            Outcome::Failed(failure) => self.fail(failure, at),
            other => match self.pop_task() {
                Some(task) => self.run(task, other, fresh, at),
                None => nothing(),
            },
        }
    }

    /// Goes on after the effects that were asked for last.
    pub fn resume(&mut self, outcome: Outcome, at: &World) -> (effects: Vec<Effect>)
        requires
            old(self)@.can_resume(outcome@, at@),
            at.in_range(),
        ensures
            exists|fresh: Seq<char>|
                #![trigger old(self)@.fresh_on_resume(outcome@, fresh, at@)]
                old(self)@.fresh_on_resume(outcome@, fresh, at@) && (Step {
                    after: final(self)@,
                    effects: deep(effects@),
                }) == old(self)@.resume(outcome@, fresh, at@),
    {
        let wanted: bool = self.agenda.len() > 0 && match &self.agenda[0] {
            Task::TrackResolved { .. } => true,
            _ => false,
        };
        let fresh = match &outcome {
            Outcome::Track(track) => if wanted {
                new_queue_item_id(&self.local, at.now.wall_micros, track.track_id.as_str())
            } else {
                String::new()
            },
            _ => String::new(),
        };
        assert(old(self)@.fresh_on_resume(outcome@, fresh@, at@));
        self.resume_with_id(outcome, fresh, at)
    }
}

} // verus!
