//! What peers tell each other of what they know.
use crate::collections::{deep, group_deep, store};
use crate::effect::{Effect, EffectModel, Task, TaskModel, World, WorldModel};
use crate::model::{WireMessage, WireMessageModel};
use crate::session::{announce, announcement, just, nothing, tell, Session, SessionModel, Step};
use crate::sync::{may_ask, SyncBookModel};
use crate::text::{decimal, decimal_text};
use crate::time::{
    normalize_timestamp_micros, timestamp_micros, HISTORY_REQUEST_COOLDOWN, QUEUE_REQUEST_COOLDOWN,
};
use vstd::prelude::*;
use vstd::string::*;

verus! {

impl SessionModel {
    /// The name that this peer goes by.
    pub open spec fn name_claim(self) -> WireMessageModel {
        WireMessageModel::NameClaim {
            peer_id: self.local,
            name: self.name,
            joined_at: Some(self.joined_at),
        }
    }

    /// How many messages this peer knows, and when the last one was sent.
    pub open spec fn history_summary(self) -> WireMessageModel {
        WireMessageModel::HistorySummary {
            peer_id: self.local,
            count: self.history.records.len() as usize,
            newest_at: if self.history.records.len() > 0 {
                Some(timestamp_micros(self.history.records.last().sent_at))
            } else {
                None
            },
        }
    }

    /// Which version of the queue this peer has.
    pub open spec fn queue_summary(self) -> WireMessageModel {
        WireMessageModel::QueueSummary {
            peer_id: self.local,
            version: self.queue.version,
            updated_at_micros: self.queue.updated_at,
            item_count: self.queue.items.len() as usize,
        }
    }

    /// All that this peer tells of what it knows. A queue that nobody has touched is passed over.
    pub open spec fn summaries(self) -> Seq<EffectModel> {
        let known = seq![
            EffectModel::Publish(self.name_claim()),
            EffectModel::Publish(self.history_summary()),
        ];
        if self.queue.untouched() {
            known
        } else {
            known.push(EffectModel::Publish(self.queue_summary()))
        }
    }

    /// The summaries are published, and repeated soon if that succeeds.
    pub open spec fn trigger_sync(self) -> Step {
        self.deferring(seq![TaskModel::ScheduleBurst]).asking(self.summaries())
    }

    /// The summaries are to be repeated soon.
    pub open spec fn schedule_burst(self, at: WorldModel) -> Step {
        SessionModel { sync: self.sync.with_burst(at.now.mono_nanos), ..self }.stay()
    }

    /// The summaries are published once for each time that has come.
    pub open spec fn drain_sync(self, now: u64) -> Step {
        if self.sync.is_due(now) {
            SessionModel {
                sync: SyncBookModel { due: self.sync.due.skip(1), ..self.sync },
                ..self
            }.deferring(seq![TaskModel::DrainSync { now: now }]).asking(self.summaries())
        } else {
            self.stay()
        }
    }

    /// The queue, unless nobody has touched it, and the playback, if this peer leads it.
    pub open spec fn music_snapshot(self) -> Seq<EffectModel> {
        let queue = if self.queue.untouched() {
            Seq::empty()
        } else {
            seq![self.queue_message()]
        };
        match self.playback {
            Some(state) => if state.leader_peer_id == self.local {
                queue.push(EffectModel::Publish(WireMessageModel::PlaybackState { state: state }))
            } else {
                queue
            },
            None => queue,
        }
    }

    /// A peer has told how much it knows: it is asked for it if that is more, and it was not
    /// asked just before.
    pub open spec fn hear_history_summary(
        self,
        peer_id: Seq<char>,
        count: usize,
        at: WorldModel,
    ) -> Step {
        if peer_id != self.local && count > self.history.records.len() && may_ask(
            self.sync.history_requests,
            peer_id,
            HISTORY_REQUEST_COOLDOWN,
            at.now.mono_nanos,
        ) {
            self.deferring(seq![TaskModel::HistoryRequested { peer: peer_id }]).asking(
                seq![
                    EffectModel::Publish(
                        WireMessageModel::HistoryRequest {
                            requester: self.local,
                            target: peer_id,
                            known_count: self.history.records.len() as usize,
                        },
                    ),
                ],
            )
        } else {
            self.stay()
        }
    }

    /// A peer was asked for its history.
    pub open spec fn history_requested(self, peer_id: Seq<char>, at: WorldModel) -> Step {
        SessionModel {
            sync: SyncBookModel {
                history_requests: store(self.sync.history_requests, peer_id, at.now.mono_nanos),
                ..self.sync
            },
            ..self
        }.saying("requesting history from "@ + peer_id)
    }

    /// A peer asks for the history: it gets it if it knows less.
    pub open spec fn hear_history_request(
        self,
        requester: Seq<char>,
        target: Seq<char>,
        known_count: usize,
    ) -> Step {
        if target == self.local && requester != self.local && self.history.records.len()
            > known_count {
            self.deferring(
                seq![
                    announcement(
                        "sent "@ + decimal(self.history.records.len()) + " history messages"@,
                        "history response failed: "@,
                    ),
                ],
            ).asking(
                seq![
                    EffectModel::Publish(
                        WireMessageModel::HistoryResponse {
                            target: None,
                            messages: self.history.records,
                        },
                    ),
                ],
            )
        } else {
            self.stay()
        }
    }

    /// A peer has told which version of the queue it has: it is asked for it if that is newer,
    /// and it was not asked just before.
    pub open spec fn hear_queue_summary(
        self,
        peer_id: Seq<char>,
        version: u64,
        updated_at: i64,
        at: WorldModel,
    ) -> Step {
        if peer_id != self.local && crate::queue::newer(
            version,
            updated_at,
            self.queue.version,
            self.queue.updated_at,
        ) && may_ask(
            self.sync.queue_requests,
            peer_id,
            QUEUE_REQUEST_COOLDOWN,
            at.now.mono_nanos,
        ) {
            self.deferring(seq![TaskModel::QueueRequested { peer: peer_id }]).asking(
                seq![
                    EffectModel::Publish(
                        WireMessageModel::QueueRequest {
                            requester: self.local,
                            target: peer_id,
                            known_version: self.queue.version,
                            known_updated_at_micros: self.queue.updated_at,
                        },
                    ),
                ],
            )
        } else {
            self.stay()
        }
    }

    /// A peer was asked for its queue.
    pub open spec fn queue_requested(self, peer_id: Seq<char>, at: WorldModel) -> Step {
        SessionModel {
            sync: SyncBookModel {
                queue_requests: store(self.sync.queue_requests, peer_id, at.now.mono_nanos),
                ..self.sync
            },
            ..self
        }.saying("requesting queue from "@ + peer_id)
    }

    /// A peer asks for the queue: it gets it if its version is older.
    pub open spec fn hear_queue_request(
        self,
        requester: Seq<char>,
        target: Seq<char>,
        known_version: u64,
        known_updated_at: i64,
    ) -> Step {
        if target == self.local && requester != self.local && crate::queue::newer(
            self.queue.version,
            self.queue.updated_at,
            known_version,
            known_updated_at,
        ) {
            self.deferring(
                seq![
                    announcement(
                        "sent "@ + decimal(self.queue.items.len()) + " queue item(s)"@,
                        "queue response failed: "@,
                    ),
                ],
            ).asking(
                seq![
                    EffectModel::Publish(
                        WireMessageModel::QueueResponse {
                            target: requester,
                            state: self.queue.state(self.local),
                        },
                    ),
                ],
            )
        } else {
            self.stay()
        }
    }
}

impl Session {
    /// Says which name this peer goes by.
    pub fn publish_name_claim(&self) -> (effect: Effect)
        ensures
            effect@ == EffectModel::Publish(self@.name_claim()),
    {
        Effect::Publish(
            WireMessage::NameClaim {
                peer_id: self.local.to_text(),
                name: self.name.clone(),
                joined_at: Some(self.joined_at),
            },
        )
    }

    /// Says how many messages this peer knows.
    pub fn publish_history_summary(&self) -> (effect: Effect)
        ensures
            effect@ == EffectModel::Publish(self@.history_summary()),
    {
        let count: usize = self.history.records.len();
        let newest_at: Option<i64> = if count > 0 {
            Some(normalize_timestamp_micros(self.history.records[count - 1].sent_at))
        } else {
            None
        };
        Effect::Publish(
            WireMessage::HistorySummary { peer_id: self.local.to_text(), count, newest_at },
        )
    }

    /// Says which version of the queue this peer has.
    pub fn publish_queue_summary(&self) -> (effects: Vec<Effect>)
        ensures
            deep(effects@) == if self@.queue.untouched() {
                Seq::<EffectModel>::empty()
            } else {
                seq![EffectModel::Publish(self@.queue_summary())]
            },
    {
        if self.queue.is_untouched() {
            return nothing();
        }
        just(
            Effect::Publish(
                WireMessage::QueueSummary {
                    peer_id: self.local.to_text(),
                    version: self.queue.version,
                    updated_at_micros: self.queue.updated_at,
                    item_count: self.queue.items.len(),
                },
            ),
        )
    }

    /// Says who this peer is and how many messages it knows.
    pub fn publish_presence_and_history(&self) -> (effects: Vec<Effect>)
        ensures
            deep(effects@) == seq![
                EffectModel::Publish(self@.name_claim()),
                EffectModel::Publish(self@.history_summary()),
            ],
    {
        vec![self.publish_name_claim(), self.publish_history_summary()]
    }

    /// Tells all that this peer knows.
    pub fn publish_sync_summary(&self) -> (effects: Vec<Effect>)
        ensures
            deep(effects@) == self@.summaries(),
    {
        broadcast use group_deep;

        let mut effects = self.publish_presence_and_history();
        let mut queue = self.publish_queue_summary();
        effects.append(&mut queue);
        assert(deep(effects@) =~= self@.summaries());
        effects
    }

    /// Publishes the summaries, and plans to repeat them soon.
    pub fn trigger_sync(&mut self) -> (effects: Vec<Effect>)
        ensures
            (Step { after: final(self)@, effects: deep(effects@) }) == old(self)@.trigger_sync(),
    {
        let effects = self.publish_sync_summary();
        self.defer(vec![Task::ScheduleBurst]);
        effects
    }

    /// Plans to repeat the summaries soon.
    pub fn schedule_burst(&mut self, at: &World) -> (effects: Vec<Effect>)
        requires
            at.in_range(),
        ensures
            (Step { after: final(self)@, effects: deep(effects@) }) == old(self)@.schedule_burst(at@),
    {
        self.sync.schedule_sync_burst(at.now.mono_nanos);
        nothing()
    }

    /// Publishes the summaries once for each time that has come.
    pub fn publish_pending_sync_summaries(&mut self, now: u64) -> (effects: Vec<Effect>)
        ensures
            (Step { after: final(self)@, effects: deep(effects@) }) == old(self)@.drain_sync(now),
    {
        if self.sync.take_due(now) {
            let effects = self.publish_sync_summary();
            self.defer(vec![Task::DrainSync { now }]);
            effects
        } else {
            nothing()
        }
    }

    /// Publishes the queue and the playback.
    pub fn publish_music_snapshot(&self) -> (effects: Vec<Effect>)
        ensures
            deep(effects@) == self@.music_snapshot(),
    {
        broadcast use group_deep;

        let mut effects = if self.queue.is_untouched() {
            nothing()
        } else {
            just(self.publish_queue())
        };
        if let Some(state) = &self.playback {
            if state.leader_peer_id == self.local.to_text() {
                effects.push(
                    Effect::Publish(WireMessage::PlaybackState { state: state.clone() }),
                );
            }
        }
        effects
    }

    /// A peer has told how much it knows.
    pub fn hear_history_summary(&mut self, peer_id: &String, count: usize, at: &World) -> (effects:
        Vec<Effect>)
        ensures
            (Step { after: final(self)@, effects: deep(effects@) }) == old(self)@.hear_history_summary(peer_id@, count, at@),
    {
        if *peer_id != self.local.to_text() && count > self.history.records.len()
            && self.sync.should_request_history(peer_id.as_str(), at.now.mono_nanos) {
            let request = WireMessage::HistoryRequest {
                requester: self.local.to_text(),
                target: peer_id.clone(),
                known_count: self.history.records.len(),
            };
            self.defer(vec![Task::HistoryRequested { peer: peer_id.clone() }]);
            just(Effect::Publish(request))
        } else {
            nothing()
        }
    }

    /// A peer was asked for its history.
    pub fn history_requested(&mut self, peer_id: &str, at: &World) -> (effects: Vec<Effect>)
        ensures
            (Step { after: final(self)@, effects: deep(effects@) }) == old(self)@.history_requested(peer_id@, at@),
    {
        self.sync.history_requests.insert(peer_id, at.now.mono_nanos);
        just(tell("requesting history from ".to_owned().concat(peer_id)))
    }

    /// A peer asks for the history.
    pub fn hear_history_request(
        &mut self,
        requester: &String,
        target: &String,
        known_count: usize,
    ) -> (effects: Vec<Effect>)
        ensures
            (Step { after: final(self)@, effects: deep(effects@) }) == old(self)@.hear_history_request(
                requester@,
                target@,
                known_count,
            ),
    {
        let local = self.local.to_text();
        let total: usize = self.history.records.len();
        if *target == local && *requester != local && total > known_count {
            let response = WireMessage::HistoryResponse {
                target: None,
                messages: crate::collections::copy_all(&self.history.records),
            };
            self.defer(
                vec![
                    announce(
                        "sent ".to_owned().concat(decimal_text(total as u128).as_str()).concat(
                            " history messages",
                        ),
                        "history response failed: ".to_owned(),
                    ),
                ],
            );
            just(Effect::Publish(response))
        } else {
            nothing()
        }
    }

    /// A peer has told which version of the queue it has.
    pub fn hear_queue_summary(
        &mut self,
        peer_id: &String,
        version: u64,
        updated_at: i64,
        at: &World,
    ) -> (effects: Vec<Effect>)
        ensures
            (Step { after: final(self)@, effects: deep(effects@) }) == old(self)@.hear_queue_summary(
                peer_id@,
                version,
                updated_at,
                at@,
            ),
    {
        if *peer_id != self.local.to_text() && crate::queue::is_queue_state_newer(
            version,
            updated_at,
            self.queue.version,
            self.queue.updated_at,
        ) && self.sync.should_request_queue(peer_id.as_str(), at.now.mono_nanos) {
            let request = WireMessage::QueueRequest {
                requester: self.local.to_text(),
                target: peer_id.clone(),
                known_version: self.queue.version,
                known_updated_at_micros: self.queue.updated_at,
            };
            self.defer(vec![Task::QueueRequested { peer: peer_id.clone() }]);
            just(Effect::Publish(request))
        } else {
            nothing()
        }
    }

    /// A peer was asked for its queue.
    pub fn queue_requested(&mut self, peer_id: &str, at: &World) -> (effects: Vec<Effect>)
        ensures
            (Step { after: final(self)@, effects: deep(effects@) }) == old(self)@.queue_requested(peer_id@, at@),
    {
        self.sync.queue_requests.insert(peer_id, at.now.mono_nanos);
        just(tell("requesting queue from ".to_owned().concat(peer_id)))
    }

    /// A peer asks for the queue.
    pub fn hear_queue_request(
        &mut self,
        requester: &String,
        target: &String,
        known_version: u64,
        known_updated_at: i64,
    ) -> (effects: Vec<Effect>)
        ensures
            (Step { after: final(self)@, effects: deep(effects@) }) == old(self)@.hear_queue_request(
                requester@,
                target@,
                known_version,
                known_updated_at,
            ),
    {
        let local = self.local.to_text();
        if *target == local && *requester != local && crate::queue::is_queue_state_newer(
            self.queue.version,
            self.queue.updated_at,
            known_version,
            known_updated_at,
        ) {
            let response = WireMessage::QueueResponse {
                target: requester.clone(),
                state: self.queue.state(local.as_str()),
            };
            let total: usize = self.queue.items.len();
            self.defer(
                vec![
                    announce(
                        "sent ".to_owned().concat(decimal_text(total as u128).as_str()).concat(
                            " queue item(s)",
                        ),
                        "queue response failed: ".to_owned(),
                    ),
                ],
            );
            just(Effect::Publish(response))
        } else {
            nothing()
        }
    }
}

} // verus!
