//! What is done from time to time.
use crate::collections::{deep, group_deep, keys_of};
use crate::effect::{Effect, Task, TaskModel, Tick, World, WorldModel};
use crate::session::links::{expired_warmups, promote_all, promotions};
use crate::session::{
    guard, guard_fully, guarded, guarded_fully, nothing, Session, SessionModel, Step,
};
use vstd::prelude::*;
use vstd::string::*;

verus! {

impl SessionModel {
    /// A clock has ticked.
    pub open spec fn tick(self, tick: Tick, at: WorldModel) -> Step {
        match tick {
            Tick::Music => {
                let expired = self.expire_vote(at);
                expired.after.deferring(
                    seq![
                        TaskModel::ResolveVote,
                        guard_fully("vote execution failed: "@),
                        TaskModel::MaybeStart,
                        guard_fully("playback prepare failed: "@),
                        TaskModel::SyncPlayer,
                    ],
                ).asking(expired.effects)
            },
            Tick::HistorySync => self.deferring(seq![guard("sync summary failed: "@)]).asking(
                self.summaries(),
            ),
            Tick::HistoryBurst => self.deferring(
                seq![
                    TaskModel::DrainSync { now: at.now.mono_nanos },
                    guard("sync summary failed: "@),
                ],
            ).stay(),
            Tick::MusicSync => self.repeat_playback(at),
            Tick::Promotion => self.deferring(promotions(keys_of(self.peers.routes))).stay(),
            Tick::Warmup => self.deferring(
                promotions(expired_warmups(self.peers.warmups, at.now.mono_nanos)),
            ).stay(),
            Tick::Register => self.register_nodes(at),
            Tick::Discover => self.discover_peers(at),
        }
    }
}

impl Session {
    fn expired_warmups(&self, now: u64) -> (peers: Vec<String>)
        ensures
            deep(peers@) == expired_warmups(self@.peers.warmups, now),
    {
        let ghost all = self.peers.warmups@;
        let mut peers: Vec<String> = Vec::new();
        let mut i: usize = 0;
        assert(deep(peers@) =~= expired_warmups(all.take(0), now));
        while i < self.peers.warmups.entries.len()
            invariant
                i <= all.len(),
                all == self.peers.warmups@,
                deep(peers@) == expired_warmups(all.take(i as int), now),
            decreases self.peers.warmups.entries.len() - i,
        {
            broadcast use group_deep;

            proof {
                assert(all.take(i + 1).drop_last() =~= all.take(i as int));
                assert(all.take(i + 1).last() == all[i as int]);
            }
            if self.peers.warmups.entries[i].1.is_expired(now) {
                peers.push(self.peers.warmups.entries[i].0.clone());
            }
            i = i + 1;
        }
        assert(all.take(i as int) =~= all);
        peers
    }

    /// Tries every relayed peer for a direct connection if that is due.
    pub fn retry_direct_promotions(&mut self)
        ensures
            final(self)@ == old(self)@.deferring(promotions(keys_of(old(self)@.peers.routes))),
    {
        let peers = self.peers.routes.keys();
        let tasks = promote_all(&peers);
        self.defer(tasks);
    }

    /// Tries the peers whose time to subscribe is over.
    pub fn retry_gossip_warmup_promotions(&mut self, at: &World)
        ensures
            final(self)@ == old(self)@.deferring(
                promotions(expired_warmups(old(self)@.peers.warmups, at@.now.mono_nanos)),
            ),
    {
        let peers = self.expired_warmups(at.now.mono_nanos);
        let tasks = promote_all(&peers);
        self.defer(tasks);
    }

    fn tick_music(&mut self, at: &World) -> (effects: Vec<Effect>)
        ensures
            (Step { after: final(self)@, effects: deep(effects@) }) == old(self)@.tick(
                Tick::Music,
                at@,
            ),
    {
        let effects = self.expire_vote(at);
        let tasks = vec![
            Task::ResolveVote,
            guarded_fully("vote execution failed: "),
            Task::MaybeStart,
            guarded_fully("playback prepare failed: "),
            Task::SyncPlayer,
        ];
        assert(deep(tasks@) =~= seq![
            TaskModel::ResolveVote,
            guard_fully("vote execution failed: "@),
            TaskModel::MaybeStart,
            guard_fully("playback prepare failed: "@),
            TaskModel::SyncPlayer,
        ]);
        self.defer(tasks);
        effects
    }

    /// A clock has ticked.
    pub fn tick(&mut self, tick: Tick, at: &World) -> (effects: Vec<Effect>)
        requires
            at.in_range(),
        ensures
            (Step { after: final(self)@, effects: deep(effects@) }) == old(self)@.tick(tick, at@),
    {
        match tick {
            Tick::Music => self.tick_music(at),
            Tick::HistorySync => {
                let effects = self.publish_sync_summary();
                self.defer(vec![guarded("sync summary failed: ")]);
                effects
            },
            Tick::HistoryBurst => {
                let tasks = vec![
                    Task::DrainSync { now: at.now.mono_nanos },
                    guarded("sync summary failed: "),
                ];
                assert(deep(tasks@) =~= seq![
                    TaskModel::DrainSync { now: at.now.mono_nanos },
                    guard("sync summary failed: "@),
                ]);
                self.defer(tasks);
                nothing()
            },
            Tick::MusicSync => self.repeat_playback(at),
            Tick::Promotion => {
                self.retry_direct_promotions();
                nothing()
            },
            Tick::Warmup => {
                self.retry_gossip_warmup_promotions(at);
                nothing()
            },
            Tick::Register => self.register_with_rendezvous_nodes(at),
            Tick::Discover => self.discover_rendezvous_peers(at),
        }
    }
}

} // verus!
