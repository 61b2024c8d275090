//! Following the queue and the playback of other peers.
use crate::collections::{deep, group_deep};
use crate::effect::{Effect, EffectModel, Task, TaskModel, World, WorldModel};
use crate::model::{
    PlaybackState, PlaybackStateModel, QueueState, QueueStateModel, Track, TrackModel, UiEvent,
    UiEventModel, WireMessage, WireMessageModel,
};
use crate::playback::{
    audible_at, has_loaded, normalize_remote_playback_state, playback_position_ms,
    playback_should_be_audible, position_at, rebased, replaces, should_apply_playback_state, steer,
    steering, PlayerCommand, PlayerCommandModel,
};
use crate::session::music::{player_told, queue_status, send_queue_status, tell_player};
use crate::session::{
    disregard, disregarded, guard, guard_fully, guarded, guarded_fully, is_among, just, nothing,
    tell, telling, Session, SessionModel, Step,
};
use crate::text::{decimal, decimal_text, short_peer, short_peer_text};
use vstd::prelude::*;
use vstd::string::*;

verus! {

impl SessionModel {
    /// A version of the queue has come from a peer: it is taken over and shown if it is newer.
    pub open spec fn hear_queue_state(self, state: QueueStateModel, prefix: Seq<char>) -> Step {
        if self.queue.superseded_by(state) {
            SessionModel { queue: self.queue.receive(state), ..self }.asking(
                seq![
                    EffectModel::Ui(UiEventModel::Queue(state)),
                    telling(prefix + " by "@ + short_peer_text(state.updated_by)),
                ] + queue_status(self.playback, state.items),
            )
        } else {
            self.stay()
        }
    }

    /// The state of another peer's playback is to be followed.
    pub open spec fn follows(self, state: PlaybackStateModel) -> bool {
        state.leader_peer_id != self.local && replaces(self.playback, state)
    }

    /// What waits to be played is given up for what a peer plays, whether or not the others hear
    /// of it.
    pub open spec fn yielding(self, reason: Seq<char>, tasks: Seq<TaskModel>) -> Step {
        if self.pending is Some {
            self.without_pending().deferring(seq![disregard()] + tasks).asking(
                self.cancellation(reason),
            )
        } else {
            self.deferring(tasks).stay()
        }
    }

    /// The playback state of a peer has come: it is followed if it is newer than the current one.
    pub open spec fn hear_playback_state(self, state: PlaybackStateModel, at: WorldModel) -> Step {
        let local = rebased(state, at.now.wall_micros);
        if self.follows(local) {
            self.yielding(
                "superseded by remote playback"@,
                seq![
                    TaskModel::ApplyRemote { state: local },
                    guard_fully("playback sync failed: "@),
                ],
            )
        } else {
            self.stay()
        }
    }

    /// The player follows the playback of a peer, which stands where it does at this moment.
    pub open spec fn apply_remote(self, state: PlaybackStateModel, at: WorldModel) -> Step {
        let now = at.now.wall_micros;
        let position_ms = position_at(state, now, at.played_ms);
        let audible = audible_at(state, now, at.played_ms);
        let adopting = self.deferring(seq![TaskModel::Adopt { state: state }]);
        match state.track {
            None => adopting.asking(player_told(at, PlayerCommandModel::Stop)),
            Some(track) => match at.player {
                None => adopting.stay(),
                Some(player) => if player.track_id == Some(track.track_id) {
                    adopting.asking(
                        seq![
                            EffectModel::Player(steering(player, position_ms, audible, now)),
                        ],
                    )
                } else {
                    adopting.asking(
                        seq![
                            telling("downloading "@ + track.title),
                            EffectModel::FetchAudio(track),
                            EffectModel::Player(
                                PlayerCommandModel::Load {
                                    track_id: track.track_id,
                                    position_ms: position_ms,
                                    playing: audible,
                                    at_micros: now,
                                },
                            ),
                        ],
                    )
                },
            },
        }
    }

    /// The playback of a peer becomes the current one.
    pub open spec fn adopt(self, state: PlaybackStateModel) -> Step {
        SessionModel { playback: Some(state), ..self }.deferring(
            seq![TaskModel::ShowPlayback],
        ).stay()
    }

    /// A peer asks to load a track: this peer does so if it is among those asked and the state is
    /// newer than the current one.
    pub open spec fn hear_playback_prepare(
        self,
        state: PlaybackStateModel,
        expected_peers: Seq<Seq<char>>,
        at: WorldModel,
    ) -> Step {
        let local = rebased(state, at.now.wall_micros);
        let asked = expected_peers.len() == 0 || expected_peers.contains(self.local);
        if asked && self.follows(local) {
            self.yielding(
                "superseded by remote playback prepare"@,
                seq![
                    TaskModel::AcceptPrepare { state: local },
                    TaskModel::PublishReady { session_id: local.session_id },
                    guard_fully("playback prepare failed: "@),
                ],
            )
        } else if !asked {
            self.saying("ignored playback prepare for another peer set"@)
        } else {
            self.stay()
        }
    }

    /// The player is held while a track of a peer is loaded.
    pub open spec fn accept_prepare(self, state: PlaybackStateModel, at: WorldModel) -> Step {
        self.deferring(seq![TaskModel::AdoptPrepare { state: state }]).asking(
            player_told(
                at,
                PlayerCommandModel::SetPlaying { playing: false, at_micros: at.now.wall_micros },
            ),
        )
    }

    /// The playback that a peer prepares becomes the current one.
    pub open spec fn adopt_prepare(self, state: PlaybackStateModel) -> Step {
        SessionModel { playback: Some(state), ..self }.deferring(
            match state.track {
                Some(track) => seq![
                    TaskModel::ShowPlayback,
                    TaskModel::PrepareAudio { track: track },
                ],
                None => seq![TaskModel::ShowPlayback],
            },
        ).stay()
    }

    /// The audio that a peer asks to load is fetched, if there is a player.
    pub open spec fn prepare_audio(self, track: TrackModel, at: WorldModel) -> Step {
        if at.player is Some {
            self.deferring(seq![TaskModel::LoadPrepared { track: track }]).asking(
                seq![
                    telling("preparing "@ + track.title),
                    telling("downloading "@ + track.title),
                    EffectModel::FetchAudio(track),
                ],
            )
        } else {
            self.asking(
                seq![
                    telling("preparing "@ + track.title),
                    telling("audio output unavailable; confirming prepare"@),
                ],
            )
        }
    }

    /// The audio that a peer asks to load is loaded.
    pub open spec fn load_prepared(self, track: TrackModel, at: WorldModel) -> Step {
        self.asking(
            player_told(
                at,
                PlayerCommandModel::Load {
                    track_id: track.track_id,
                    position_ms: 0,
                    playing: false,
                    at_micros: at.now.wall_micros,
                },
            ).push(telling("local audio ready"@)),
        )
    }

    /// This peer says that it is ready.
    pub open spec fn publish_ready(self, session_id: Seq<char>) -> Step {
        self.deferring(seq![guard("playback ready failed: "@)]).asking(
            seq![
                EffectModel::Publish(
                    WireMessageModel::PlaybackReady {
                        session_id: session_id,
                        peer_id: self.local,
                    },
                ),
            ],
        )
    }

    /// A peer that was asked for it says that it is ready for the first time.
    pub open spec fn ready_counts(self, session_id: Seq<char>, peer_id: Seq<char>) -> bool {
        match self.pending {
            Some(pending) => pending.state.session_id == session_id
                && pending.state.leader_peer_id == self.local && pending.expected_peers.contains(
                peer_id,
            ) && !pending.ready_peers.contains(peer_id),
            None => false,
        }
    }

    /// A peer says that it is ready.
    pub open spec fn hear_playback_ready(self, session_id: Seq<char>, peer_id: Seq<char>) -> Step {
        let tasks = seq![TaskModel::MaybeStart, guard_fully("playback start failed: "@)];
        if self.ready_counts(session_id, peer_id) {
            let pending = self.pending->0.with_ready(peer_id);
            SessionModel { pending: Some(pending), ..self }.deferring(tasks).saying(
                "peer "@ + peer_id + " ready ("@ + decimal(pending.ready_peers.len()) + "/"@
                    + decimal(pending.expected_peers.len()) + ")"@,
            )
        } else {
            self.deferring(tasks).stay()
        }
    }

    /// A peer has given up a playback: it ends here too if it is the current one.
    pub open spec fn hear_playback_cancel(
        self,
        session_id: Seq<char>,
        leader: Seq<char>,
        reason: Seq<char>,
        at: WorldModel,
    ) -> Step {
        if leader != self.local && self.playback is Some && self.playback->0.session_id
            == session_id {
            SessionModel { playback: None, ..self }.asking(
                player_told(at, PlayerCommandModel::Stop) + seq![
                    EffectModel::Ui(UiEventModel::Playback(None)),
                    telling("playback canceled: "@ + reason),
                ],
            )
        } else {
            self.stay()
        }
    }
}

impl Session {
    /// Takes over a version of the queue from a peer if it is newer.
    pub fn apply_remote_queue_state(&mut self, state: QueueState, status_prefix: &str) -> (effects:
        Vec<Effect>)
        ensures
            (Step { after: final(self)@, effects: deep(effects@) }) == old(self)@.hear_queue_state(
                state@,
                status_prefix@,
            ),
    {
        broadcast use group_deep;

        if !self.queue.receive(&state) {
            return nothing();
        }
        let by = status_prefix.to_owned().concat(" by ").concat(
            short_peer(state.updated_by.as_str()).as_str(),
        );
        let mut effects = vec![Effect::Ui(UiEvent::Queue(state)), tell(by)];
        let mut status = send_queue_status(&self.playback, &self.queue.items);
        effects.append(&mut status);
        assert(deep(effects@) =~= old(self)@.hear_queue_state(state@, status_prefix@).effects);
        effects
    }

    fn should_follow(&self, state: &PlaybackState) -> (follow: bool)
        ensures
            follow == self@.follows(state@),
    {
        state.leader_peer_id != self.local.to_text() && should_apply_playback_state(
            self.playback.as_ref(),
            state,
        )
    }

    /// Gives up what waits to be played for what a peer plays.
    pub fn cancel_local_pending_playback(&mut self, reason: &str, tasks: Vec<Task>) -> (effects: Vec<
        Effect,
    >)
        ensures
            (Step { after: final(self)@, effects: deep(effects@) }) == old(self)@.yielding(
                reason@,
                deep(tasks@),
            ),
    {
        broadcast use group_deep;

        let ghost rest = deep(tasks@);
        let mut tasks = tasks;
        let waiting = self.pending.is_some();
        let effects = self.cancel_pending(reason);
        if waiting {
            tasks.insert(0, disregarded());
            assert(deep(tasks@) =~= seq![disregard()] + rest);
        }
        self.defer(tasks);
        effects
    }

    /// The playback state of a peer has come.
    pub fn hear_playback_state(&mut self, state: PlaybackState, at: &World) -> (effects: Vec<Effect>)
        ensures
            (Step { after: final(self)@, effects: deep(effects@) })
                == old(self)@.hear_playback_state(state@, at@),
    {
        let local = normalize_remote_playback_state(&state, at.now.wall_micros);
        if !self.should_follow(&local) {
            return nothing();
        }
        let tasks = vec![
            Task::ApplyRemote { state: local },
            guarded_fully("playback sync failed: "),
        ];
        assert(deep(tasks@) =~= seq![
            TaskModel::ApplyRemote { state: local@ },
            guard_fully("playback sync failed: "@),
        ]);
        self.cancel_local_pending_playback("superseded by remote playback", tasks)
    }

    /// Makes the player follow the playback of a peer.
    pub fn apply_remote_playback_state(&mut self, state: PlaybackState, at: &World) -> (effects: Vec<
        Effect,
    >)
        ensures
            (Step { after: final(self)@, effects: deep(effects@) }) == old(self)@.apply_remote(
                state@,
                at@,
            ),
    {
        let now: i64 = at.now.wall_micros;
        let position_ms: u64 = playback_position_ms(&state, now, at.played_ms);
        let audible = playback_should_be_audible(&state, now, at.played_ms);
        let effects = match &state.track {
            None => tell_player(at, PlayerCommand::Stop),
            Some(track) => match &at.player {
                None => nothing(),
                Some(player) => if has_loaded(player, &track.track_id) {
                    just(Effect::Player(steer(player, position_ms, audible, now)))
                } else {
                    vec![
                        tell("downloading ".to_owned().concat(track.title.as_str())),
                        Effect::FetchAudio(track.clone()),
                        Effect::Player(
                            PlayerCommand::Load {
                                track_id: track.track_id.clone(),
                                position_ms,
                                playing: audible,
                                at_micros: now,
                            },
                        ),
                    ]
                },
            },
        };
        self.defer(vec![Task::Adopt { state }]);
        assert(deep(effects@) =~= old(self)@.apply_remote(state@, at@).effects);
        effects
    }

    /// Makes the playback of a peer the current one.
    pub fn adopt(&mut self, state: PlaybackState) -> (effects: Vec<Effect>)
        ensures
            (Step { after: final(self)@, effects: deep(effects@) }) == old(self)@.adopt(state@),
    {
        self.playback = Some(state);
        self.defer(vec![Task::ShowPlayback]);
        nothing()
    }

    /// A peer asks to load a track.
    pub fn hear_playback_prepare(
        &mut self,
        state: PlaybackState,
        expected_peers: &Vec<String>,
        at: &World,
    ) -> (effects: Vec<Effect>)
        ensures
            (Step { after: final(self)@, effects: deep(effects@) })
                == old(self)@.hear_playback_prepare(state@, deep(expected_peers@), at@),
    {
        let local = normalize_remote_playback_state(&state, at.now.wall_micros);
        let is_expected: bool = expected_peers.len() == 0 || is_among(
            expected_peers,
            self.local.as_str(),
        );
        if is_expected && self.should_follow(&local) {
            let session_id = local.session_id.clone();
            let tasks = vec![
                Task::AcceptPrepare { state: local },
                Task::PublishReady { session_id },
                guarded_fully("playback prepare failed: "),
            ];
            assert(deep(tasks@) =~= seq![
                TaskModel::AcceptPrepare { state: local@ },
                TaskModel::PublishReady { session_id: local@.session_id },
                guard_fully("playback prepare failed: "@),
            ]);
            self.cancel_local_pending_playback("superseded by remote playback prepare", tasks)
        } else if !is_expected {
            just(tell("ignored playback prepare for another peer set".to_owned()))
        } else {
            nothing()
        }
    }

    /// Holds the player while a track of a peer is loaded.
    pub fn apply_playback_prepare(&mut self, state: PlaybackState, at: &World) -> (effects: Vec<
        Effect,
    >)
        ensures
            (Step { after: final(self)@, effects: deep(effects@) }) == old(self)@.accept_prepare(
                state@,
                at@,
            ),
    {
        self.defer(vec![Task::AdoptPrepare { state }]);
        tell_player(
            at,
            PlayerCommand::SetPlaying { playing: false, at_micros: at.now.wall_micros },
        )
    }

    /// Makes the playback that a peer prepares the current one.
    pub fn adopt_prepare(&mut self, state: PlaybackState) -> (effects: Vec<Effect>)
        ensures
            (Step { after: final(self)@, effects: deep(effects@) }) == old(self)@.adopt_prepare(
                state@,
            ),
    {
        let tasks = match &state.track {
            Some(track) => vec![
                Task::ShowPlayback,
                Task::PrepareAudio { track: track.clone() },
            ],
            None => vec![Task::ShowPlayback],
        };
        assert(deep(tasks@) =~= match state@.track {
            Some(track) => seq![
                TaskModel::ShowPlayback,
                TaskModel::PrepareAudio { track: track },
            ],
            None => seq![TaskModel::ShowPlayback],
        });
        self.playback = Some(state);
        self.defer(tasks);
        nothing()
    }

    /// Fetches the audio that a peer asks to load, if there is a player.
    pub fn prepare_audio(&mut self, track: Track, at: &World) -> (effects: Vec<Effect>)
        ensures
            (Step { after: final(self)@, effects: deep(effects@) }) == old(self)@.prepare_audio(
                track@,
                at@,
            ),
    {
        let preparing = tell("preparing ".to_owned().concat(track.title.as_str()));
        let effects = if at.player.is_some() {
            let downloading = tell("downloading ".to_owned().concat(track.title.as_str()));
            let fetch = Effect::FetchAudio(track.clone());
            self.defer(vec![Task::LoadPrepared { track }]);
            vec![preparing, downloading, fetch]
        } else {
            vec![
                preparing,
                tell("audio output unavailable; confirming prepare".to_owned()),
            ]
        };
        assert(deep(effects@) =~= old(self)@.prepare_audio(track@, at@).effects);
        effects
    }

    /// Loads the audio that a peer asks to load.
    pub fn load_prepared(&self, track: Track, at: &World) -> (effects: Vec<Effect>)
        ensures
            self@.asking(deep(effects@)) == self@.load_prepared(track@, at@),
    {
        broadcast use group_deep;

        let mut effects = tell_player(
            at,
            PlayerCommand::Load {
                track_id: track.track_id,
                position_ms: 0,
                playing: false,
                at_micros: at.now.wall_micros,
            },
        );
        effects.push(tell("local audio ready".to_owned()));
        effects
    }

    /// Says that this peer is ready.
    pub fn publish_playback_ready(&mut self, session_id: String) -> (effects: Vec<Effect>)
        ensures
            (Step { after: final(self)@, effects: deep(effects@) }) == old(self)@.publish_ready(
                session_id@,
            ),
    {
        self.defer(vec![guarded("playback ready failed: ")]);
        just(
            Effect::Publish(
                WireMessage::PlaybackReady { session_id, peer_id: self.local.to_text() },
            ),
        )
    }

    /// A peer says that it is ready.
    pub fn hear_playback_ready(&mut self, session_id: &String, peer_id: &str) -> (effects: Vec<
        Effect,
    >)
        ensures
            (Step { after: final(self)@, effects: deep(effects@) })
                == old(self)@.hear_playback_ready(session_id@, peer_id@),
    {
        let mut effects = nothing();
        if let Some(mut pending) = self.pending.take() {
            if pending.state.session_id == *session_id && pending.state.leader_peer_id
                == self.local.to_text() && pending.mark_ready(peer_id) {
                effects = just(
                    tell(
                        "peer ".to_owned().concat(peer_id).concat(" ready (").concat(
                            decimal_text(pending.ready_count() as u128).as_str(),
                        ).concat("/").concat(
                            decimal_text(pending.expected_count() as u128).as_str(),
                        ).concat(")"),
                    ),
                );
            }
            self.pending = Some(pending);
        }
        let tasks = vec![Task::MaybeStart, guarded_fully("playback start failed: ")];
        assert(deep(tasks@) =~= seq![
            TaskModel::MaybeStart,
            guard_fully("playback start failed: "@),
        ]);
        self.defer(tasks);
        effects
    }

    /// A peer has given up a playback.
    pub fn apply_playback_cancel(
        &mut self,
        session_id: &String,
        leader: &String,
        reason: &str,
        at: &World,
    ) -> (effects: Vec<Effect>)
        ensures
            (Step { after: final(self)@, effects: deep(effects@) })
                == old(self)@.hear_playback_cancel(session_id@, leader@, reason@, at@),
    {
        broadcast use group_deep;

        if *leader == self.local.to_text() {
            return nothing();
        }
        let current: bool = match &self.playback {
            Some(state) => state.session_id == *session_id,
            None => false,
        };
        if !current {
            return nothing();
        }
        self.playback = None;
        let mut effects = tell_player(at, PlayerCommand::Stop);
        effects.push(Effect::Ui(UiEvent::Playback(None)));
        effects.push(tell("playback canceled: ".to_owned().concat(reason)));
        assert(deep(effects@) =~= old(self)@.hear_playback_cancel(
            session_id@,
            leader@,
            reason@,
            at@,
        ).effects);
        effects
    }
}

} // verus!
