//! Playing the items of the queue.
use crate::collections::{copy_all, deep, group_deep, with_item, TextSet};
use crate::effect::{
    Effect, EffectModel, Failure, FailureModel, Task, TaskModel, World, WorldModel,
};
use crate::model::{
    PlaybackState, PlaybackStateModel, QueueItem, QueueItemModel, Track, TrackModel, UiEvent,
    UiEventModel, WireMessage, WireMessageModel,
};
use crate::playback::{
    can_play_at_position, clamp_playback_position_ms, clamped, has_finished, idle_state, is_loaded,
    is_over, may_play_at, new_idle_state, new_waiting_state, playback_has_track,
    playback_position_ms, playback_view, player_sync, position_at, reissue, reissued, repeat_state,
    repeated, start_state, starting_state, sync_loaded_player_to_state, view_playback,
    waiting_state, PendingPlayback, PendingPlaybackModel, PlayerCommand, PlayerCommandModel,
};
use crate::routes::with_items;
use crate::session::{
    guard_fully, guarded_fully, just, nothing, perform, tell, telling, Session, SessionModel, Step,
};
use crate::text::{decimal, decimal_text, short_peer, short_peer_text};
use crate::time::{MUSIC_PREPARE_TIMEOUT, MUSIC_START_DELAY_MS};
use crate::vote::ordinal_text;
use std::collections::VecDeque;
use vstd::prelude::*;
use vstd::string::*;

verus! {

/// The player is told something, if there is one.
pub open spec fn player_told(at: WorldModel, command: PlayerCommandModel) -> Seq<EffectModel> {
    if at.player is Some {
        seq![EffectModel::Player(command)]
    } else {
        Seq::empty()
    }
}

/// A playback is shown as it stands.
pub open spec fn showing(state: PlaybackStateModel, at: WorldModel) -> EffectModel {
    EffectModel::Ui(
        UiEventModel::Playback(playback_view(state, at.now.wall_micros, at.played_ms)),
    )
}

/// A playback is sent to the peers.
pub open spec fn sending(state: PlaybackStateModel) -> EffectModel {
    EffectModel::Publish(WireMessageModel::PlaybackState { state: state })
}

/// One item of the queue in a line.
pub open spec fn item_line(items: Seq<QueueItemModel>, i: int) -> Seq<char> {
    "#"@ + decimal((i + 1) as nat) + " "@ + items[i].track.title + " ("@ + short_peer_text(
        items[i].requested_by,
    ) + ")"@
}

/// The number of items that are told of one by one.
pub open spec fn listed(items: Seq<QueueItemModel>) -> nat {
    if items.len() < 3 {
        items.len()
    } else {
        3
    }
}

/// What is played and what comes next, in a few lines.
pub open spec fn queue_status(
    playback: Option<PlaybackStateModel>,
    items: Seq<QueueItemModel>,
) -> Seq<EffectModel> {
    let now = seq![
        telling(
            if is_loaded(playback) {
                "now: "@ + playback->0.track->0.title
            } else {
                "now: idle"@
            },
        ),
    ];
    if items.len() == 0 {
        now.push(telling("queue is empty"@))
    } else {
        now + Seq::new(listed(items), |i: int| telling(item_line(items, i))) + if items.len() > 3 {
            seq![telling("... and "@ + decimal((items.len() - 3) as nat) + " more"@)]
        } else {
            Seq::empty()
        }
    }
}

/// The delay before the start of a playback, in seconds with one decimal.
pub open spec fn start_delay_text() -> Seq<char> {
    decimal((MUSIC_START_DELAY_MS / 1000) as nat) + "."@ + decimal(
        (MUSIC_START_DELAY_MS % 1000 / 100) as nat,
    )
}

impl SessionModel {
    /// The version of the next playback state.
    pub open spec fn next_version(self) -> u64 {
        (self.playback_version + 1) as u64
    }

    /// The playback goes on from a position, led by this peer.
    pub open spec fn steered(self, playing: bool, position_ms: u64, at: WorldModel) -> SessionModel {
        SessionModel {
            playback: Some(
                reissued(
                    self.playback->0,
                    self.local,
                    self.next_version(),
                    at.now.wall_micros,
                    playing,
                    position_ms,
                ),
            ),
            playback_version: self.next_version(),
            ..self
        }
    }

    /// Where the playback stands.
    pub open spec fn current_position(self, at: WorldModel) -> u64 {
        position_at(self.playback->0, at.now.wall_micros, at.played_ms)
    }

    /// The playback is held or goes on where it stands, if there is anything left to play.
    pub open spec fn set_playing(self, playing: bool, at: WorldModel) -> SessionModel {
        self.steered(
            playing && may_play_at(self.playback->0, self.current_position(at)),
            self.current_position(at),
            at,
        )
    }

    /// The playback jumps to a position.
    pub open spec fn sought(self, position_ms: u64, at: WorldModel) -> SessionModel {
        let position = clamped(self.playback->0, position_ms);
        self.steered(
            self.playback->0.playing && may_play_at(self.playback->0, position),
            position,
            at,
        )
    }

    /// Holds the playback or lets it go on, at the user's command.
    pub open spec fn play_or_hold(self, playing: bool, at: WorldModel) -> Step {
        let after = self.set_playing(playing, at);
        let state = after.playback->0;
        after.asking(
            player_told(
                at,
                PlayerCommandModel::SetPlaying {
                    playing: state.playing,
                    at_micros: at.now.wall_micros,
                },
            ) + seq![showing(state, at), sending(state)],
        )
    }

    /// Holds the playback or lets it go on, by a vote.
    pub open spec fn play_or_hold_by_vote(self, playing: bool, at: WorldModel) -> Step {
        let after = self.set_playing(playing, at);
        let state = after.playback->0;
        after.asking(
            player_told(
                at,
                PlayerCommandModel::SetPlaying {
                    playing: state.playing,
                    at_micros: at.now.wall_micros,
                },
            ) + seq![sending(state), showing(state, at)],
        )
    }

    /// Jumps to a position, at the user's command. A player that fails to follow holds nobody up.
    pub open spec fn seek(self, position_ms: u64, at: WorldModel) -> Step {
        let after = self.sought(position_ms, at);
        let state = after.playback->0;
        let news = seq![showing(state, at), sending(state)];
        if at.player is Some {
            after.deferring(seq![guard_fully("audio seek failed: "@), perform(news)]).asking(
                seq![
                    EffectModel::Player(
                        PlayerCommandModel::Seek {
                            position_ms: state.position_ms,
                            playing: state.playing,
                            at_micros: at.now.wall_micros,
                        },
                    ),
                ],
            )
        } else {
            after.asking(news)
        }
    }

    /// Jumps to a position, by a vote.
    pub open spec fn seek_by_vote(self, position_ms: u64, at: WorldModel) -> Step {
        let after = self.sought(position_ms, at);
        let state = after.playback->0;
        after.asking(
            player_told(
                at,
                PlayerCommandModel::Seek {
                    position_ms: state.position_ms,
                    playing: state.playing,
                    at_micros: at.now.wall_micros,
                },
            ) + seq![sending(state), showing(state, at)],
        )
    }

    /// Ends the playback and goes on to the next item.
    pub open spec fn skip_current(self) -> Step {
        self.deferring(
            seq![TaskModel::StopCurrent { reason: "skipped"@ }, TaskModel::StartNext],
        ).stay()
    }

    /// The user has asked for a track, which was found. `item_id` is the item's identifier.
    pub open spec fn track_resolved(
        self,
        track: TrackModel,
        position: Option<usize>,
        item_id: Seq<char>,
        at: WorldModel,
    ) -> Step {
        let place = self.queue.insertion_place(position);
        let item = QueueItemModel {
            item_id: item_id,
            track: track,
            requested_by: self.local,
            added_at_micros: at.now.wall_micros,
        };
        let after = SessionModel {
            queue: self.queue.changed(self.queue.items.insert(place, item), at.now.wall_micros),
            ..self
        };
        after.deferring(seq![TaskModel::StartNext]).asking(
            seq![
                after.queue_message(),
                after.queue_view(),
                telling("queued #"@ + decimal((place + 1) as nat) + ", "@ + track.title),
            ],
        )
    }

    /// Nothing is played and nothing waits.
    pub open spec fn is_silent(self) -> bool {
        self.pending is None && !is_loaded(self.playback)
    }

    /// There is a next item, and nothing keeps it from being played.
    pub open spec fn starts_next(self) -> bool {
        self.is_silent() && self.queue.items.len() > 0
    }

    /// The next item leaves the queue to be played, if nothing is.
    pub open spec fn start_next(self, at: WorldModel) -> Step {
        if self.starts_next() {
            let after = SessionModel {
                queue: self.queue.changed(self.queue.items.skip(1), at.now.wall_micros),
                ..self
            };
            after.deferring(seq![TaskModel::Supersede { item: self.queue.items[0] }]).asking(
                seq![after.queue_message(), after.queue_view()],
            )
        } else {
            self.stay()
        }
    }

    /// What waits to be played is given up, and the peers are told why.
    pub open spec fn cancellation(self, reason: Seq<char>) -> Seq<EffectModel> {
        match self.pending {
            Some(pending) => seq![
                EffectModel::Publish(
                    WireMessageModel::PlaybackCancel {
                        session_id: pending.state.session_id,
                        leader_peer_id: self.local,
                        reason: reason,
                    },
                ),
            ],
            None => Seq::empty(),
        }
    }

    /// Nothing waits to be played.
    pub open spec fn without_pending(self) -> SessionModel {
        SessionModel { pending: None, ..self }
    }

    /// What waits to be played gives way to an item of the queue.
    pub open spec fn supersede(self, item: QueueItemModel, at: WorldModel) -> Step {
        self.without_pending().deferring(
            seq![TaskModel::Prepare { item: item, at_micros: at.now.wall_micros }],
        ).asking(self.cancellation("superseded by next queue item"@))
    }

    /// An item waits to be played from `now` on until all connected peers have loaded its track.
    pub open spec fn prepare(self, item: QueueItemModel, now: i64, at: WorldModel) -> Step {
        let state = waiting_state(item, self.local, self.next_version(), now);
        let expected = with_item(with_items(Seq::empty(), at.connected), self.local);
        SessionModel {
            playback: Some(state),
            pending: Some(
                PendingPlaybackModel::fresh(
                    state,
                    expected,
                    (at.now.mono_nanos + MUSIC_PREPARE_TIMEOUT) as u64,
                ),
            ),
            playback_version: self.next_version(),
            ..self
        }.deferring(seq![TaskModel::FetchOwn { track: item.track }]).asking(
            player_told(
                at,
                PlayerCommandModel::SetPlaying { playing: false, at_micros: now },
            ) + seq![
                showing(state, at),
                EffectModel::Publish(
                    WireMessageModel::PlaybackPrepare { state: state, expected_peers: expected },
                ),
                telling("preparing "@ + item.track.title),
                telling("downloading "@ + item.track.title),
            ],
        )
    }

    /// The audio of what waits to be played is fetched.
    pub open spec fn fetch_own(self, track: TrackModel) -> Step {
        self.deferring(seq![TaskModel::OwnFetched { track: track }]).asking(
            seq![EffectModel::FetchAudio(track)],
        )
    }

    /// The audio of what waits to be played is there, and the player loads it if there is one.
    pub open spec fn own_fetched(self, track: TrackModel, at: WorldModel) -> Step {
        self.deferring(seq![TaskModel::OwnLoaded]).asking(
            player_told(
                at,
                PlayerCommandModel::Load {
                    track_id: track.track_id,
                    position_ms: 0,
                    playing: false,
                    at_micros: at.now.wall_micros,
                },
            ),
        )
    }

    /// The audio of what waits to be played could not be had.
    pub open spec fn own_fetch_failed(self, failure: FailureModel) -> Step {
        self.without_pending().deferring(seq![TaskModel::Raise(failure)]).asking(
            self.cancellation("local audio download failed"@),
        )
    }

    /// This peer is ready to play what waits.
    pub open spec fn own_loaded(self) -> Step {
        SessionModel {
            pending: match self.pending {
                Some(pending) => Some(pending.with_ready(self.local)),
                None => None,
            },
            ..self
        }.deferring(seq![TaskModel::MaybeStart]).saying("local audio ready"@)
    }

    /// The player cannot load what waits to be played.
    pub open spec fn own_load_failed(self) -> Step {
        self.without_pending().asking(self.cancellation("local audio failed to load"@))
    }

    /// Something waits to be played, and every peer is ready or the wait is over.
    pub open spec fn starts(self, at: WorldModel) -> bool {
        match self.pending {
            Some(pending) => pending.ready() || at.now.mono_nanos >= pending.deadline,
            None => false,
        }
    }

    /// What waits to be played starts once every peer is ready or the wait is over.
    pub open spec fn maybe_start(self, at: WorldModel) -> Step {
        match self.pending {
            Some(pending) => if pending.ready() || at.now.mono_nanos >= pending.deadline {
                let state = starting_state(pending.state, self.next_version(), at.now.wall_micros);
                SessionModel {
                    playback: Some(state),
                    pending: None,
                    playback_version: self.next_version(),
                    ..self
                }.asking(
                    seq![
                        sending(state),
                        showing(state, at),
                        telling(
                            "starting playback in "@ + start_delay_text() + "s ("@
                                + if pending.ready() {
                                "all peers ready"@
                            } else {
                                "ready wait timed out"@
                            } + ", "@ + decimal(pending.ready_peers.len()) + "/"@ + decimal(
                                pending.expected_peers.len(),
                            ) + ")"@,
                        ),
                    ],
                )
            } else {
                self.stay()
            },
            None => self.stay(),
        }
    }

    /// The player stops, and what waits to be played is given up.
    pub open spec fn stop_current(self, reason: Seq<char>, at: WorldModel) -> Step {
        self.without_pending().deferring(seq![TaskModel::GoIdle { reason: reason }]).asking(
            player_told(at, PlayerCommandModel::Stop) + self.cancellation(reason),
        )
    }

    /// Nothing is played any more.
    pub open spec fn go_idle(self, reason: Seq<char>, at: WorldModel) -> Step {
        let state = idle_state(self.local, self.next_version(), at.now.wall_micros);
        SessionModel {
            playback: Some(state),
            playback_version: self.next_version(),
            ..self
        }.asking(seq![sending(state), showing(state, at), telling(reason)])
    }

    /// The player is brought in line with the playback. Whether the track is over is judged by
    /// the same reading of the clock.
    pub open spec fn sync_player(self, at: WorldModel) -> Step {
        match self.playback {
            Some(state) => self.deferring(
                seq![
                    guard_fully("playback sync failed: "@),
                    TaskModel::CheckFinished {
                        at_micros: at.now.wall_micros,
                        played_ms: at.played_ms,
                    },
                ],
            ).asking(
                match player_sync(at.player, state, at.now.wall_micros, at.played_ms) {
                    Some(command) => seq![EffectModel::Player(command)],
                    None => Seq::empty(),
                },
            ),
            None => self.stay(),
        }
    }

    /// The playback is shown, or ended if its track was over at `then`, when `played_ms` were
    /// played.
    pub open spec fn check_finished(self, then: i64, played_ms: u64, at: WorldModel) -> Step {
        match self.playback {
            Some(state) => if is_over(state, self.local, at.player, then, played_ms) {
                self.deferring(
                    seq![TaskModel::StopCurrent { reason: "track finished"@ }, TaskModel::StartNext],
                ).stay()
            } else {
                self.asking(seq![showing(state, at)])
            },
            None => self.stay(),
        }
    }

    /// The playback is shown.
    pub open spec fn show_playback(self, at: WorldModel) -> Step {
        match self.playback {
            Some(state) => self.asking(seq![showing(state, at)]),
            None => self.stay(),
        }
    }

    /// The leader repeats the playback state.
    pub open spec fn repeat_playback(self, at: WorldModel) -> Step {
        match self.playback {
            Some(state) => if self.pending is None && state.leader_peer_id == self.local
                && state.track is Some {
                let next = repeated(state, at.now.wall_micros, at.played_ms);
                SessionModel { playback: Some(next), ..self }.asking(
                    seq![sending(next), showing(next, at)],
                )
            } else {
                self.stay()
            },
            None => self.stay(),
        }
    }
}

/// Tells the player something, if there is one.
pub fn tell_player(at: &World, command: PlayerCommand) -> (effects: Vec<Effect>)
    ensures
        deep(effects@) == player_told(at@, command@),
{
    if at.player.is_some() {
        just(Effect::Player(command))
    } else {
        nothing()
    }
}

/// Shows a playback as it stands.
pub fn show_state(state: &PlaybackState, at: &World) -> (effect: Effect)
    ensures
        effect@ == showing(state@, at@),
{
    Effect::Ui(UiEvent::Playback(view_playback(state, at.now.wall_micros, at.played_ms)))
}

/// Sends a playback to the peers.
pub fn publish_playback_state(state: &PlaybackState) -> (effect: Effect)
    ensures
        effect@ == sending(state@),
{
    Effect::Publish(WireMessage::PlaybackState { state: state.clone() })
}

fn describe_item(queue: &VecDeque<QueueItem>, i: usize) -> (text: String)
    requires
        i < queue@.len(),
    ensures
        text@ == item_line(deep(queue@), i as int),
{
    let item = &queue[i];
    "#".to_owned().concat(ordinal_text(i).as_str()).concat(" ").concat(
        item.track.title.as_str(),
    ).concat(" (").concat(short_peer(item.requested_by.as_str()).as_str()).concat(")")
}

/// Tells what is played and what comes next.
pub fn send_queue_status(playback: &Option<PlaybackState>, queue: &VecDeque<QueueItem>) -> (effects:
    Vec<Effect>)
    ensures
        deep(effects@) == queue_status(playback.deep_view(), deep(queue@)),
{
    broadcast use group_deep;

    let now = match playback {
        Some(state) => match &state.track {
            Some(track) => "now: ".to_owned().concat(track.title.as_str()),
            None => "now: idle".to_owned(),
        },
        None => "now: idle".to_owned(),
    };
    let ghost items = deep(queue@);
    let mut effects = just(tell(now));
    let ghost first = deep(effects@);
    if queue.len() == 0 {
        effects.push(tell("queue is empty".to_owned()));
        return effects;
    }
    let mut i: usize = 0;
    let ghost lines = Seq::new(listed(items), |i: int| telling(item_line(items, i)));
    assert(deep(effects@) =~= first + lines.take(0));
    while i < 3 && i < queue.len()
        invariant
            items == deep(queue@),
            lines == Seq::new(listed(items), |i: int| telling(item_line(items, i))),
            i <= lines.len(),
            deep(effects@) == first + lines.take(i as int),
        decreases 3 - i,
    {
        broadcast use group_deep;

        effects.push(tell(describe_item(queue, i)));
        assert(first + lines.take(i + 1) =~= (first + lines.take(i as int)).push(
            lines[i as int],
        ));
        i = i + 1;
    }
    assert(lines.take(i as int) =~= lines);
    if queue.len() > 3 {
        effects.push(
            tell(
                "... and ".to_owned().concat(decimal_text((queue.len() - 3) as u128).as_str()).concat(
                    " more",
                ),
            ),
        );
    }
    assert(deep(effects@) =~= queue_status(playback.deep_view(), deep(queue@)));
    effects
}

/// The peers that are asked to load a track: those that are connected, and this one.
pub fn expected_playback_peers(at: &World, local: &str) -> (peers: TextSet)
    ensures
        peers@ == with_item(with_items(Seq::empty(), at@.connected), local@),
{
    let mut peers = TextSet::new();
    let mut i: usize = 0;
    assert(at@.connected.take(0) =~= Seq::<Seq<char>>::empty());
    while i < at.connected.len()
        invariant
            i <= at@.connected.len(),
            peers@ == with_items(Seq::empty(), at@.connected.take(i as int)),
        decreases at.connected.len() - i,
    {
        let _new = peers.insert(at.connected[i].as_str());
        proof {
            assert(at@.connected.take(i + 1).drop_last() =~= at@.connected.take(i as int));
            assert(at@.connected.take(i + 1).last() == at.connected@[i as int]@);
        }
        i = i + 1;
    }
    assert(at@.connected.take(i as int) =~= at@.connected);
    let _new = peers.insert(local);
    peers
}

fn start_notice(pending: &PendingPlayback) -> (text: String)
    ensures
        text@ == "starting playback in "@ + start_delay_text() + "s ("@ + if pending@.ready() {
            "all peers ready"@
        } else {
            "ready wait timed out"@
        } + ", "@ + decimal(pending@.ready_peers.len()) + "/"@ + decimal(
            pending@.expected_peers.len(),
        ) + ")"@,
{
    let delay = decimal_text((MUSIC_START_DELAY_MS / 1000) as u128).concat(".").concat(
        decimal_text((MUSIC_START_DELAY_MS % 1000 / 100) as u128).as_str(),
    );
    let reason = if pending.is_ready() {
        "all peers ready"
    } else {
        "ready wait timed out"
    };
    "starting playback in ".to_owned().concat(delay.as_str()).concat("s (").concat(reason).concat(
        ", ",
    ).concat(decimal_text(pending.ready_count() as u128).as_str()).concat("/").concat(
        decimal_text(pending.expected_count() as u128).as_str(),
    ).concat(")")
}

impl Session {
    /// Tells the peers that what waits to be played is given up.
    pub fn cancel_pending(&mut self, reason: &str) -> (effects: Vec<Effect>)
        ensures
            final(self)@ == old(self)@.without_pending(),
            deep(effects@) == old(self)@.cancellation(reason@),
    {
        match self.pending.take() {
            Some(pending) => just(
                Effect::Publish(
                    WireMessage::PlaybackCancel {
                        session_id: pending.state.session_id,
                        leader_peer_id: self.local.to_text(),
                        reason: reason.to_owned(),
                    },
                ),
            ),
            None => nothing(),
        }
    }

    fn steer(&mut self, playing: bool, position_ms: u64, at: &World) -> (state: PlaybackState)
        requires
            old(self)@.can_issue(),
            old(self)@.playback is Some,
        ensures
            final(self)@ == old(self)@.steered(playing, position_ms, at@),
            final(self)@.playback == Some(state@),
    {
        let mut state = self.playback.take().unwrap();
        self.playback_version = self.playback_version + 1;
        reissue(
            &mut state,
            self.local.as_str(),
            self.playback_version,
            at.now.wall_micros,
            playing,
            position_ms,
        );
        self.playback = Some(state.clone());
        state
    }

    fn apply_playing(&mut self, playing: bool, at: &World) -> (state: PlaybackState)
        requires
            old(self)@.can_issue(),
            old(self)@.playback is Some,
        ensures
            final(self)@ == old(self)@.set_playing(playing, at@),
            final(self)@.playback == Some(state@),
    {
        let (playing_now, position_ms): (bool, u64) = match &self.playback {
            Some(state) => {
                let position: u64 = playback_position_ms(state, at.now.wall_micros, at.played_ms);
                (playing && can_play_at_position(state, position), position)
            },
            None => (false, 0),
        };
        self.steer(playing_now, position_ms, at)
    }

    fn apply_seek(&mut self, position_ms: u64, at: &World) -> (state: PlaybackState)
        requires
            old(self)@.can_issue(),
            old(self)@.playback is Some,
        ensures
            final(self)@ == old(self)@.sought(position_ms, at@),
            final(self)@.playback == Some(state@),
    {
        let (playing_now, position): (bool, u64) = match &self.playback {
            Some(state) => {
                let position: u64 = clamp_playback_position_ms(state, position_ms);
                (state.playing && can_play_at_position(state, position), position)
            },
            None => (false, 0),
        };
        self.steer(playing_now, position, at)
    }

    /// Holds the playback or lets it go on, at the user's command.
    pub fn play_or_hold(&mut self, playing: bool, at: &World) -> (effects: Vec<Effect>)
        requires
            old(self)@.can_issue(),
            old(self)@.playback is Some,
        ensures
            (Step { after: final(self)@, effects: deep(effects@) }) == old(self)@.play_or_hold(
                playing,
                at@,
            ),
    {
        broadcast use group_deep;

        let state = self.apply_playing(playing, at);
        let mut effects = tell_player(
            at,
            PlayerCommand::SetPlaying { playing: state.playing, at_micros: at.now.wall_micros },
        );
        effects.push(show_state(&state, at));
        effects.push(publish_playback_state(&state));
        assert(deep(effects@) =~= old(self)@.play_or_hold(playing, at@).effects);
        effects
    }

    /// Holds the playback or lets it go on, by a vote.
    pub fn play_or_hold_by_vote(&mut self, playing: bool, at: &World) -> (effects: Vec<Effect>)
        requires
            old(self)@.can_issue(),
            old(self)@.playback is Some,
        ensures
            (Step { after: final(self)@, effects: deep(effects@) })
                == old(self)@.play_or_hold_by_vote(playing, at@),
    {
        broadcast use group_deep;

        let state = self.apply_playing(playing, at);
        let mut effects = tell_player(
            at,
            PlayerCommand::SetPlaying { playing: state.playing, at_micros: at.now.wall_micros },
        );
        effects.push(publish_playback_state(&state));
        effects.push(show_state(&state, at));
        assert(deep(effects@) =~= old(self)@.play_or_hold_by_vote(playing, at@).effects);
        effects
    }

    /// Jumps to a position, at the user's command.
    pub fn seek(&mut self, position_ms: u64, at: &World) -> (effects: Vec<Effect>)
        requires
            old(self)@.can_issue(),
            old(self)@.playback is Some,
        ensures
            (Step { after: final(self)@, effects: deep(effects@) }) == old(self)@.seek(
                position_ms,
                at@,
            ),
    {
        let state = self.apply_seek(position_ms, at);
        let news = vec![show_state(&state, at), publish_playback_state(&state)];
        let ghost shown = seq![showing(state@, at@), sending(state@)];
        assert(deep(news@) =~= shown);
        if at.player.is_some() {
            let tasks = vec![guarded_fully("audio seek failed: "), Task::Perform(news)];
            assert(deep(tasks@) =~= seq![guard_fully("audio seek failed: "@), perform(shown)]);
            self.defer(tasks);
            just(
                Effect::Player(
                    PlayerCommand::Seek {
                        position_ms: state.position_ms,
                        playing: state.playing,
                        at_micros: at.now.wall_micros,
                    },
                ),
            )
        } else {
            news
        }
    }

    /// Jumps to a position, by a vote.
    pub fn seek_by_vote(&mut self, position_ms: u64, at: &World) -> (effects: Vec<Effect>)
        requires
            old(self)@.can_issue(),
            old(self)@.playback is Some,
        ensures
            (Step { after: final(self)@, effects: deep(effects@) }) == old(self)@.seek_by_vote(
                position_ms,
                at@,
            ),
    {
        broadcast use group_deep;

        let state = self.apply_seek(position_ms, at);
        let mut effects = tell_player(
            at,
            PlayerCommand::Seek {
                position_ms: state.position_ms,
                playing: state.playing,
                at_micros: at.now.wall_micros,
            },
        );
        effects.push(publish_playback_state(&state));
        effects.push(show_state(&state, at));
        assert(deep(effects@) =~= old(self)@.seek_by_vote(position_ms, at@).effects);
        effects
    }

    /// Ends the playback and goes on to the next item.
    pub fn skip_current_track(&mut self) -> (effects: Vec<Effect>)
        ensures
            (Step { after: final(self)@, effects: deep(effects@) }) == old(self)@.skip_current(),
    {
        let tasks = vec![Task::StopCurrent { reason: "skipped".to_owned() }, Task::StartNext];
        assert(deep(tasks@) =~= seq![
            TaskModel::StopCurrent { reason: "skipped"@ },
            TaskModel::StartNext,
        ]);
        self.defer(tasks);
        nothing()
    }

    /// Queues a track that the user has asked for.
    pub fn track_resolved(
        &mut self,
        track: Track,
        position: Option<usize>,
        item_id: String,
        at: &World,
    ) -> (effects: Vec<Effect>)
        requires
            old(self)@.can_change_queue(),
        ensures
            (Step { after: final(self)@, effects: deep(effects@) }) == old(self)@.track_resolved(
                track@,
                position,
                item_id@,
                at@,
            ),
    {
        let title = track.title.clone();
        let item = QueueItem {
            item_id,
            track,
            requested_by: self.local.to_text(),
            added_at_micros: at.now.wall_micros,
        };
        let place: usize = self.queue.enqueue(item, position, at.now.wall_micros);
        let queued = "queued #".to_owned().concat(ordinal_text(place).as_str()).concat(
            ", ",
        ).concat(title.as_str());
        let effects = vec![self.publish_queue(), self.show_queue(), tell(queued)];
        self.defer(vec![Task::StartNext]);
        assert(deep(effects@) =~= old(self)@.track_resolved(
            track@,
            position,
            item_id@,
            at@,
        ).effects);
        effects
    }

    /// Takes the next item out of the queue to be played, if nothing is.
    pub fn start_next_if_idle(&mut self, at: &World) -> (effects: Vec<Effect>)
        requires
            old(self)@.starts_next() ==> old(self)@.can_change_queue(),
        ensures
            (Step { after: final(self)@, effects: deep(effects@) }) == old(self)@.start_next(at@),
    {
        if self.pending.is_some() || playback_has_track(self.playback.as_ref()) {
            return nothing();
        }
        match self.queue.take_next(at.now.wall_micros) {
            Some(item) => {
                let effects = vec![self.publish_queue(), self.show_queue()];
                self.defer(vec![Task::Supersede { item }]);
                assert(deep(effects@) =~= old(self)@.start_next(at@).effects);
                effects
            },
            None => nothing(),
        }
    }

    /// Whether there is a next item, and nothing keeps it from being played.
    pub fn starts_next(&self) -> (starts: bool)
        ensures
            starts == self@.starts_next(),
    {
        self.pending.is_none() && !playback_has_track(self.playback.as_ref())
            && self.queue.items.len() > 0
    }

    /// Whether something waits to be played, and every peer is ready or the wait is over.
    pub fn starts(&self, at: &World) -> (starts: bool)
        ensures
            starts == self@.starts(at@),
    {
        match &self.pending {
            Some(pending) => pending.is_ready() || at.now.mono_nanos >= pending.deadline,
            None => false,
        }
    }

    /// Gives up what waits to be played in favour of an item of the queue.
    pub fn supersede(&mut self, item: QueueItem, at: &World) -> (effects: Vec<Effect>)
        ensures
            (Step { after: final(self)@, effects: deep(effects@) }) == old(self)@.supersede(
                item@,
                at@,
            ),
    {
        let effects = self.cancel_pending("superseded by next queue item");
        self.defer(vec![Task::Prepare { item, at_micros: at.now.wall_micros }]);
        effects
    }

    /// Makes an item wait to be played from `now` on.
    pub fn begin_playback_prepare(&mut self, item: QueueItem, now: i64, at: &World) -> (effects: Vec<
        Effect,
    >)
        requires
            old(self)@.can_issue(),
            at.in_range(),
        ensures
            (Step { after: final(self)@, effects: deep(effects@) }) == old(self)@.prepare(
                item@,
                now,
                at@,
            ),
    {
        broadcast use group_deep;

        self.playback_version = self.playback_version + 1;
        let state = new_waiting_state(&item, self.local.as_str(), self.playback_version, now);
        let expected_peers = expected_playback_peers(at, self.local.as_str());
        let mut effects = tell_player(
            at,
            PlayerCommand::SetPlaying { playing: false, at_micros: now },
        );
        effects.push(show_state(&state, at));
        effects.push(
            Effect::Publish(
                WireMessage::PlaybackPrepare {
                    state: state.clone(),
                    expected_peers: copy_all(&expected_peers.items),
                },
            ),
        );
        effects.push(tell("preparing ".to_owned().concat(item.track.title.as_str())));
        effects.push(tell("downloading ".to_owned().concat(item.track.title.as_str())));
        self.pending = Some(
            PendingPlayback::new(
                state.clone(),
                expected_peers,
                at.now.mono_nanos + MUSIC_PREPARE_TIMEOUT,
            ),
        );
        self.playback = Some(state);
        self.defer(vec![Task::FetchOwn { track: item.track }]);
        assert(deep(effects@) =~= old(self)@.prepare(item@, now, at@).effects);
        effects
    }

    /// Fetches the audio of what waits to be played.
    pub fn fetch_own(&mut self, track: Track) -> (effects: Vec<Effect>)
        ensures
            (Step { after: final(self)@, effects: deep(effects@) }) == old(self)@.fetch_own(
                track@,
            ),
    {
        let effects = just(Effect::FetchAudio(track.clone()));
        self.defer(vec![Task::OwnFetched { track }]);
        effects
    }

    /// The audio of what waits to be played is there.
    pub fn own_fetched(&mut self, track: Track, at: &World) -> (effects: Vec<Effect>)
        ensures
            (Step { after: final(self)@, effects: deep(effects@) }) == old(self)@.own_fetched(
                track@,
                at@,
            ),
    {
        self.defer(vec![Task::OwnLoaded]);
        tell_player(
            at,
            PlayerCommand::Load {
                track_id: track.track_id,
                position_ms: 0,
                playing: false,
                at_micros: at.now.wall_micros,
            },
        )
    }

    /// The audio of what waits to be played could not be had.
    pub fn own_fetch_failed(&mut self, failure: Failure) -> (effects: Vec<Effect>)
        ensures
            (Step { after: final(self)@, effects: deep(effects@) }) == old(self)@.own_fetch_failed(
                failure@,
            ),
    {
        let effects = self.cancel_pending("local audio download failed");
        self.defer(vec![Task::Raise(failure)]);
        effects
    }

    /// This peer is ready to play what waits.
    pub fn own_loaded(&mut self) -> (effects: Vec<Effect>)
        ensures
            (Step { after: final(self)@, effects: deep(effects@) }) == old(self)@.own_loaded(),
    {
        if let Some(mut pending) = self.pending.take() {
            let _new = pending.mark_ready(self.local.as_str());
            self.pending = Some(pending);
        }
        self.defer(vec![Task::MaybeStart]);
        just(tell("local audio ready".to_owned()))
    }

    /// The player cannot load what waits to be played.
    pub fn own_load_failed(&mut self) -> (effects: Vec<Effect>)
        ensures
            (Step { after: final(self)@, effects: deep(effects@) }) == old(self)@.own_load_failed(),
    {
        self.cancel_pending("local audio failed to load")
    }

    /// Starts what waits to be played if its time has come.
    pub fn maybe_start_pending_playback(&mut self, at: &World) -> (effects: Vec<Effect>)
        requires
            old(self)@.starts(at@) ==> old(self)@.can_issue(),
            at.in_range(),
        ensures
            (Step { after: final(self)@, effects: deep(effects@) }) == old(self)@.maybe_start(at@),
    {
        let pending = match self.pending.take() {
            Some(pending) => pending,
            None => return nothing(),
        };
        if !pending.is_ready() && at.now.mono_nanos < pending.deadline {
            self.pending = Some(pending);
            return nothing();
        }
        self.playback_version = self.playback_version + 1;
        let mut state = pending.state.clone();
        start_state(&mut state, self.playback_version, at.now.wall_micros);
        let effects = vec![
            publish_playback_state(&state),
            show_state(&state, at),
            tell(start_notice(&pending)),
        ];
        self.playback = Some(state);
        assert(deep(effects@) =~= old(self)@.maybe_start(at@).effects);
        effects
    }

    /// Stops the player, and gives up what waits to be played.
    pub fn stop_current_playback(&mut self, reason: String, at: &World) -> (effects: Vec<Effect>)
        ensures
            (Step { after: final(self)@, effects: deep(effects@) }) == old(self)@.stop_current(
                reason@,
                at@,
            ),
    {
        broadcast use group_deep;

        let mut effects = tell_player(at, PlayerCommand::Stop);
        let mut cancel = self.cancel_pending(reason.as_str());
        effects.append(&mut cancel);
        self.defer(vec![Task::GoIdle { reason }]);
        effects
    }

    /// Notes that nothing is played any more.
    pub fn go_idle(&mut self, reason: String, at: &World) -> (effects: Vec<Effect>)
        requires
            old(self)@.can_issue(),
        ensures
            (Step { after: final(self)@, effects: deep(effects@) }) == old(self)@.go_idle(
                reason@,
                at@,
            ),
    {
        self.playback_version = self.playback_version + 1;
        let state = new_idle_state(
            self.local.as_str(),
            self.playback_version,
            at.now.wall_micros,
        );
        let effects = vec![publish_playback_state(&state), show_state(&state, at), tell(reason)];
        self.playback = Some(state);
        assert(deep(effects@) =~= old(self)@.go_idle(reason@, at@).effects);
        effects
    }

    /// Brings the player in line with the playback, and has it judged by the same reading of the
    /// clock whether the track is over.
    pub fn sync_player(&mut self, at: &World) -> (effects: Vec<Effect>)
        ensures
            (Step { after: final(self)@, effects: deep(effects@) }) == old(self)@.sync_player(at@),
    {
        let effects = match &self.playback {
            Some(state) => match sync_loaded_player_to_state(
                &at.player,
                state,
                at.now.wall_micros,
                at.played_ms,
            ) {
                Some(command) => just(Effect::Player(command)),
                None => nothing(),
            },
            None => return nothing(),
        };
        let tasks = vec![
            guarded_fully("playback sync failed: "),
            Task::CheckFinished { at_micros: at.now.wall_micros, played_ms: at.played_ms },
        ];
        assert(deep(tasks@) =~= seq![
            guard_fully("playback sync failed: "@),
            TaskModel::CheckFinished { at_micros: at.now.wall_micros, played_ms: at.played_ms },
        ]);
        self.defer(tasks);
        effects
    }

    /// Shows the playback, or ends it if its track was over at `then`, when `played_ms` were
    /// played.
    pub fn check_finished(&mut self, then: i64, played_ms: u64, at: &World) -> (effects: Vec<Effect>)
        ensures
            (Step { after: final(self)@, effects: deep(effects@) }) == old(self)@.check_finished(
                then,
                played_ms,
                at@,
            ),
    {
        let effects = match &self.playback {
            Some(state) => {
                if !has_finished(state, self.local.as_str(), &at.player, then, played_ms) {
                    return just(show_state(state, at));
                }
                nothing()
            },
            None => return nothing(),
        };
        let tasks = vec![
            Task::StopCurrent { reason: "track finished".to_owned() },
            Task::StartNext,
        ];
        assert(deep(tasks@) =~= seq![
            TaskModel::StopCurrent { reason: "track finished"@ },
            TaskModel::StartNext,
        ]);
        self.defer(tasks);
        effects
    }

    /// Shows the playback.
    pub fn show_playback(&self, at: &World) -> (effects: Vec<Effect>)
        ensures
            self@.asking(deep(effects@)) == self@.show_playback(at@),
    {
        match &self.playback {
            Some(state) => just(show_state(state, at)),
            None => nothing(),
        }
    }

    /// Repeats the playback state if this peer leads it.
    pub fn repeat_playback(&mut self, at: &World) -> (effects: Vec<Effect>)
        ensures
            (Step { after: final(self)@, effects: deep(effects@) }) == old(self)@.repeat_playback(
                at@,
            ),
    {
        if self.pending.is_some() {
            return nothing();
        }
        let mut state = match self.playback.take() {
            Some(state) => state,
            None => return nothing(),
        };
        if state.leader_peer_id != self.local.to_text() || state.track.is_none() {
            self.playback = Some(state);
            return nothing();
        }
        repeat_state(&mut state, at.now.wall_micros, at.played_ms);
        let effects = vec![publish_playback_state(&state), show_state(&state, at)];
        self.playback = Some(state);
        assert(deep(effects@) =~= old(self)@.repeat_playback(at@).effects);
        effects
    }
}

} // verus!
