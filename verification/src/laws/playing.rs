//! What is heard, and when: how the peers of a room play a track in step.
use crate::effect::{EffectModel, OutcomeModel, TaskModel, WorldModel};
use crate::laws::basics::{said, told_at_length, unheeded};
use crate::model::{PlaybackStateModel, PlaybackViewModel, TrackModel, UiEventModel, WireMessageModel};
use crate::playback::{
    audible_at, position_at, rebased, replaces, PlayerCommandModel, PlayerStatusModel,
};
use crate::session::SessionModel;
use crate::text::text_before;
use vstd::prelude::*;

verus! {

/// A position, or the end of the track if it lies beyond.
pub open spec fn within(track: Option<TrackModel>, position_ms: int) -> int {
    if track is Some && position_ms > track->0.duration_ms {
        track->0.duration_ms as int
    } else if position_ms > u64::MAX {
        u64::MAX as int
    } else {
        position_ms
    }
}

/// Where a playback stands when `played_ms` were played since its anchor time.
pub open spec fn stands(state: PlaybackStateModel, now: i64, played_ms: u64) -> int {
    if state.playing && state.anchor_time_micros < now {
        within(state.track, state.position_ms + played_ms)
    } else {
        within(state.track, state.position_ms as int)
    }
}

/// There is something of the track left from a position on.
pub open spec fn goes_on_from(track: Option<TrackModel>, position_ms: int) -> bool {
    track is None || position_ms < track->0.duration_ms
}

/// A playback can be heard: it is played, its time has come and its track is not over.
pub open spec fn heard(state: PlaybackStateModel, now: i64, played_ms: u64) -> bool {
    &&& state.playing
    &&& state.anchor_time_micros <= now
    &&& goes_on_from(state.track, stands(state, now, played_ms))
}

/// A playback stands where it was anchored until its time comes or while it is held; from then on
/// as much further as was played, but never beyond the end of its track. It is heard from its
/// anchor time until it stands at the end.
pub proof fn a_playback_stands_and_is_heard(state: PlaybackStateModel, now: i64, played_ms: u64)
    ensures
        position_at(state, now, played_ms) == stands(state, now, played_ms),
        audible_at(state, now, played_ms) == heard(state, now, played_ms),
        now < state.anchor_time_micros ==> !audible_at(state, now, played_ms),
{
}

/// What is shown of a playback: its title, its leader, where it stands, and whether it is heard.
pub open spec fn seen(state: PlaybackStateModel, at: WorldModel) -> EffectModel {
    EffectModel::Ui(
        UiEventModel::Playback(
            match state.track {
                Some(track) => Some(
                    PlaybackViewModel {
                        title: track.title,
                        playing: heard(state, at.now.wall_micros, at.played_ms),
                        position_ms: stands(state, at.now.wall_micros, at.played_ms) as u64,
                        duration_ms: track.duration_ms,
                        leader_peer_id: state.leader_peer_id,
                    },
                ),
                None => None,
            },
        ),
    )
}

/// A playback is shown as it stands at that moment, and nothing if there is none.
pub proof fn a_playback_is_shown_as_it_stands(
    session: SessionModel,
    outcome: OutcomeModel,
    fresh: Seq<char>,
    at: WorldModel,
)
    ensures
        ({
            let step = session.run(TaskModel::ShowPlayback, outcome, fresh, at);
            &&& step.after == session
            &&& session.playback is None ==> step.effects.len() == 0
            &&& session.playback is Some ==> step.effects == seq![seen(session.playback->0, at)]
        }),
{
    if let Some(state) = session.playback {
        a_playback_stands_and_is_heard(state, at.now.wall_micros, at.played_ms);
    }
}

/// What a command makes a player do: play or not.
pub open spec fn lets_play(command: PlayerCommandModel) -> bool {
    match command {
        PlayerCommandModel::Load { playing, .. } => playing,
        PlayerCommandModel::Seek { playing, .. } => playing,
        PlayerCommandModel::SetPlaying { playing, .. } => playing,
        PlayerCommandModel::Stop => false,
    }
}

/// A player with the right track is more than the allowed drift away from a position.
pub open spec fn is_far(player: PlayerStatusModel, position_ms: int) -> bool {
    player.position_ms > position_ms + 700 || position_ms > player.position_ms + 700
}

/// A command brings a player with the right track in line: it is heard or silent as it should be,
/// and jumps to the right place if it is far from it or has to start.
pub open spec fn brings_in_line(
    command: PlayerCommandModel,
    player: PlayerStatusModel,
    state: PlaybackStateModel,
    now: i64,
    played_ms: u64,
) -> bool {
    let position = stands(state, now, played_ms);
    let audible = heard(state, now, played_ms);
    let jumps = is_far(player, position) || (audible && !player.playing);
    match command {
        PlayerCommandModel::Seek { position_ms, playing, at_micros } => jumps && position_ms
            == position && playing == audible && at_micros == now,
        PlayerCommandModel::SetPlaying { playing, at_micros } => !jumps && playing == audible
            && at_micros == now,
        _ => false,
    }
}

/// Whoever follows the playback of a peer lets the player be heard exactly if that playback is
/// heard at this moment: before its anchor time nothing plays. A player that has the track is
/// brought in line, another one loads the track at the place where the playback stands, and one
/// stops if there is no track.
pub proof fn a_follower_keeps_to_the_time_of_the_leader(
    session: SessionModel,
    state: PlaybackStateModel,
    outcome: OutcomeModel,
    fresh: Seq<char>,
    at: WorldModel,
)
    ensures
        ({
            let now = at.now.wall_micros;
            let task = TaskModel::ApplyRemote { state: state };
            let step = session.run(task, outcome, fresh, at);
            let effects = step.effects;
            &&& forall|i: int|
                0 <= i < effects.len() && (#[trigger] effects[i]) is Player ==> lets_play(
                    effects[i]->Player_0,
                ) == (state.track is Some && heard(state, now, at.played_ms))
            &&& state.anchor_time_micros > now ==> forall|i: int|
                0 <= i < effects.len() && (#[trigger] effects[i]) is Player ==> !lets_play(
                    effects[i]->Player_0,
                )
            &&& at.player is None ==> effects.len() == 0
            &&& at.player is Some && state.track is None ==> effects == seq![
                EffectModel::Player(PlayerCommandModel::Stop),
            ]
            &&& at.player is Some && state.track is Some && at.player->0.track_id == Some(
                state.track->0.track_id,
            ) ==> {
                &&& effects.len() == 1
                &&& effects[0] is Player
                &&& brings_in_line(
                    effects[0]->Player_0,
                    at.player->0,
                    state,
                    now,
                    at.played_ms,
                )
            }
            &&& at.player is Some && state.track is Some && at.player->0.track_id != Some(
                state.track->0.track_id,
            ) ==> effects == seq![
                said("downloading "@ + state.track->0.title),
                EffectModel::FetchAudio(state.track->0),
                EffectModel::Player(
                    PlayerCommandModel::Load {
                        track_id: state.track->0.track_id,
                        position_ms: stands(state, now, at.played_ms) as u64,
                        playing: heard(state, now, at.played_ms),
                        at_micros: now,
                    },
                ),
            ]
            &&& step.after == (SessionModel {
                agenda: seq![TaskModel::Adopt { state: state }] + session.agenda,
                ..session
            })
        }),
{
    a_playback_stands_and_is_heard(state, at.now.wall_micros, at.played_ms);
}

/// A playback of a peer that is followed becomes the current one, and is shown.
pub proof fn a_followed_playback_becomes_the_current_one(
    session: SessionModel,
    state: PlaybackStateModel,
    outcome: OutcomeModel,
    fresh: Seq<char>,
    at: WorldModel,
)
    ensures
        ({
            let adopted = session.run(TaskModel::Adopt { state: state }, outcome, fresh, at);
            let prepared = session.run(
                TaskModel::AdoptPrepare { state: state },
                outcome,
                fresh,
                at,
            );
            let shown = seq![TaskModel::ShowPlayback];
            &&& adopted.effects.len() == 0
            &&& adopted.after == (SessionModel {
                playback: Some(state),
                agenda: shown + session.agenda,
                ..session
            })
            &&& prepared.effects.len() == 0
            &&& prepared.after == (SessionModel {
                playback: Some(state),
                agenda: (match state.track {
                    Some(track) => shown.push(TaskModel::PrepareAudio { track: track }),
                    None => shown,
                }) + session.agenda,
                ..session
            })
        }),
{
}

/// A time, or the last that there is.
pub open spec fn at_most_the_last(micros: int) -> int {
    if micros > i64::MAX {
        i64::MAX as int
    } else {
        micros
    }
}

/// A state from a peer is counted from the moment at which it came: it starts as long after that
/// as it was to start after it was issued, if it is played, and else at once. Nothing else of it
/// changes.
pub proof fn a_peers_state_is_counted_from_its_arrival(state: PlaybackStateModel, now: i64)
    ensures
        ({
            let local = rebased(state, now);
            let delay = if state.playing && state.anchor_time_micros > state.issued_at_micros {
                state.anchor_time_micros - state.issued_at_micros
            } else {
                0
            };
            &&& local == (PlaybackStateModel {
                anchor_time_micros: local.anchor_time_micros,
                ..state
            })
            &&& local.anchor_time_micros == at_most_the_last(now + at_most_the_last(delay))
        }),
{
}

/// A state replaces the current one if it was issued later; if at the same time, the higher
/// version decides, then the leader that comes later in the alphabet. A state with the same time,
/// version and leader replaces the current one only if it is of the same track and says something
/// else of it.
pub proof fn a_later_state_replaces(current: PlaybackStateModel, next: PlaybackStateModel)
    ensures
        replaces(None, next),
        next.issued_at_micros > current.issued_at_micros ==> replaces(Some(current), next),
        next.issued_at_micros < current.issued_at_micros ==> !replaces(Some(current), next),
        next.issued_at_micros == current.issued_at_micros ==> {
            &&& next.state_version > current.state_version ==> replaces(Some(current), next)
            &&& next.state_version < current.state_version ==> !replaces(Some(current), next)
            &&& next.state_version == current.state_version && next.leader_peer_id
                != current.leader_peer_id ==> replaces(Some(current), next) == text_before(
                current.leader_peer_id,
                next.leader_peer_id,
            )
            &&& next.state_version == current.state_version && next.leader_peer_id
                == current.leader_peer_id ==> replaces(Some(current), next) == {
                &&& match (current.track, next.track) {
                    (Some(a), Some(b)) => a.track_id == b.track_id,
                    (None, None) => true,
                    _ => false,
                }
                &&& (current.anchor_time_micros < next.anchor_time_micros || current.position_ms
                    != next.position_ms || current.playing != next.playing)
            }
        },
{
}

/// The message by which this peer gives up what waits to be played.
pub open spec fn giving_up(session: SessionModel, reason: Seq<char>) -> Seq<EffectModel> {
    match session.pending {
        Some(pending) => seq![
            EffectModel::Publish(
                WireMessageModel::PlaybackCancel {
                    session_id: pending.state.session_id,
                    leader_peer_id: session.local,
                    reason: reason,
                },
            ),
        ],
        None => Seq::empty(),
    }
}

/// The state of another peer that replaces the current one is followed, counted from now; what
/// waits here is given up for it, and that others are told of it may fail. A failure to follow is
/// told. Any other state changes nothing.
pub proof fn a_newer_state_of_a_peer_is_followed(
    session: SessionModel,
    source: Seq<char>,
    state: PlaybackStateModel,
    fresh: Seq<char>,
    at: WorldModel,
)
    ensures
        ({
            let local = rebased(state, at.now.wall_micros);
            let step = session.hear(
                source,
                WireMessageModel::PlaybackState { state: state },
                fresh,
                at,
            );
            let tasks = seq![
                TaskModel::ApplyRemote { state: local },
                told_at_length("playback sync failed: "@),
            ];
            if state.leader_peer_id != session.local && replaces(session.playback, local) {
                &&& step.effects == giving_up(session, "superseded by remote playback"@)
                &&& step.after == (SessionModel {
                    pending: None,
                    agenda: (if session.pending is Some {
                        seq![unheeded()] + tasks
                    } else {
                        tasks
                    }) + session.agenda,
                    ..session
                })
            } else {
                step.after == session && step.effects.len() == 0
            }
        }),
{
}

/// On every tick the player is brought in line with the playback if it has its track, and is left
/// alone if not.
pub proof fn a_player_is_brought_in_line(
    session: SessionModel,
    outcome: OutcomeModel,
    fresh: Seq<char>,
    at: WorldModel,
)
    ensures
        ({
            let step = session.run(TaskModel::SyncPlayer, outcome, fresh, at);
            let state = session.playback->0;
            let fits = session.playback is Some && at.player is Some && state.track is Some
                && at.player->0.track_id == Some(state.track->0.track_id);
            &&& !fits ==> step.effects.len() == 0
            &&& fits ==> {
                &&& step.effects.len() == 1
                &&& step.effects[0] is Player
                &&& brings_in_line(
                    step.effects[0]->Player_0,
                    at.player->0,
                    state,
                    at.now.wall_micros,
                    at.played_ms,
                )
            }
            &&& step.after.playback == session.playback
            &&& step.after.queue == session.queue
            &&& session.playback is None ==> step.after == session
            &&& session.playback is Some ==> step.after == (SessionModel {
                agenda: seq![
                    told_at_length("playback sync failed: "@),
                    TaskModel::CheckFinished {
                        at_micros: at.now.wall_micros,
                        played_ms: at.played_ms,
                    },
                ] + session.agenda,
                ..session
            })
        }),
{
    if let Some(state) = session.playback {
        a_playback_stands_and_is_heard(state, at.now.wall_micros, at.played_ms);
    }
}

/// The leader, and only the leader, ends a playback, once it stands at the end of its track or the
/// player is through with it, and not before its time has come. Then the next item follows.
/// Otherwise the playback is shown.
pub proof fn a_leader_ends_a_track_that_is_over(
    session: SessionModel,
    at_micros: i64,
    played_ms: u64,
    outcome: OutcomeModel,
    fresh: Seq<char>,
    at: WorldModel,
)
    ensures
        ({
            let task = TaskModel::CheckFinished { at_micros: at_micros, played_ms: played_ms };
            let step = session.run(task, outcome, fresh, at);
            let state = session.playback->0;
            let over = session.playback is Some && state.leader_peer_id == session.local
                && state.track is Some && state.playing && state.anchor_time_micros <= at_micros
                && (stands(state, at_micros, played_ms) >= state.track->0.duration_ms || (
            at.player is Some && at.player->0.finished));
            &&& over ==> step.effects.len() == 0 && step.after == (SessionModel {
                agenda: seq![
                    TaskModel::StopCurrent { reason: "track finished"@ },
                    TaskModel::StartNext,
                ] + session.agenda,
                ..session
            })
            &&& !over ==> step.after == session
            &&& !over && session.playback is Some ==> step.effects == seq![seen(state, at)]
            &&& session.playback is None ==> step.effects.len() == 0
        }),
{
    if let Some(state) = session.playback {
        a_playback_stands_and_is_heard(state, at_micros, played_ms);
        a_playback_stands_and_is_heard(state, at.now.wall_micros, at.played_ms);
    }
}

} // verus!
