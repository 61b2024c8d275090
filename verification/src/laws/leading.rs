//! How a peer leads a playback: it prepares a track, waits for the others, starts it, controls it
//! and ends it.
use crate::effect::{EffectModel, FailureModel, OutcomeModel, TaskModel, WorldModel};
use crate::laws::basics::{
    one_more, said, several_more, to_player, told_at_length, told_in_short, unheeded,
};
use crate::laws::playing::{
    a_playback_stands_and_is_heard, giving_up, goes_on_from, seen, stands, within,
};
use crate::model::{
    NetworkCommandModel, PlaybackStateModel, QueueItemModel, TrackModel, UiEventModel,
    VoteActionModel, WireMessageModel,
};
use crate::playback::{rebased, replaces, PendingPlaybackModel, PlayerCommandModel};
use crate::session::SessionModel;
use crate::text::{decimal, signed_decimal};
use vstd::prelude::*;

verus! {

/// A playback is made known to the peers.
pub open spec fn made_known(state: PlaybackStateModel) -> EffectModel {
    EffectModel::Publish(WireMessageModel::PlaybackState { state: state })
}

/// An item that is prepared is the current playback, held at its beginning and led by this peer,
/// under the next version and a session of its own. It waits for all connected peers and this one
/// for no longer than twelve seconds, nobody being ready yet; all of them are asked to load it, and
/// its audio is fetched here.
#[verifier::rlimit(60)]
pub proof fn a_prepared_item_waits_for_all_peers(
    session: SessionModel,
    item: QueueItemModel,
    at_micros: i64,
    outcome: OutcomeModel,
    fresh: Seq<char>,
    at: WorldModel,
    peer: Seq<char>,
)
    requires
        session.can_issue(),
        at.now.in_range(),
    ensures
        ({
            let task = TaskModel::Prepare { item: item, at_micros: at_micros };
            let step = session.run(task, outcome, fresh, at);
            let state = step.after.playback->0;
            let pending = step.after.pending->0;
            &&& step.after.playback is Some
            &&& step.after.pending is Some
            &&& state == (PlaybackStateModel {
                session_id: session.local + ":"@ + signed_decimal(at_micros as int) + ":"@
                    + item.track.track_id,
                leader_peer_id: session.local,
                track: Some(item.track),
                track_requested_by: Some(item.requested_by),
                state_version: (session.playback_version + 1) as u64,
                issued_at_micros: at_micros,
                playing: false,
                position_ms: 0,
                anchor_time_micros: at_micros,
                rate_bits: 0x3f80_0000,
            })
            &&& pending.state == state
            &&& pending.expected_peers.contains(peer) <==> at.connected.contains(peer) || peer
                == session.local
            &&& pending.ready_peers.len() == 0
            &&& pending.deadline == at.now.mono_nanos + 12_000_000_000
            &&& step.after == (SessionModel {
                playback: step.after.playback,
                pending: step.after.pending,
                playback_version: state.state_version,
                agenda: seq![TaskModel::FetchOwn { track: item.track }] + session.agenda,
                ..session
            })
            &&& step.effects == to_player(
                at,
                PlayerCommandModel::SetPlaying { playing: false, at_micros: at_micros },
            ) + seq![
                seen(state, at),
                EffectModel::Publish(
                    WireMessageModel::PlaybackPrepare {
                        state: state,
                        expected_peers: pending.expected_peers,
                    },
                ),
                said("preparing "@ + item.track.title),
                said("downloading "@ + item.track.title),
            ]
        }),
{
    let task = TaskModel::Prepare { item: item, at_micros: at_micros };
    let state = session.run(task, outcome, fresh, at).after.playback->0;
    a_playback_stands_and_is_heard(state, at.now.wall_micros, at.played_ms);
    let connected = crate::routes::with_items(Seq::empty(), at.connected);
    several_more(Seq::empty(), at.connected, peer);
    one_more(connected, session.local, peer);
}

/// The audio of what waits here is fetched, and then loaded at its beginning without being heard.
#[verifier::rlimit(60)]
pub proof fn a_leader_fetches_and_loads(
    session: SessionModel,
    track: TrackModel,
    outcome: OutcomeModel,
    fresh: Seq<char>,
    at: WorldModel,
)
    ensures
        ({
            let fetching = session.run(TaskModel::FetchOwn { track: track }, outcome, fresh, at);
            let fetched = session.run(TaskModel::OwnFetched { track: track }, outcome, fresh, at);
            &&& fetching.effects == seq![EffectModel::FetchAudio(track)]
            &&& fetching.after == (SessionModel {
                agenda: seq![TaskModel::OwnFetched { track: track }] + session.agenda,
                ..session
            })
            &&& fetched.effects == to_player(
                at,
                PlayerCommandModel::Load {
                    track_id: track.track_id,
                    position_ms: 0,
                    playing: false,
                    at_micros: at.now.wall_micros,
                },
            )
            &&& fetched.after == (SessionModel {
                agenda: seq![TaskModel::OwnLoaded] + session.agenda,
                ..session
            })
        }),
{
}

/// Once the audio of what waits here is loaded, this peer is ready for it, and nothing else of it
/// changes. Then it is seen whether it can start.
#[verifier::rlimit(60)]
pub proof fn a_leader_is_ready_once_the_audio_is_loaded(
    session: SessionModel,
    outcome: OutcomeModel,
    fresh: Seq<char>,
    at: WorldModel,
    other: Seq<char>,
)
    ensures
        ({
            let step = session.run(TaskModel::OwnLoaded, outcome, fresh, at);
            let before = session.pending->0;
            let after = step.after.pending->0;
            &&& step.effects == seq![said("local audio ready"@)]
            &&& step.after == (SessionModel {
                pending: step.after.pending,
                agenda: seq![TaskModel::MaybeStart] + session.agenda,
                ..session
            })
            &&& step.after.pending is Some == session.pending is Some
            &&& session.pending is Some ==> {
                &&& after == (PendingPlaybackModel { ready_peers: after.ready_peers, ..before })
                &&& before.expected_peers.contains(session.local) ==> after.ready_peers.contains(
                    session.local,
                )
                &&& !before.expected_peers.contains(session.local) ==> after.ready_peers
                    == before.ready_peers
                &&& other != session.local ==> after.ready_peers.contains(other)
                    == before.ready_peers.contains(other)
            }
        }),
{
    if let Some(pending) = session.pending {
        one_more(pending.ready_peers, session.local, other);
        one_more(pending.ready_peers, session.local, session.local);
    }
}

/// If the audio of what waits here cannot be fetched or loaded, what waits is given up. A failure
/// to fetch it is passed on.
#[verifier::rlimit(60)]
pub proof fn a_leader_gives_up_without_audio(
    session: SessionModel,
    track: TrackModel,
    failure: FailureModel,
    at: WorldModel,
)
    ensures
        ({
            let unfetched = session.recover(TaskModel::OwnFetched { track: track }, failure, at);
            let unloaded = session.recover(TaskModel::OwnLoaded, failure, at);
            &&& unfetched.effects == giving_up(session, "local audio download failed"@)
            &&& unfetched.after == (SessionModel {
                pending: None,
                agenda: seq![TaskModel::Raise(failure)] + session.agenda,
                ..session
            })
            &&& unloaded.effects == giving_up(session, "local audio failed to load"@)
            &&& unloaded.after == (SessionModel { pending: None, ..session })
        }),
{
}

/// What waits starts once every peer that was asked is ready, or once the wait is over, and never
/// before. It starts from its beginning one and a half seconds later, for everybody, under the next
/// version, and is still the same playback.
#[verifier::rlimit(60)]
pub proof fn a_playback_starts_when_all_are_ready(
    session: SessionModel,
    outcome: OutcomeModel,
    fresh: Seq<char>,
    at: WorldModel,
)
    requires
        session.can_issue(),
        at.now.in_range(),
    ensures
        ({
            let step = session.run(TaskModel::MaybeStart, outcome, fresh, at);
            let pending = session.pending->0;
            let all_ready = forall|i: int|
                0 <= i < pending.expected_peers.len() ==> pending.ready_peers.contains(
                    #[trigger] pending.expected_peers[i],
                );
            let state = PlaybackStateModel {
                state_version: (session.playback_version + 1) as u64,
                issued_at_micros: at.now.wall_micros,
                playing: true,
                position_ms: 0,
                anchor_time_micros: (at.now.wall_micros + 1_500_000) as i64,
                ..pending.state
            };
            if session.pending is Some && (all_ready || at.now.mono_nanos >= pending.deadline) {
                &&& step.after == (SessionModel {
                    playback: Some(state),
                    pending: None,
                    playback_version: state.state_version,
                    ..session
                })
                &&& step.effects.len() == 3
                &&& step.effects[0] == made_known(state)
                &&& step.effects[1] == seen(state, at)
                &&& step.effects[2] == said(
                    "starting playback in "@ + "1.5"@ + "s ("@ + (if all_ready {
                        "all peers ready"@
                    } else {
                        "ready wait timed out"@
                    }) + ", "@ + decimal(pending.ready_peers.len()) + "/"@ + decimal(
                        pending.expected_peers.len(),
                    ) + ")"@,
                )
            } else {
                step.after == session && step.effects.len() == 0
            }
        }),
{
    let pending = session.pending->0;
    let state = PlaybackStateModel {
        state_version: (session.playback_version + 1) as u64,
        issued_at_micros: at.now.wall_micros,
        playing: true,
        position_ms: 0,
        anchor_time_micros: (at.now.wall_micros + 1_500_000) as i64,
        ..pending.state
    };
    a_playback_stands_and_is_heard(state, at.now.wall_micros, at.played_ms);
    reveal_strlit("1.5");
    start_delay_is_written();
}

proof fn start_delay_is_written()
    ensures
        crate::session::music::start_delay_text() == "1.5"@,
{
    reveal_strlit("1.5");
    reveal_strlit(".");
    reveal_with_fuel(crate::text::numeral, 3);
    assert(crate::session::music::start_delay_text() =~= "1.5"@);
}

/// A peer that was asked and says that it is ready for what waits here is counted as ready, once;
/// what others say, or of another playback, counts for nothing. In any case it is then seen
/// whether the playback can start.
#[verifier::rlimit(60)]
pub proof fn a_peer_that_is_ready_counts(
    session: SessionModel,
    source: Seq<char>,
    session_id: Seq<char>,
    peer: Seq<char>,
    fresh: Seq<char>,
    at: WorldModel,
    other: Seq<char>,
)
    ensures
        ({
            let message = WireMessageModel::PlaybackReady { session_id: session_id, peer_id: peer };
            let step = session.hear(source, message, fresh, at);
            let before = session.pending->0;
            let after = step.after.pending->0;
            let counts = session.pending is Some && before.state.session_id == session_id
                && before.state.leader_peer_id == session.local && before.expected_peers.contains(
                peer,
            ) && !before.ready_peers.contains(peer);
            &&& step.after == (SessionModel {
                pending: step.after.pending,
                agenda: seq![
                    TaskModel::MaybeStart,
                    told_at_length("playback start failed: "@),
                ] + session.agenda,
                ..session
            })
            &&& !counts ==> step.after.pending == session.pending && step.effects.len() == 0
            &&& counts ==> {
                &&& step.after.pending is Some
                &&& after.ready_peers.contains(peer)
                &&& other != peer ==> after.ready_peers.contains(other)
                    == before.ready_peers.contains(other)
                &&& after.ready_peers.len() == before.ready_peers.len() + 1
                &&& after == (PendingPlaybackModel { ready_peers: after.ready_peers, ..before })
                &&& step.effects == seq![
                    said(
                        "peer "@ + peer + " ready ("@ + decimal(before.ready_peers.len() + 1)
                            + "/"@ + decimal(before.expected_peers.len()) + ")"@,
                    ),
                ]
            }
        }),
{
    if let Some(pending) = session.pending {
        one_more(pending.ready_peers, peer, peer);
        one_more(pending.ready_peers, peer, other);
    }
}

/// A peer that is asked to load a track for a newer playback of another peer does so: it gives up
/// what waits here, holds the player, makes that playback the current one, loads the audio at its
/// beginning without being heard if there is a player, and says that it is ready. Those who were
/// not asked do nothing.
#[verifier::rlimit(60)]
pub proof fn a_peer_gets_ready_when_asked(
    session: SessionModel,
    source: Seq<char>,
    state: PlaybackStateModel,
    expected_peers: Seq<Seq<char>>,
    fresh: Seq<char>,
    at: WorldModel,
)
    ensures
        ({
            let message = WireMessageModel::PlaybackPrepare {
                state: state,
                expected_peers: expected_peers,
            };
            let step = session.hear(source, message, fresh, at);
            let local = rebased(state, at.now.wall_micros);
            let asked = expected_peers.len() == 0 || expected_peers.contains(session.local);
            let tasks = seq![
                TaskModel::AcceptPrepare { state: local },
                TaskModel::PublishReady { session_id: state.session_id },
                told_at_length("playback prepare failed: "@),
            ];
            if !asked {
                &&& step.after == session
                &&& step.effects == seq![said("ignored playback prepare for another peer set"@)]
            } else if state.leader_peer_id != session.local && replaces(session.playback, local) {
                &&& step.effects == giving_up(session, "superseded by remote playback prepare"@)
                &&& step.after == (SessionModel {
                    pending: None,
                    agenda: (if session.pending is Some {
                        seq![unheeded()] + tasks
                    } else {
                        tasks
                    }) + session.agenda,
                    ..session
                })
            } else {
                step.after == session && step.effects.len() == 0
            }
        }),
{
}

/// A peer that gets ready holds its player first, and then takes the playback over.
#[verifier::rlimit(60)]
pub proof fn getting_ready_begins_in_silence(
    session: SessionModel,
    state: PlaybackStateModel,
    outcome: OutcomeModel,
    fresh: Seq<char>,
    at: WorldModel,
)
    ensures
        ({
            let step = session.run(TaskModel::AcceptPrepare { state: state }, outcome, fresh, at);
            &&& step.effects == to_player(
                at,
                PlayerCommandModel::SetPlaying { playing: false, at_micros: at.now.wall_micros },
            )
            &&& step.after == (SessionModel {
                agenda: seq![TaskModel::AdoptPrepare { state: state }] + session.agenda,
                ..session
            })
        }),
{
}

/// A peer that gets ready fetches the audio if it has a player, and needs none if it has not.
#[verifier::rlimit(60)]
pub proof fn getting_ready_takes_the_audio(
    session: SessionModel,
    track: TrackModel,
    outcome: OutcomeModel,
    fresh: Seq<char>,
    at: WorldModel,
)
    ensures
        ({
            let step = session.run(TaskModel::PrepareAudio { track: track }, outcome, fresh, at);
            &&& at.player is Some ==> {
                &&& step.effects == seq![
                    said("preparing "@ + track.title),
                    said("downloading "@ + track.title),
                    EffectModel::FetchAudio(track),
                ]
                &&& step.after == (SessionModel {
                    agenda: seq![TaskModel::LoadPrepared { track: track }] + session.agenda,
                    ..session
                })
            }
            &&& at.player is None ==> step.after == session && step.effects == seq![
                said("preparing "@ + track.title),
                said("audio output unavailable; confirming prepare"@),
            ]
        }),
{
}

/// A peer that gets ready loads the audio at its beginning without being heard, and then says that
/// it is ready for that playback.
#[verifier::rlimit(60)]
pub proof fn getting_ready_ends_with_word_of_it(
    session: SessionModel,
    track: TrackModel,
    session_id: Seq<char>,
    outcome: OutcomeModel,
    fresh: Seq<char>,
    at: WorldModel,
)
    ensures
        ({
            let loaded = session.run(TaskModel::LoadPrepared { track: track }, outcome, fresh, at);
            let ready = session.run(
                TaskModel::PublishReady { session_id: session_id },
                outcome,
                fresh,
                at,
            );
            &&& loaded.after == session
            &&& loaded.effects == to_player(
                at,
                PlayerCommandModel::Load {
                    track_id: track.track_id,
                    position_ms: 0,
                    playing: false,
                    at_micros: at.now.wall_micros,
                },
            ).push(said("local audio ready"@))
            &&& ready.effects == seq![
                EffectModel::Publish(
                    WireMessageModel::PlaybackReady {
                        session_id: session_id,
                        peer_id: session.local,
                    },
                ),
            ]
            &&& ready.after == (SessionModel {
                agenda: seq![told_in_short("playback ready failed: "@)] + session.agenda,
                ..session
            })
        }),
{
}

/// A playback that its leader gives up ends here too: the player stops and nothing is played. That
/// of another session, or one of this peer, goes on.
#[verifier::rlimit(60)]
pub proof fn a_canceled_playback_ends(
    session: SessionModel,
    source: Seq<char>,
    session_id: Seq<char>,
    leader: Seq<char>,
    reason: Seq<char>,
    fresh: Seq<char>,
    at: WorldModel,
)
    ensures
        ({
            let message = WireMessageModel::PlaybackCancel {
                session_id: session_id,
                leader_peer_id: leader,
                reason: reason,
            };
            let step = session.hear(source, message, fresh, at);
            if leader != session.local && session.playback is Some
                && session.playback->0.session_id == session_id {
                &&& step.after == (SessionModel { playback: None, ..session })
                &&& step.effects == to_player(at, PlayerCommandModel::Stop) + seq![
                    EffectModel::Ui(UiEventModel::Playback(None)),
                    said("playback canceled: "@ + reason),
                ]
            } else {
                step.after == session && step.effects.len() == 0
            }
        }),
{
}

/// A playback is issued anew by this peer: under the next version, from this moment on, and
/// otherwise the same.
pub open spec fn is_issued_anew(session: SessionModel, after: SessionModel, at: WorldModel) -> bool {
    let state = session.playback->0;
    let next = after.playback->0;
    &&& after == (SessionModel {
        playback: after.playback,
        playback_version: after.playback_version,
        agenda: after.agenda,
        ..session
    })
    &&& after.playback is Some
    &&& after.playback_version == session.playback_version + 1
    &&& next.state_version == after.playback_version
    &&& next.leader_peer_id == session.local
    &&& next.issued_at_micros == at.now.wall_micros
    &&& next.anchor_time_micros == at.now.wall_micros
    &&& next.session_id == state.session_id
    &&& next.track == state.track
    &&& next.track_requested_by == state.track_requested_by
    &&& next.rate_bits == state.rate_bits
}

/// The one who asked for the track holds it or lets it go on where it stands; it goes on only if
/// something of the track is left. The player does the same, and the others are told.
#[verifier::rlimit(60)]
pub proof fn the_one_who_asked_holds_and_lets_go_on(
    session: SessionModel,
    fresh: Seq<char>,
    at: WorldModel,
    go_on: bool,
)
    requires
        session.playback is Some,
        session.playback->0.track_requested_by == Some(session.local),
        session.can_issue(),
    ensures
        ({
            let command = if go_on {
                NetworkCommandModel::Resume
            } else {
                NetworkCommandModel::Pause
            };
            let step = session.command(command, fresh, at);
            let state = session.playback->0;
            let next = step.after.playback->0;
            let place = stands(state, at.now.wall_micros, at.played_ms);
            &&& is_issued_anew(session, step.after, at)
            &&& step.after.agenda == session.agenda
            &&& next.position_ms == place
            &&& next.playing == (go_on && goes_on_from(state.track, place))
            &&& step.effects == to_player(
                at,
                PlayerCommandModel::SetPlaying {
                    playing: next.playing,
                    at_micros: at.now.wall_micros,
                },
            ) + seq![seen(next, at), made_known(next)]
        }),
{
    let command = if go_on {
        NetworkCommandModel::Resume
    } else {
        NetworkCommandModel::Pause
    };
    let next = session.command(command, fresh, at).after.playback->0;
    a_playback_stands_and_is_heard(session.playback->0, at.now.wall_micros, at.played_ms);
    a_playback_stands_and_is_heard(next, at.now.wall_micros, at.played_ms);
}

/// The one who asked for the track jumps to the position asked for, or to the end of the track if
/// that lies beyond. A held playback stays held; a played one goes on if something of the track is
/// left. The player jumps too, and whether or not it does, the others are told.
#[verifier::rlimit(60)]
pub proof fn the_one_who_asked_jumps(
    session: SessionModel,
    position_ms: u64,
    fresh: Seq<char>,
    at: WorldModel,
)
    requires
        session.playback is Some,
        session.playback->0.track_requested_by == Some(session.local),
        session.can_issue(),
    ensures
        ({
            let step = session.command(NetworkCommandModel::Seek(position_ms), fresh, at);
            let state = session.playback->0;
            let next = step.after.playback->0;
            let place = within(state.track, position_ms as int);
            let news = seq![seen(next, at), made_known(next)];
            &&& is_issued_anew(session, step.after, at)
            &&& next.position_ms == place
            &&& next.playing == (state.playing && goes_on_from(state.track, place))
            &&& !state.playing ==> !next.playing
            &&& at.player is None ==> step.after.agenda == session.agenda && step.effects == news
            &&& at.player is Some ==> {
                &&& step.effects == seq![
                    EffectModel::Player(
                        PlayerCommandModel::Seek {
                            position_ms: next.position_ms,
                            playing: next.playing,
                            at_micros: at.now.wall_micros,
                        },
                    ),
                ]
                &&& step.after.agenda == seq![
                    told_at_length("audio seek failed: "@),
                    TaskModel::Perform(news),
                ] + session.agenda
            }
        }),
{
    let next = session.command(NetworkCommandModel::Seek(position_ms), fresh, at).after.playback->0;
    a_playback_stands_and_is_heard(next, at.now.wall_micros, at.played_ms);
}

/// A vote to hold the playback or to let it go on does to it what the one who asked could do, and
/// so does a vote to jump: a held playback stays held.
#[verifier::rlimit(60)]
pub proof fn votes_on_the_playback_are_carried_out(
    session: SessionModel,
    position_ms: u64,
    outcome: OutcomeModel,
    fresh: Seq<char>,
    at: WorldModel,
)
    requires
        session.playback is Some,
        session.can_issue(),
    ensures
        ({
            let now = at.now.wall_micros;
            let state = session.playback->0;
            let held = session.run(
                TaskModel::ExecuteVote { action: VoteActionModel::Pause },
                outcome,
                fresh,
                at,
            );
            let let_go = session.run(
                TaskModel::ExecuteVote { action: VoteActionModel::Resume },
                outcome,
                fresh,
                at,
            );
            let jumped = session.run(
                TaskModel::ExecuteVote { action: VoteActionModel::Seek { position_ms: position_ms } },
                outcome,
                fresh,
                at,
            );
            let place = stands(state, now, at.played_ms);
            let target = within(state.track, position_ms as int);
            &&& is_issued_anew(session, held.after, at)
            &&& is_issued_anew(session, let_go.after, at)
            &&& is_issued_anew(session, jumped.after, at)
            &&& held.after.agenda == session.agenda
            &&& let_go.after.agenda == session.agenda
            &&& jumped.after.agenda == session.agenda
            &&& held.after.playback->0.position_ms == place
            &&& !held.after.playback->0.playing
            &&& let_go.after.playback->0.position_ms == place
            &&& let_go.after.playback->0.playing == goes_on_from(state.track, place)
            &&& jumped.after.playback->0.position_ms == target
            &&& jumped.after.playback->0.playing == (state.playing && goes_on_from(
                state.track,
                target,
            ))
            &&& held.effects == to_player(
                at,
                PlayerCommandModel::SetPlaying { playing: false, at_micros: now },
            ) + seq![made_known(held.after.playback->0), seen(held.after.playback->0, at)]
            &&& let_go.effects == to_player(
                at,
                PlayerCommandModel::SetPlaying {
                    playing: let_go.after.playback->0.playing,
                    at_micros: now,
                },
            ) + seq![made_known(let_go.after.playback->0), seen(let_go.after.playback->0, at)]
            &&& jumped.effects == to_player(
                at,
                PlayerCommandModel::Seek {
                    position_ms: jumped.after.playback->0.position_ms,
                    playing: jumped.after.playback->0.playing,
                    at_micros: now,
                },
            ) + seq![made_known(jumped.after.playback->0), seen(jumped.after.playback->0, at)]
        }),
{
    let now = at.now.wall_micros;
    a_playback_stands_and_is_heard(session.playback->0, now, at.played_ms);
    a_playback_stands_and_is_heard(
        session.execute_vote(VoteActionModel::Pause, at).after.playback->0,
        now,
        at.played_ms,
    );
    a_playback_stands_and_is_heard(
        session.execute_vote(VoteActionModel::Resume, at).after.playback->0,
        now,
        at.played_ms,
    );
    a_playback_stands_and_is_heard(
        session.execute_vote(
            VoteActionModel::Seek { position_ms: position_ms },
            at,
        ).after.playback->0,
        now,
        at.played_ms,
    );
}

/// Votes on a playback that is gone do nothing, and commands on one that is not there do nothing.
#[verifier::rlimit(60)]
pub proof fn there_is_nothing_to_control(
    session: SessionModel,
    position_ms: u64,
    outcome: OutcomeModel,
    fresh: Seq<char>,
    at: WorldModel,
)
    requires
        session.playback is None,
    ensures
        session.run(
            TaskModel::ExecuteVote { action: VoteActionModel::Pause },
            outcome,
            fresh,
            at,
        ) == session.stay(),
        session.run(
            TaskModel::ExecuteVote { action: VoteActionModel::Resume },
            outcome,
            fresh,
            at,
        ) == session.stay(),
        session.run(
            TaskModel::ExecuteVote { action: VoteActionModel::Seek { position_ms: position_ms } },
            outcome,
            fresh,
            at,
        ) == session.stay(),
        session.command(NetworkCommandModel::Pause, fresh, at) == session.stay(),
        session.command(NetworkCommandModel::Resume, fresh, at) == session.stay(),
        session.command(NetworkCommandModel::Seek(position_ms), fresh, at) == session.stay(),
        session.stay().after == session,
        session.stay().effects.len() == 0,
{
}

/// Skipping, at the command of the one who asked for the track or by a vote, ends the playback and
/// goes on to the next item.
#[verifier::rlimit(60)]
pub proof fn skipping_goes_on_to_the_next_item(
    session: SessionModel,
    outcome: OutcomeModel,
    fresh: Seq<char>,
    at: WorldModel,
)
    ensures
        ({
            let skipped = SessionModel {
                agenda: seq![
                    TaskModel::StopCurrent { reason: "skipped"@ },
                    TaskModel::StartNext,
                ] + session.agenda,
                ..session
            };
            let voted = session.run(
                TaskModel::ExecuteVote { action: VoteActionModel::Skip },
                outcome,
                fresh,
                at,
            );
            let asked = session.command(NetworkCommandModel::Skip, fresh, at);
            &&& voted.after == skipped
            &&& voted.effects.len() == 0
            &&& session.playback is Some && session.playback->0.track_requested_by == Some(
                session.local,
            ) ==> asked.after == skipped && asked.effects.len() == 0
        }),
{
}

/// A playback that is ended stops the player and gives up what waits; afterwards nothing is played,
/// under the next version and in a session of its own, and everybody hears of it.
#[verifier::rlimit(60)]
pub proof fn an_ended_playback_leaves_nothing_played(
    session: SessionModel,
    reason: Seq<char>,
    outcome: OutcomeModel,
    fresh: Seq<char>,
    at: WorldModel,
)
    requires
        session.can_issue(),
    ensures
        ({
            let stopped = session.run(
                TaskModel::StopCurrent { reason: reason },
                outcome,
                fresh,
                at,
            );
            let idle = session.run(TaskModel::GoIdle { reason: reason }, outcome, fresh, at);
            let state = idle.after.playback->0;
            &&& stopped.effects == to_player(at, PlayerCommandModel::Stop) + giving_up(
                session,
                reason,
            )
            &&& stopped.after == (SessionModel {
                pending: None,
                agenda: seq![TaskModel::GoIdle { reason: reason }] + session.agenda,
                ..session
            })
            &&& state == (PlaybackStateModel {
                session_id: session.local + ":"@ + signed_decimal(at.now.wall_micros as int)
                    + ":"@ + "idle"@,
                leader_peer_id: session.local,
                track: None,
                track_requested_by: None,
                state_version: (session.playback_version + 1) as u64,
                issued_at_micros: at.now.wall_micros,
                playing: false,
                position_ms: 0,
                anchor_time_micros: at.now.wall_micros,
                rate_bits: 0x3f80_0000,
            })
            &&& idle.after == (SessionModel {
                playback: Some(state),
                playback_version: state.state_version,
                ..session
            })
            &&& idle.effects == seq![
                made_known(state),
                EffectModel::Ui(UiEventModel::Playback(None)),
                said(reason),
            ]
        }),
{
}

/// From time to time the leader repeats where its track stands, counted from that moment unless it
/// is yet to start; nobody else does, nor while something waits to be played.
#[verifier::rlimit(60)]
pub proof fn a_leader_repeats_where_the_track_stands(session: SessionModel, at: WorldModel)
    ensures
        ({
            let step = session.tick(crate::effect::Tick::MusicSync, at);
            let state = session.playback->0;
            let next = step.after.playback->0;
            let now = at.now.wall_micros;
            if session.playback is Some && session.pending is None && state.leader_peer_id
                == session.local && state.track is Some {
                &&& step.after == (SessionModel { playback: step.after.playback, ..session })
                &&& step.after.playback is Some
                &&& next.issued_at_micros == now
                &&& if state.playing && now < state.anchor_time_micros {
                    next == (PlaybackStateModel { issued_at_micros: now, ..state })
                } else {
                    &&& next.position_ms == stands(state, now, at.played_ms)
                    &&& next == (PlaybackStateModel {
                        issued_at_micros: now,
                        anchor_time_micros: now,
                        position_ms: next.position_ms,
                        ..state
                    })
                }
                &&& step.effects == seq![made_known(next), seen(next, at)]
            } else {
                step.after == session && step.effects.len() == 0
            }
        }),
{
    if let Some(state) = session.playback {
        a_playback_stands_and_is_heard(state, at.now.wall_micros, at.played_ms);
        let next = session.tick(crate::effect::Tick::MusicSync, at).after.playback->0;
        a_playback_stands_and_is_heard(next, at.now.wall_micros, at.played_ms);
    }
}

/// On every tick for the music a vote that has passed is carried out, what waits is started if it
/// can be, and then the player is brought in line, each whether or not the one before has failed.
#[verifier::rlimit(60)]
pub proof fn a_tick_for_the_music_does_all_of_it(session: SessionModel, at: WorldModel)
    requires
        session.vote is None,
    ensures
        ({
            let step = session.tick(crate::effect::Tick::Music, at);
            &&& step.effects.len() == 0
            &&& step.after == (SessionModel {
                agenda: seq![
                    TaskModel::ResolveVote,
                    told_at_length("vote execution failed: "@),
                    TaskModel::MaybeStart,
                    told_at_length("playback prepare failed: "@),
                    TaskModel::SyncPlayer,
                ] + session.agenda,
                ..session
            })
        }),
{
}

} // verus!
