//! What is played, where it stands, and how the local player follows it.
use crate::collections::{with_item, without_item, TextSet};
use crate::model::{
    PlaybackState, PlaybackStateModel, PlaybackView, PlaybackViewModel, QueueItem, QueueItemModel,
    Track,
};
use crate::peer::{new_playback_session_id, playback_session_id_text};
use crate::text::{comes_before, text_before};
use crate::time::{
    duration_micros, Duration, MUSIC_DRIFT_SEEK_THRESHOLD_MS, MUSIC_START_DELAY_MS,
};
use vstd::prelude::*;
use vstd::string::*;

verus! {

/// What the local player is doing.
#[derive(Debug, PartialEq, Eq)]
pub struct PlayerStatus {
    /// The track that it has loaded.
    pub track_id: Option<String>,
    pub position_ms: u64,
    pub playing: bool,
    /// The track has been played to its end.
    pub finished: bool,
}

/// The content of [`PlayerStatus`].
#[verifier::ext_equal]
pub struct PlayerStatusModel {
    pub track_id: Option<Seq<char>>,
    pub position_ms: u64,
    pub playing: bool,
    pub finished: bool,
}

impl View for PlayerStatus {
    type V = PlayerStatusModel;

    open spec fn view(&self) -> PlayerStatusModel {
        PlayerStatusModel {
            track_id: self.track_id.deep_view(),
            position_ms: self.position_ms,
            playing: self.playing,
            finished: self.finished,
        }
    }
}

impl DeepView for PlayerStatus {
    type V = PlayerStatusModel;

    open spec fn deep_view(&self) -> PlayerStatusModel {
        self@
    }
}

impl Clone for PlayerStatus {
    fn clone(&self) -> (copy: Self)
        ensures
            copy@ == self@,
    {
        PlayerStatus {
            track_id: self.track_id.clone(),
            position_ms: self.position_ms,
            playing: self.playing,
            finished: self.finished,
        }
    }
}

/// What the local player is told to do.
#[allow(inconsistent_fields)]
#[derive(Debug, PartialEq, Eq)]
pub enum PlayerCommand {
    SetPlaying {
        playing: bool,
        at_micros: i64,
    },
    Seek {
        position_ms: u64,
        playing: bool,
        at_micros: i64,
    },
    /// Loads the audio that was fetched last.
    Load {
        track_id: String,
        position_ms: u64,
        playing: bool,
        at_micros: i64,
    },
    Stop,
}

/// The content of [`PlayerCommand`].
#[allow(inconsistent_fields)]
#[verifier::ext_equal]
pub enum PlayerCommandModel {
    SetPlaying {
        playing: bool,
        at_micros: i64,
    },
    Seek {
        position_ms: u64,
        playing: bool,
        at_micros: i64,
    },
    Load {
        track_id: Seq<char>,
        position_ms: u64,
        playing: bool,
        at_micros: i64,
    },
    Stop,
}

impl View for PlayerCommand {
    type V = PlayerCommandModel;

    open spec fn view(&self) -> PlayerCommandModel {
        match self {
            PlayerCommand::SetPlaying { playing, at_micros } => PlayerCommandModel::SetPlaying {
                playing: *playing,
                at_micros: *at_micros,
            },
            PlayerCommand::Seek { position_ms, playing, at_micros } => PlayerCommandModel::Seek {
                position_ms: *position_ms,
                playing: *playing,
                at_micros: *at_micros,
            },
            PlayerCommand::Load { track_id, position_ms, playing, at_micros } => PlayerCommandModel::Load {
                track_id: track_id@,
                position_ms: *position_ms,
                playing: *playing,
                at_micros: *at_micros,
            },
            PlayerCommand::Stop => PlayerCommandModel::Stop,
        }
    }
}

impl DeepView for PlayerCommand {
    type V = PlayerCommandModel;

    open spec fn deep_view(&self) -> PlayerCommandModel {
        self@
    }
}

impl Clone for PlayerCommand {
    fn clone(&self) -> (copy: Self)
        ensures
            copy@ == self@,
    {
        match self {
            PlayerCommand::SetPlaying { playing, at_micros } => PlayerCommand::SetPlaying {
                playing: *playing,
                at_micros: *at_micros,
            },
            PlayerCommand::Seek { position_ms, playing, at_micros } => PlayerCommand::Seek {
                position_ms: *position_ms,
                playing: *playing,
                at_micros: *at_micros,
            },
            PlayerCommand::Load { track_id, position_ms, playing, at_micros } => PlayerCommand::Load {
                track_id: track_id.clone(),
                position_ms: *position_ms,
                playing: *playing,
                at_micros: *at_micros,
            },
            PlayerCommand::Stop => PlayerCommand::Stop,
        }
    }
}

/// A playback that waits until the peers have loaded its track.
#[derive(Debug, PartialEq, Eq)]
pub struct PendingPlayback {
    pub state: PlaybackState,
    /// The peers that were asked to load the track.
    pub expected_peers: TextSet,
    /// Those among them that have.
    pub ready_peers: TextSet,
    /// When the wait ends, on the monotonic clock.
    pub deadline: u64,
}

/// The content of [`PendingPlayback`].
#[verifier::ext_equal]
pub struct PendingPlaybackModel {
    pub state: PlaybackStateModel,
    pub expected_peers: Seq<Seq<char>>,
    pub ready_peers: Seq<Seq<char>>,
    pub deadline: u64,
}

impl View for PendingPlayback {
    type V = PendingPlaybackModel;

    open spec fn view(&self) -> PendingPlaybackModel {
        PendingPlaybackModel {
            state: self.state@,
            expected_peers: self.expected_peers@,
            ready_peers: self.ready_peers@,
            deadline: self.deadline,
        }
    }
}

impl DeepView for PendingPlayback {
    type V = PendingPlaybackModel;

    open spec fn deep_view(&self) -> PendingPlaybackModel {
        self@
    }
}

impl Clone for PendingPlayback {
    fn clone(&self) -> (copy: Self)
        ensures
            copy@ == self@,
    {
        PendingPlayback {
            state: self.state.clone(),
            expected_peers: self.expected_peers.clone(),
            ready_peers: self.ready_peers.clone(),
            deadline: self.deadline,
        }
    }
}

/// The length of the track, if there is one.
pub open spec fn duration_of(state: PlaybackStateModel) -> Option<u64> {
    match state.track {
        Some(track) => Some(track.duration_ms),
        None => None,
    }
}

/// A position that is not beyond the end of the track.
pub open spec fn clamped(state: PlaybackStateModel, position_ms: u64) -> u64 {
    match duration_of(state) {
        Some(duration) => if position_ms < duration {
            position_ms
        } else {
            duration
        },
        None => position_ms,
    }
}

/// There is something left to play from a position on.
pub open spec fn may_play_at(state: PlaybackStateModel, position_ms: u64) -> bool {
    match duration_of(state) {
        Some(duration) => position_ms < duration,
        None => true,
    }
}

/// The microseconds since the anchor time, none before it.
pub open spec fn elapsed_micros(state: PlaybackStateModel, now_micros: i64) -> i64 {
    if now_micros <= state.anchor_time_micros {
        0
    } else if now_micros - state.anchor_time_micros <= i64::MAX {
        (now_micros - state.anchor_time_micros) as i64
    } else {
        i64::MAX
    }
}

/// Where the playback stands, `played_ms` being what was played since the anchor time.
pub open spec fn position_at(state: PlaybackStateModel, now_micros: i64, played_ms: u64) -> u64 {
    if state.playing && now_micros > state.anchor_time_micros {
        clamped(
            state,
            if state.position_ms + played_ms <= u64::MAX {
                (state.position_ms + played_ms) as u64
            } else {
                u64::MAX
            },
        )
    } else {
        clamped(state, state.position_ms)
    }
}

/// The playback can be heard.
pub open spec fn audible_at(state: PlaybackStateModel, now_micros: i64, played_ms: u64) -> bool {
    &&& state.playing
    &&& now_micros >= state.anchor_time_micros
    &&& may_play_at(state, position_at(state, now_micros, played_ms))
}

/// The length of the track, if there is one.
pub fn playback_duration_ms(state: &PlaybackState) -> (duration: Option<u64>)
    ensures
        duration == duration_of(state@),
{
    match &state.track {
        Some(track) => Some(track.duration_ms),
        None => None,
    }
}

/// Brings a position back to the end of the track if it is beyond it.
pub fn clamp_playback_position_ms(state: &PlaybackState, position_ms: u64) -> (clamped_ms: u64)
    ensures
        clamped_ms == clamped(state@, position_ms),
{
    match playback_duration_ms(state) {
        Some(duration) => if position_ms < duration {
            position_ms
        } else {
            duration
        },
        None => position_ms,
    }
}

/// Whether there is something left to play from a position on.
pub fn can_play_at_position(state: &PlaybackState, position_ms: u64) -> (playable: bool)
    ensures
        playable == may_play_at(state@, position_ms),
{
    match playback_duration_ms(state) {
        Some(duration) => position_ms < duration,
        None => true,
    }
}

/// The microseconds since the anchor time, none before it.
pub fn playback_elapsed_micros(state: &PlaybackState, now_micros: i64) -> (elapsed: i64)
    ensures
        elapsed == elapsed_micros(state@, now_micros),
        elapsed >= 0,
{
    if now_micros <= state.anchor_time_micros {
        0
    } else {
        match now_micros.checked_sub(state.anchor_time_micros) {
            Some(elapsed) => elapsed,
            None => i64::MAX,
        }
    }
}

/// Where the playback stands, `played_ms` being what was played since the anchor time.
pub fn playback_position_ms(state: &PlaybackState, now_micros: i64, played_ms: u64) -> (position_ms:
    u64)
    ensures
        position_ms == position_at(state@, now_micros, played_ms),
{
    if state.playing && now_micros > state.anchor_time_micros {
        clamp_playback_position_ms(state, state.position_ms.saturating_add(played_ms))
    } else {
        clamp_playback_position_ms(state, state.position_ms)
    }
}

/// Whether the playback can be heard.
pub fn playback_should_be_audible(state: &PlaybackState, now_micros: i64, played_ms: u64) -> (
    audible: bool)
    ensures
        audible == audible_at(state@, now_micros, played_ms),
{
    state.playing && now_micros >= state.anchor_time_micros && can_play_at_position(
        state,
        playback_position_ms(state, now_micros, played_ms),
    )
}

/// There is a track.
pub open spec fn is_loaded(state: Option<PlaybackStateModel>) -> bool {
    state is Some && state->0.track is Some
}

/// Whether there is a track.
pub fn playback_has_track(state: Option<&PlaybackState>) -> (loaded: bool)
    ensures
        loaded == (state matches Some(s) && s@.track is Some),
{
    match state {
        Some(s) => s.track.is_some(),
        None => false,
    }
}

/// The peer asked for the track that is played.
pub open spec fn controls(state: PlaybackStateModel, peer_id: Seq<char>) -> bool {
    state.track_requested_by == Some(peer_id)
}

/// Whether a peer may control the playback without a vote: it asked for the track.
pub fn can_control_playback(state: &PlaybackState, local_peer_id: &str) -> (may: bool)
    ensures
        may == controls(state@, local_peer_id@),
{
    match &state.track_requested_by {
        Some(requester) => *requester == local_peer_id.to_owned(),
        None => false,
    }
}

/// The key by which playback states are ordered: when they were issued, their version, and who
/// leads them.
pub open spec fn order_key(state: PlaybackStateModel) -> (i64, u64, Seq<char>) {
    (state.issued_at_micros, state.state_version, state.leader_peer_id)
}

/// `a` is ordered before `b`.
pub open spec fn key_before(a: (i64, u64, Seq<char>), b: (i64, u64, Seq<char>)) -> bool {
    ||| a.0 < b.0
    ||| a.0 == b.0 && a.1 < b.1
    ||| a.0 == b.0 && a.1 == b.1 && text_before(a.2, b.2)
}

/// The key by which playback states are ordered.
pub fn playback_order_key(state: &PlaybackState) -> (key: (i64, u64, &str))
    ensures
        (key.0, key.1, key.2@) == order_key(state@),
{
    (state.issued_at_micros, state.state_version, state.leader_peer_id.as_str())
}

/// The identifier of the track, if there is one.
pub open spec fn track_of(state: PlaybackStateModel) -> Option<Seq<char>> {
    match state.track {
        Some(track) => Some(track.track_id),
        None => None,
    }
}

/// A playback state is to replace the current one: it is ordered behind it, or it has the same
/// place, track and leader and says something new.
pub open spec fn replaces(current: Option<PlaybackStateModel>, next: PlaybackStateModel) -> bool {
    match current {
        Some(c) => if order_key(next) != order_key(c) {
            key_before(order_key(c), order_key(next))
        } else {
            &&& track_of(c) == track_of(next)
            &&& c.leader_peer_id == next.leader_peer_id
            &&& (c.anchor_time_micros < next.anchor_time_micros || c.position_ms
                != next.position_ms || c.playing != next.playing)
        },
        None => true,
    }
}

fn same_track(a: &Option<Track>, b: &Option<Track>) -> (same: bool)
    ensures
        same == match (a, b) {
            (Some(x), Some(y)) => x@.track_id == y@.track_id,
            (None, None) => true,
            _ => false,
        },
{
    match (a, b) {
        (Some(x), Some(y)) => x.track_id == y.track_id,
        (None, None) => true,
        _ => false,
    }
}

/// Whether a playback state is to replace the current one.
pub fn should_apply_playback_state(current: Option<&PlaybackState>, next: &PlaybackState) -> (apply:
    bool)
    ensures
        apply == replaces(
            match current {
                Some(c) => Some(c@),
                None => None,
            },
            next@,
        ),
{
    let c = match current {
        Some(c) => c,
        None => return true,
    };
    if next.issued_at_micros != c.issued_at_micros {
        return next.issued_at_micros > c.issued_at_micros;
    }
    if next.state_version != c.state_version {
        return next.state_version > c.state_version;
    }
    if next.leader_peer_id != c.leader_peer_id {
        return comes_before(c.leader_peer_id.as_str(), next.leader_peer_id.as_str());
    }
    same_track(&c.track, &next.track) && (c.anchor_time_micros < next.anchor_time_micros
        || c.position_ms != next.position_ms || c.playing != next.playing)
}

/// How long after it was issued a state is to start.
pub open spec fn start_delay(state: PlaybackStateModel) -> i64 {
    if state.playing && state.anchor_time_micros > state.issued_at_micros {
        if state.anchor_time_micros - state.issued_at_micros <= i64::MAX {
            (state.anchor_time_micros - state.issued_at_micros) as i64
        } else {
            i64::MAX
        }
    } else {
        0
    }
}

/// A state from a peer, counted from the time at which it was received: the clocks of two peers
/// need not agree.
pub open spec fn rebased(state: PlaybackStateModel, received_at: i64) -> PlaybackStateModel {
    PlaybackStateModel {
        anchor_time_micros: if received_at + start_delay(state) <= i64::MAX {
            (received_at + start_delay(state)) as i64
        } else {
            i64::MAX
        },
        ..state
    }
}

/// Counts a state from a peer from the time at which it was received.
pub fn normalize_remote_playback_state(state: &PlaybackState, received_at_micros: i64) -> (
    normalized: PlaybackState)
    ensures
        normalized@ == rebased(state@, received_at_micros),
{
    let mut normalized = state.clone();
    let start_delay_micros: i64 = if state.playing && state.anchor_time_micros
        > state.issued_at_micros {
        match state.anchor_time_micros.checked_sub(state.issued_at_micros) {
            Some(delay) => delay,
            None => i64::MAX,
        }
    } else {
        0
    };
    normalized.anchor_time_micros =
    match received_at_micros.checked_add(start_delay_micros) {
        Some(anchor) => anchor,
        None => i64::MAX,
    };
    normalized
}

/// A state with the next version, issued and led by a peer at `now`.
pub open spec fn reissued(
    state: PlaybackStateModel,
    leader: Seq<char>,
    version: u64,
    now: i64,
    playing: bool,
    position_ms: u64,
) -> PlaybackStateModel {
    PlaybackStateModel {
        leader_peer_id: leader,
        state_version: version,
        issued_at_micros: now,
        playing: playing,
        position_ms: position_ms,
        anchor_time_micros: now,
        ..state
    }
}

/// Issues a state anew.
pub fn reissue(
    state: &mut PlaybackState,
    leader: &str,
    version: u64,
    now: i64,
    playing: bool,
    position_ms: u64,
)
    ensures
        final(state)@ == reissued(old(state)@, leader@, version, now, playing, position_ms),
{
    state.leader_peer_id = leader.to_owned();
    state.state_version = version;
    state.issued_at_micros = now;
    state.playing = playing;
    state.position_ms = position_ms;
    state.anchor_time_micros = now;
}

/// The bits of the ordinary speed, one.
pub const UNIT_RATE_BITS: u32 = 0x3f80_0000;

/// A state in which nothing is played.
pub open spec fn idle_state(leader: Seq<char>, version: u64, now: i64) -> PlaybackStateModel {
    PlaybackStateModel {
        session_id: playback_session_id_text(leader, now, "idle"@),
        leader_peer_id: leader,
        track: None,
        track_requested_by: None,
        state_version: version,
        issued_at_micros: now,
        playing: false,
        position_ms: 0,
        anchor_time_micros: now,
        rate_bits: UNIT_RATE_BITS,
    }
}

/// Makes a state in which nothing is played.
pub fn new_idle_state(leader: &str, version: u64, now: i64) -> (state: PlaybackState)
    ensures
        state@ == idle_state(leader@, version, now),
{
    PlaybackState {
        session_id: new_playback_session_id(leader, now, "idle"),
        leader_peer_id: leader.to_owned(),
        track: None,
        track_requested_by: None,
        state_version: version,
        issued_at_micros: now,
        playing: false,
        position_ms: 0,
        anchor_time_micros: now,
        rate_bits: UNIT_RATE_BITS,
    }
}

/// A state in which an item of the queue waits to be played.
pub open spec fn waiting_state(
    item: QueueItemModel,
    leader: Seq<char>,
    version: u64,
    now: i64,
) -> PlaybackStateModel {
    PlaybackStateModel {
        session_id: playback_session_id_text(leader, now, item.track.track_id),
        track: Some(item.track),
        track_requested_by: Some(item.requested_by),
        ..idle_state(leader, version, now)
    }
}

/// Makes a state in which an item of the queue waits to be played.
pub fn new_waiting_state(item: &QueueItem, leader: &str, version: u64, now: i64) -> (state:
    PlaybackState)
    ensures
        state@ == waiting_state(item@, leader@, version, now),
{
    let mut state = new_idle_state(leader, version, now);
    state.session_id = new_playback_session_id(leader, now, item.track.track_id.as_str());
    state.track = Some(item.track.clone());
    state.track_requested_by = Some(item.requested_by.clone());
    state
}

/// A state that starts from the beginning a little after `now`.
pub open spec fn starting_state(
    state: PlaybackStateModel,
    version: u64,
    now: i64,
) -> PlaybackStateModel {
    PlaybackStateModel {
        state_version: version,
        issued_at_micros: now,
        playing: true,
        position_ms: 0,
        anchor_time_micros: (now + MUSIC_START_DELAY_MS * 1000) as i64,
        ..state
    }
}

/// Makes a state start from the beginning a little after `now`.
pub fn start_state(state: &mut PlaybackState, version: u64, now: i64)
    requires
        now <= i64::MAX - MUSIC_START_DELAY_MS * 1000,
    ensures
        final(state)@ == starting_state(old(state)@, version, now),
{
    state.state_version = version;
    state.issued_at_micros = now;
    state.playing = true;
    state.position_ms = 0;
    state.anchor_time_micros = now + duration_micros(Duration::from_millis(MUSIC_START_DELAY_MS));
}

/// A state as its leader repeats it at `now`: counted from then, unless it is yet to start.
pub open spec fn repeated(state: PlaybackStateModel, now: i64, played_ms: u64) -> PlaybackStateModel {
    if !state.playing || now >= state.anchor_time_micros {
        PlaybackStateModel {
            position_ms: position_at(state, now, played_ms),
            anchor_time_micros: now,
            issued_at_micros: now,
            ..state
        }
    } else {
        PlaybackStateModel { issued_at_micros: now, ..state }
    }
}

/// Brings a state up to date before its leader repeats it.
pub fn repeat_state(state: &mut PlaybackState, now: i64, played_ms: u64)
    ensures
        final(state)@ == repeated(old(state)@, now, played_ms),
{
    if !state.playing || now >= state.anchor_time_micros {
        let position_ms: u64 = playback_position_ms(state, now, played_ms);
        state.position_ms = position_ms;
        state.anchor_time_micros = now;
    }
    state.issued_at_micros = now;
}

/// What is shown of a state.
pub open spec fn playback_view(
    state: PlaybackStateModel,
    now: i64,
    played_ms: u64,
) -> Option<PlaybackViewModel> {
    match state.track {
        Some(track) => Some(
            PlaybackViewModel {
                title: track.title,
                playing: audible_at(state, now, played_ms),
                position_ms: position_at(state, now, played_ms),
                duration_ms: track.duration_ms,
                leader_peer_id: state.leader_peer_id,
            },
        ),
        None => None,
    }
}

/// Makes what is shown of a state.
pub fn view_playback(state: &PlaybackState, now: i64, played_ms: u64) -> (view: Option<
    PlaybackView,
>)
    ensures
        view.deep_view() == playback_view(state@, now, played_ms),
{
    match &state.track {
        Some(track) => Some(
            PlaybackView {
                title: track.title.clone(),
                playing: playback_should_be_audible(state, now, played_ms),
                position_ms: playback_position_ms(state, now, played_ms),
                duration_ms: track.duration_ms,
                leader_peer_id: state.leader_peer_id.clone(),
            },
        ),
        None => None,
    }
}

/// The distance of two positions.
pub open spec fn drift(a: u64, b: u64) -> int {
    if a < b {
        b - a
    } else {
        a - b
    }
}

/// What brings a player with the right track to a position: a jump if it is far off or silent
/// when it should not be, else it is only let play or held.
pub open spec fn steering(
    player: PlayerStatusModel,
    position_ms: u64,
    audible: bool,
    now: i64,
) -> PlayerCommandModel {
    if drift(player.position_ms, position_ms) > MUSIC_DRIFT_SEEK_THRESHOLD_MS || (audible
        && !player.playing) {
        PlayerCommandModel::Seek { position_ms: position_ms, playing: audible, at_micros: now }
    } else {
        PlayerCommandModel::SetPlaying { playing: audible, at_micros: now }
    }
}

/// Steers a player with the right track to a position.
pub fn steer(player: &PlayerStatus, position_ms: u64, audible: bool, now: i64) -> (command:
    PlayerCommand)
    ensures
        command@ == steering(player@, position_ms, audible, now),
{
    let far: bool = if player.position_ms < position_ms {
        position_ms - player.position_ms > MUSIC_DRIFT_SEEK_THRESHOLD_MS
    } else {
        player.position_ms - position_ms > MUSIC_DRIFT_SEEK_THRESHOLD_MS
    };
    if far || (audible && !player.playing) {
        PlayerCommand::Seek { position_ms, playing: audible, at_micros: now }
    } else {
        PlayerCommand::SetPlaying { playing: audible, at_micros: now }
    }
}

/// What brings the player in line with a state: nothing unless it has loaded the state's track.
pub open spec fn player_sync(
    player: Option<PlayerStatusModel>,
    state: PlaybackStateModel,
    now: i64,
    played_ms: u64,
) -> Option<PlayerCommandModel> {
    match player {
        Some(p) => if state.track is Some && p.track_id == track_of(state) {
            Some(
                steering(
                    p,
                    position_at(state, now, played_ms),
                    audible_at(state, now, played_ms),
                    now,
                ),
            )
        } else {
            None
        },
        None => None,
    }
}

/// Whether the player has loaded a track.
pub fn has_loaded(player: &PlayerStatus, track_id: &String) -> (loaded: bool)
    ensures
        loaded == (player@.track_id == Some(track_id@)),
{
    match &player.track_id {
        Some(current) => *current == *track_id,
        None => false,
    }
}

/// Brings the player in line with a state.
pub fn sync_loaded_player_to_state(
    player: &Option<PlayerStatus>,
    state: &PlaybackState,
    now_micros: i64,
    played_ms: u64,
) -> (command: Option<PlayerCommand>)
    ensures
        command.deep_view() == player_sync(player.deep_view(), state@, now_micros, played_ms),
{
    let track = match &state.track {
        Some(track) => track,
        None => return None,
    };
    let status = match player {
        Some(status) => status,
        None => return None,
    };
    if !has_loaded(status, &track.track_id) {
        return None;
    }
    let desired_position: u64 = playback_position_ms(state, now_micros, played_ms);
    let should_play = playback_should_be_audible(state, now_micros, played_ms);
    Some(steer(status, desired_position, should_play, now_micros))
}

/// The local peer leads a playback that has reached the end of its track.
pub open spec fn is_over(
    state: PlaybackStateModel,
    local_peer_id: Seq<char>,
    player: Option<PlayerStatusModel>,
    now: i64,
    played_ms: u64,
) -> bool {
    &&& state.leader_peer_id == local_peer_id
    &&& state.track is Some
    &&& state.playing
    &&& now >= state.anchor_time_micros
    &&& (!may_play_at(state, position_at(state, now, played_ms)) || (player is Some
        && player->0.finished))
}

/// Whether the local peer leads a playback that has reached the end of its track.
pub fn has_finished(
    state: &PlaybackState,
    local_peer_id: &str,
    player: &Option<PlayerStatus>,
    now: i64,
    played_ms: u64,
) -> (over: bool)
    ensures
        over == is_over(state@, local_peer_id@, player.deep_view(), now, played_ms),
{
    if state.leader_peer_id != local_peer_id.to_owned() || state.track.is_none() || !state.playing
        || now < state.anchor_time_micros {
        return false;
    }
    if !can_play_at_position(state, playback_position_ms(state, now, played_ms)) {
        return true;
    }
    match player {
        Some(status) => status.finished,
        None => false,
    }
}

impl PendingPlaybackModel {
    /// Every peer that was asked is ready.
    pub open spec fn ready(self) -> bool {
        forall|i: int|
            0 <= i < self.expected_peers.len() ==> self.ready_peers.contains(
                #[trigger] self.expected_peers[i],
            )
    }

    /// A playback that nobody is ready for yet.
    pub open spec fn fresh(
        state: PlaybackStateModel,
        expected_peers: Seq<Seq<char>>,
        deadline: u64,
    ) -> PendingPlaybackModel {
        PendingPlaybackModel {
            state: state,
            expected_peers: expected_peers,
            ready_peers: Seq::empty(),
            deadline: deadline,
        }
    }

    /// A peer has said that it is ready. Peers that were not asked do not count.
    pub open spec fn with_ready(self, peer_id: Seq<char>) -> PendingPlaybackModel {
        if self.expected_peers.contains(peer_id) {
            PendingPlaybackModel { ready_peers: with_item(self.ready_peers, peer_id), ..self }
        } else {
            self
        }
    }

    /// A peer has gone.
    pub open spec fn without_peer(self, peer_id: Seq<char>) -> PendingPlaybackModel {
        PendingPlaybackModel {
            expected_peers: without_item(self.expected_peers, peer_id),
            ready_peers: without_item(self.ready_peers, peer_id),
            ..self
        }
    }
}

impl PendingPlayback {
    /// A playback that nobody is ready for yet.
    pub fn new(state: PlaybackState, expected_peers: TextSet, deadline: u64) -> (pending:
        PendingPlayback)
        ensures
            pending@ == PendingPlaybackModel::fresh(state@, expected_peers@, deadline),
    {
        PendingPlayback { state, expected_peers, ready_peers: TextSet::new(), deadline }
    }

    /// Notes that a peer is ready, and says whether that is new. Peers that were not asked do
    /// not count.
    pub fn mark_ready(&mut self, peer_id: &str) -> (new: bool)
        ensures
            final(self)@ == old(self)@.with_ready(peer_id@),
            new == (old(self)@.expected_peers.contains(peer_id@)
                && !old(self)@.ready_peers.contains(peer_id@)),
    {
        if self.expected_peers.contains(peer_id) {
            self.ready_peers.insert(peer_id)
        } else {
            false
        }
    }

    /// Drops a peer that has gone.
    pub fn drop_peer(&mut self, peer_id: &str)
        ensures
            final(self)@ == old(self)@.without_peer(peer_id@),
    {
        let _expected = self.expected_peers.remove(peer_id);
        let _ready = self.ready_peers.remove(peer_id);
    }

    /// Whether every peer that was asked is ready.
    pub fn is_ready(&self) -> (ready: bool)
        ensures
            ready == self@.ready(),
    {
        let mut i: usize = 0;
        while i < self.expected_peers.items.len()
            invariant
                i <= self@.expected_peers.len(),
                forall|j: int|
                    0 <= j < i ==> self@.ready_peers.contains(#[trigger] self@.expected_peers[j]),
            decreases self.expected_peers.items.len() - i,
        {
            if !self.ready_peers.contains(self.expected_peers.items[i].as_str()) {
                assert(!self@.ready_peers.contains(self@.expected_peers[i as int]));
                return false;
            }
            i = i + 1;
        }
        true
    }

    /// The number of peers that are ready.
    pub fn ready_count(&self) -> (count: usize)
        ensures
            count == self@.ready_peers.len(),
    {
        self.ready_peers.len()
    }

    /// The number of peers that were asked.
    pub fn expected_count(&self) -> (count: usize)
        ensures
            count == self@.expected_peers.len(),
    {
        self.expected_peers.len()
    }
}

} // verus!
