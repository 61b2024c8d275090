//! What holds of the queue and of the playback.
use crate::effect::{TaskModel, WorldModel};
use crate::laws::orders::{playback_order_is_total, queue_order_is_total};
use crate::model::{PlaybackStateModel, QueueItemModel, QueueStateModel, VoteActionModel};
use crate::playback::{
    audible_at, elapsed_micros, key_before, order_key, position_at, rebased, reissued, repeated,
    replaces, start_delay, starting_state, steering, PendingPlaybackModel, PlayerCommandModel,
    PlayerStatusModel,
};
use crate::queue::{move_item, newer, MusicQueueModel};
use crate::session::music::showing;
use crate::session::SessionModel;
use crate::time::MUSIC_DRIFT_SEEK_THRESHOLD_MS;
use vstd::prelude::*;

verus! {

/// A version of the queue that has come in is never taken for news again, and taking it over
/// twice is the same as once.
pub proof fn a_received_queue_is_no_news(queue: MusicQueueModel, state: QueueStateModel)
    ensures
        !queue.receive(state).superseded_by(state),
        queue.receive(state).receive(state) == queue.receive(state),
{
}

/// Two different versions of the queue leave every peer with the same queue, in whichever order
/// they come.
pub proof fn queues_converge(queue: MusicQueueModel, a: QueueStateModel, b: QueueStateModel)
    requires
        (a.version, a.updated_at_micros) != (b.version, b.updated_at_micros),
    ensures
        queue.receive(a).receive(b) == queue.receive(b).receive(a),
{
    queue_order_is_total(
        (a.version, a.updated_at_micros),
        (b.version, b.updated_at_micros),
        (queue.version, queue.updated_at),
    );
    queue_order_is_total(
        (b.version, b.updated_at_micros),
        (a.version, a.updated_at_micros),
        (queue.version, queue.updated_at),
    );
}

/// A version of the queue is never replaced by an older one.
pub proof fn queues_do_not_go_back(queue: MusicQueueModel, state: QueueStateModel)
    ensures
        !newer(
            queue.version,
            queue.updated_at,
            queue.receive(state).version,
            queue.receive(state).updated_at,
        ),
{
}

/// A change that is made no earlier than the last one is news to every peer that has the queue
/// as it was.
pub proof fn a_change_is_news(
    queue: MusicQueueModel,
    items: Seq<QueueItemModel>,
    now: i64,
    by: Seq<char>,
)
    requires
        queue.version < u64::MAX,
        now >= queue.updated_at,
    ensures
        queue.superseded_by(queue.changed(items, now).state(by)),
        queue.receive(queue.changed(items, now).state(by)) == queue.changed(items, now),
{
}

/// Moving an item keeps all items, and puts it where it was asked for, or at the end.
pub proof fn moving_keeps_the_items(items: Seq<QueueItemModel>, from: int, to: int)
    requires
        0 <= from < items.len(),
        0 <= to,
    ensures
        move_item(items, from, to).to_multiset() =~= items.to_multiset(),
        move_item(items, from, to).len() == items.len(),
        move_item(items, from, to)[if to < items.len() - 1 {
            to
        } else {
            items.len() - 1
        }] == items[from],
{
    broadcast use vstd::seq_lib::group_to_multiset_ensures;

    let rest = items.remove(from);
    let place = if to < rest.len() {
        to
    } else {
        rest.len() as int
    };
    assert(items =~= rest.insert(from, items[from]));
}

/// A queued item stands at the place that was asked for, and the others keep their order.
pub proof fn enqueuing_keeps_the_order(
    queue: MusicQueueModel,
    item: QueueItemModel,
    position: Option<usize>,
)
    ensures
        0 <= queue.insertion_place(position) <= queue.items.len(),
        queue.items.insert(queue.insertion_place(position), item)[queue.insertion_place(position)]
            == item,
        queue.items.insert(queue.insertion_place(position), item).remove(
            queue.insertion_place(position),
        ) == queue.items,
{
    let place = queue.insertion_place(position);
    assert(queue.items.insert(place, item).remove(place) =~= queue.items);
}

/// A playback never stands beyond the end of its track, and is silent once it is there.
pub proof fn playback_stays_within_the_track(state: PlaybackStateModel, now: i64, played_ms: u64)
    requires
        state.track is Some,
    ensures
        position_at(state, now, played_ms) <= state.track->0.duration_ms,
        audible_at(state, now, played_ms) ==> position_at(state, now, played_ms)
            < state.track->0.duration_ms,
        position_at(state, now, played_ms) == state.track->0.duration_ms ==> !audible_at(
            state,
            now,
            played_ms,
        ),
{
}

/// A playback only goes forward while it is played.
pub proof fn playback_goes_forward(
    state: PlaybackStateModel,
    now: i64,
    played_ms: u64,
    later: i64,
    played_later: u64,
)
    requires
        now <= later,
        played_ms <= played_later,
    ensures
        position_at(state, now, played_ms) <= position_at(state, later, played_later),
{
}

/// A playback is heard while it is played, its time has come, and its track, if there is one, is
/// not over. Once it is silent at the end of its track it stays silent.
pub proof fn a_silent_end_stays_silent(
    state: PlaybackStateModel,
    now: i64,
    played_ms: u64,
    later: i64,
    played_later: u64,
)
    requires
        state.anchor_time_micros <= now <= later,
        played_ms <= played_later,
    ensures
        audible_at(state, now, played_ms) <==> state.playing && now >= state.anchor_time_micros && (
        state.track is None || position_at(state, now, played_ms)
            < state.track->0.duration_ms),
        audible_at(state, later, played_later) ==> audible_at(state, now, played_ms),
{
    playback_goes_forward(state, now, played_ms, later, played_later);
}

/// Whatever the rate, a playback never runs back, and once silent at its end it stays silent:
/// all that matters is that what is played does not shrink as time goes by.
pub proof fn playback_never_runs_back(
    state: PlaybackStateModel,
    played: spec_fn(i64) -> u64,
    now: i64,
    later: i64,
)
    requires
        now <= later,
        forall|a: i64, b: i64| 0 <= a <= b ==> #[trigger] played(a) <= #[trigger] played(b),
    ensures
        position_at(state, now, played(elapsed_micros(state, now))) <= position_at(
            state,
            later,
            played(elapsed_micros(state, later)),
        ),
        state.anchor_time_micros <= now && audible_at(
            state,
            later,
            played(elapsed_micros(state, later)),
        ) ==> audible_at(state, now, played(elapsed_micros(state, now))),
{
    let a = elapsed_micros(state, now);
    let b = elapsed_micros(state, later);
    assert(0 <= a <= b);
    assert(played(a) <= played(b));
    playback_goes_forward(state, now, played(a), later, played(b));
}

/// A playback that is held stands still.
pub proof fn held_playback_stands_still(
    state: PlaybackStateModel,
    now: i64,
    played_ms: u64,
    later: i64,
    played_later: u64,
)
    requires
        !state.playing,
    ensures
        position_at(state, now, played_ms) == position_at(state, later, played_later),
        !audible_at(state, now, played_ms),
{
}

/// Issuing a state anew where it stands, or repeating it, does not move it: whoever takes it over
/// at that moment hears the same place.
pub proof fn reissuing_keeps_the_place(
    state: PlaybackStateModel,
    leader: Seq<char>,
    version: u64,
    now: i64,
    played_ms: u64,
    playing: bool,
    fresh_ms: u64,
)
    ensures
        position_at(
            reissued(
                state,
                leader,
                version,
                now,
                playing,
                position_at(state, now, played_ms),
            ),
            now,
            fresh_ms,
        ) == position_at(state, now, played_ms),
        position_at(repeated(state, now, played_ms), now, fresh_ms) == position_at(
            state,
            now,
            played_ms,
        ),
{
}

/// A vote to pause holds the playback where it stood, whatever the time and whatever is counted
/// as played later, and issues it under the next version. It stays the same playback.
pub proof fn a_vote_to_pause_holds_the_playback(
    session: SessionModel,
    at: WorldModel,
    later: i64,
    played_later: u64,
)
    requires
        session.playback is Some,
        session.can_execute(VoteActionModel::Pause),
    ensures
        ({
            let before = session.playback->0;
            let after = session.execute_vote(VoteActionModel::Pause, at).after;
            let held = after.playback->0;
            &&& after.playback is Some
            &&& !held.playing
            &&& position_at(held, later, played_later) == position_at(
                before,
                at.now.wall_micros,
                at.played_ms,
            )
            &&& !audible_at(held, later, played_later)
            &&& held.state_version == session.playback_version + 1
            &&& after.playback_version == session.playback_version + 1
            &&& held.session_id == before.session_id
            &&& held.track == before.track
            &&& held.track_requested_by == before.track_requested_by
            &&& held.rate_bits == before.rate_bits
        }),
{
}

/// A tick goes by one reading of the clock: whether the track is over is judged at the time at
/// which the player was brought in line, and the player is asked about that time. So a track that
/// the player is told to play is not ended in the same tick, unless the player is through with
/// it, and one that its leader sees at its end is.
pub proof fn a_tick_goes_by_one_reading(session: SessionModel, at: WorldModel, later: WorldModel)
    requires
        session.playback is Some,
    ensures
        ({
            let state = session.playback->0;
            let now = at.now.wall_micros;
            let synced = session.sync_player(at).after;
            let through = later.player is Some && later.player->0.finished;
            let checked = session.check_finished(now, at.played_ms, later);
            &&& synced.playback == session.playback
            &&& synced.popped().agenda == seq![
                TaskModel::CheckFinished { at_micros: now, played_ms: at.played_ms },
            ] + session.agenda
            &&& synced.popped().player_time(later.now.wall_micros) == now
            &&& audible_at(state, now, at.played_ms) && !through ==> checked == session.asking(
                seq![showing(state, later)],
            )
            &&& state.playing && now >= state.anchor_time_micros && state.track is Some
                && state.leader_peer_id == session.local && !audible_at(state, now, at.played_ms)
                ==> checked == session.deferring(
                seq![TaskModel::StopCurrent { reason: "track finished"@ }, TaskModel::StartNext],
            ).stay()
        }),
{
    let synced = session.sync_player(at).after;
    let check = TaskModel::CheckFinished {
        at_micros: at.now.wall_micros,
        played_ms: at.played_ms,
    };
    assert(synced.popped().agenda =~= seq![check] + session.agenda);
    assert(synced.popped().agenda[0] == check);
}

/// A playback state that has been taken over does not replace itself, and no state is replaced by
/// one that is ordered before it.
pub proof fn playback_does_not_go_back(current: PlaybackStateModel, next: PlaybackStateModel)
    ensures
        !replaces(Some(current), current),
        replaces(Some(current), next) ==> !key_before(order_key(next), order_key(current)),
{
    playback_order_is_total(order_key(current), order_key(next), order_key(current));
}

/// What is played once a state has come in.
pub open spec fn after_state(
    current: Option<PlaybackStateModel>,
    next: PlaybackStateModel,
) -> Option<PlaybackStateModel> {
    if replaces(current, next) {
        Some(next)
    } else {
        current
    }
}

/// Two states with different keys leave every peer with the same playback, in whichever order
/// they come, unless one of them has the key of what is played already.
pub proof fn playbacks_converge(
    current: Option<PlaybackStateModel>,
    a: PlaybackStateModel,
    b: PlaybackStateModel,
)
    requires
        order_key(a) != order_key(b),
        current is Some ==> order_key(a) != order_key(current->0) && order_key(b) != order_key(
            current->0,
        ),
    ensures
        after_state(after_state(current, a), b) == after_state(after_state(current, b), a),
{
    playback_order_is_total(order_key(a), order_key(b), order_key(a));
    playback_order_is_total(order_key(b), order_key(a), order_key(b));
    if let Some(c) = current {
        playback_order_is_total(order_key(c), order_key(a), order_key(b));
        playback_order_is_total(order_key(c), order_key(b), order_key(a));
        playback_order_is_total(order_key(a), order_key(c), order_key(b));
        playback_order_is_total(order_key(b), order_key(c), order_key(a));
        playback_order_is_total(order_key(a), order_key(b), order_key(c));
        playback_order_is_total(order_key(b), order_key(a), order_key(c));
    }
}

/// Counting a state from the time at which it came changes nothing of its order, its track or its
/// place, and it starts as long after that time as it was to start after it was issued.
pub proof fn rebasing_keeps_the_state(state: PlaybackStateModel, received_at: i64)
    ensures
        order_key(rebased(state, received_at)) == order_key(state),
        rebased(state, received_at).track == state.track,
        rebased(state, received_at).position_ms == state.position_ms,
        rebased(state, received_at).playing == state.playing,
        received_at + start_delay(state) <= i64::MAX ==> rebased(
            state,
            received_at,
        ).anchor_time_micros - received_at == start_delay(state),
        rebased(state, received_at).anchor_time_micros >= received_at,
{
}

/// A playback that starts does so from the beginning, after a pause in which nothing is heard.
pub proof fn starting_is_from_the_beginning(
    state: PlaybackStateModel,
    version: u64,
    now: i64,
    played_ms: u64,
)
    requires
        now <= i64::MAX - crate::time::MUSIC_START_DELAY_MS * 1000,
    ensures
        starting_state(state, version, now).session_id == state.session_id,
        starting_state(state, version, now).track == state.track,
        position_at(starting_state(state, version, now), now, played_ms) == 0,
        !audible_at(starting_state(state, version, now), now, played_ms),
        start_delay(starting_state(state, version, now)) == crate::time::MUSIC_START_DELAY_MS * 1000,
{
}

/// A player is made to jump only if it is far off or silent when it should not be, and is always
/// told whether it should be heard.
pub proof fn steering_is_gentle(
    player: PlayerStatusModel,
    position_ms: u64,
    audible: bool,
    now: i64,
)
    ensures
        steering(player, position_ms, audible, now) is Seek ==> player.position_ms
            > position_ms + MUSIC_DRIFT_SEEK_THRESHOLD_MS || position_ms > player.position_ms
            + MUSIC_DRIFT_SEEK_THRESHOLD_MS || (audible && !player.playing),
        steering(player, position_ms, audible, now) is SetPlaying ==> (!audible || player.playing),
        match steering(player, position_ms, audible, now) {
            PlayerCommandModel::Seek { playing, position_ms: p, .. } => playing == audible && p
                == position_ms,
            PlayerCommandModel::SetPlaying { playing, .. } => playing == audible,
            _ => false,
        },
{
}

impl PendingPlaybackModel {
    /// Those who are ready were asked, and nobody counts twice.
    pub open spec fn wf(self) -> bool {
        &&& self.expected_peers.no_duplicates()
        &&& self.ready_peers.no_duplicates()
        &&& forall|p: Seq<char>|
            #[trigger] self.ready_peers.contains(p) ==> self.expected_peers.contains(p)
    }
}

/// Peers that come and go keep those who are ready among those who were asked.
pub proof fn readiness_is_kept(pending: PendingPlaybackModel, peer_id: Seq<char>)
    requires
        pending.wf(),
    ensures
        pending.with_ready(peer_id).wf(),
        pending.without_peer(peer_id).wf(),
        pending.expected_peers.contains(peer_id) ==> pending.with_ready(
            peer_id,
        ).ready_peers.contains(peer_id),
{
    let more = pending.with_ready(peer_id);
    let less = pending.without_peer(peer_id);
    crate::collections::set_laws(pending.ready_peers, peer_id, peer_id);
    crate::collections::set_laws(pending.expected_peers, peer_id, peer_id);
    assert forall|p: Seq<char>| #[trigger] more.ready_peers.contains(p) implies
        more.expected_peers.contains(p) by {
        crate::collections::set_laws(pending.ready_peers, peer_id, p);
    }
    assert forall|p: Seq<char>| #[trigger] less.ready_peers.contains(p) implies
        less.expected_peers.contains(p) by {
        crate::collections::set_laws(pending.ready_peers, peer_id, p);
        crate::collections::set_laws(pending.expected_peers, peer_id, p);
    }
}

} // verus!
