//! How the queue that all peers share changes.
use crate::effect::{EffectModel, FailureModel, OutcomeModel, TaskModel, WorldModel};
use crate::laws::basics::said;
use crate::model::{
    NetworkCommandModel, QueueItemModel, QueueStateModel, TrackModel, UiEventModel, VoteActionModel,
    WireMessageModel,
};
use crate::queue::{is_item_place, item_place, item_place_is};
use crate::session::SessionModel;
use crate::text::decimal;
use vstd::prelude::*;

verus! {

/// `after` is `before` with `item` put in at a place.
pub open spec fn is_with(
    before: Seq<QueueItemModel>,
    after: Seq<QueueItemModel>,
    place: int,
    item: QueueItemModel,
) -> bool {
    &&& 0 <= place <= before.len()
    &&& after.len() == before.len() + 1
    &&& after[place] == item
    &&& forall|i: int| 0 <= i < place ==> (#[trigger] after[i]) == before[i]
    &&& forall|i: int| place < i < after.len() ==> (#[trigger] after[i]) == before[i - 1]
}

/// `after` is `before` without the item at a place.
pub open spec fn is_without(
    before: Seq<QueueItemModel>,
    after: Seq<QueueItemModel>,
    place: int,
) -> bool {
    &&& 0 <= place < before.len()
    &&& after.len() == before.len() - 1
    &&& forall|i: int| 0 <= i < place ==> (#[trigger] after[i]) == before[i]
    &&& forall|i: int| place <= i < after.len() ==> (#[trigger] after[i]) == before[i + 1]
}

/// Nothing of a session but its queue and its agenda has changed, the queue has its next version,
/// and the change was made now.
pub open spec fn only_the_queue_changed(
    before: SessionModel,
    after: SessionModel,
    at: WorldModel,
) -> bool {
    &&& after == (SessionModel { queue: after.queue, agenda: after.agenda, ..before })
    &&& after.queue.version == before.queue.version + 1
    &&& after.queue.updated_at == at.now.wall_micros
}

/// The queue of a session as it is told to others and shown.
pub open spec fn queue_told(session: SessionModel) -> QueueStateModel {
    QueueStateModel {
        version: session.queue.version,
        updated_at_micros: session.queue.updated_at,
        updated_by: session.local,
        items: session.queue.items,
    }
}

/// The queue is told to the peers and shown.
pub open spec fn queue_spread(session: SessionModel) -> Seq<EffectModel> {
    seq![
        EffectModel::Publish(WireMessageModel::QueueState { state: queue_told(session) }),
        EffectModel::Ui(UiEventModel::Queue(queue_told(session))),
    ]
}

/// A track that is asked for is looked up, parts being counted from one, and then queued at the
/// position asked for.
pub proof fn a_track_that_is_asked_for_is_looked_up(
    session: SessionModel,
    bvid: Seq<char>,
    part: usize,
    position: Option<usize>,
    fresh: Seq<char>,
    at: WorldModel,
)
    ensures
        ({
            let command = NetworkCommandModel::EnqueueBilibili {
                bvid: bvid,
                part: part,
                position: position,
            };
            let step = session.command(command, fresh, at);
            &&& step.effects == seq![
                said("resolving bilibili "@ + bvid + " part "@ + decimal(part as nat)),
                EffectModel::ResolveTrack {
                    bvid: bvid,
                    part: (if part == 0 {
                        0
                    } else {
                        part - 1
                    }) as usize,
                },
            ]
            &&& step.after == (SessionModel {
                agenda: seq![TaskModel::TrackResolved { position: position }] + session.agenda,
                ..session
            })
        }),
{
}

/// A track that was found is queued for this peer: at the position asked for, counted from one, or
/// at the end if there is none or it lies beyond. The others keep their order, everybody hears of
/// it, and then it is seen whether anything is to be played.
#[verifier::rlimit(60)]
pub proof fn a_track_that_was_found_is_queued(
    session: SessionModel,
    track: TrackModel,
    position: Option<usize>,
    fresh: Seq<char>,
    at: WorldModel,
)
    requires
        session.can_change_queue(),
    ensures
        ({
            let task = TaskModel::TrackResolved { position: position };
            let step = session.run(task, OutcomeModel::Track(track), fresh, at);
            let length = session.queue.items.len();
            let place = match position {
                Some(p) => if p == 0 {
                    0
                } else if p > length {
                    length as int
                } else {
                    p - 1
                },
                None => length as int,
            };
            let item = QueueItemModel {
                item_id: fresh,
                track: track,
                requested_by: session.local,
                added_at_micros: at.now.wall_micros,
            };
            &&& only_the_queue_changed(session, step.after, at)
            &&& is_with(session.queue.items, step.after.queue.items, place, item)
            &&& step.after.agenda == seq![TaskModel::StartNext] + session.agenda
            &&& step.effects == queue_spread(step.after).push(
                said("queued #"@ + decimal((place + 1) as nat) + ", "@ + track.title),
            )
        }),
{
}

/// A track that was not found is told, and nothing is queued.
pub proof fn a_track_that_was_not_found_is_told(
    session: SessionModel,
    position: Option<usize>,
    failure: FailureModel,
    at: WorldModel,
)
    ensures
        ({
            let task = TaskModel::TrackResolved { position: position };
            let step = session.recover(task, failure, at);
            &&& step.after == session
            &&& step.effects == seq![said("bilibili resolve failed: "@ + failure.full)]
        }),
{
}

/// If nothing is played and nothing waits, the first item of the queue leaves it, the rest stays in
/// its order, and everybody hears of it. That first item is what gets prepared next. While anything
/// is played or waits, or if the queue is empty, nothing happens.
#[verifier::rlimit(60)]
pub proof fn the_first_item_is_next(
    session: SessionModel,
    outcome: OutcomeModel,
    fresh: Seq<char>,
    at: WorldModel,
)
    requires
        session.can_change_queue(),
    ensures
        ({
            let step = session.run(TaskModel::StartNext, outcome, fresh, at);
            let free = session.pending is None && (session.playback is None
                || session.playback->0.track is None);
            let items = session.queue.items;
            if free && items.len() > 0 {
                &&& only_the_queue_changed(session, step.after, at)
                &&& is_without(items, step.after.queue.items, 0)
                &&& step.after.agenda == seq![TaskModel::Supersede { item: items[0] }]
                    + session.agenda
                &&& step.effects == queue_spread(step.after)
            } else {
                step.after == session && step.effects.len() == 0
            }
        }),
{
}

/// An item whose turn has come supersedes what waits, which is given up, and is prepared as of that
/// moment.
#[verifier::rlimit(60)]
pub proof fn the_next_item_is_prepared(
    session: SessionModel,
    item: QueueItemModel,
    outcome: OutcomeModel,
    fresh: Seq<char>,
    at: WorldModel,
)
    ensures
        ({
            let step = session.run(TaskModel::Supersede { item: item }, outcome, fresh, at);
            &&& step.effects == crate::laws::playing::giving_up(
                session,
                "superseded by next queue item"@,
            )
            &&& step.after == (SessionModel {
                pending: None,
                agenda: seq![
                    TaskModel::Prepare { item: item, at_micros: at.now.wall_micros },
                ] + session.agenda,
                ..session
            })
        }),
{
}

/// When nothing is played and the queue is not empty, what is played next is the track of the first
/// item, whenever the replies come: it is the current playback once the item has left the queue and
/// is prepared, and the queue is the rest of what it was.
#[verifier::rlimit(100)]
pub proof fn what_is_played_next_is_the_first_item(
    session: SessionModel,
    fresh: Seq<char>,
    first: WorldModel,
    second: WorldModel,
    third: WorldModel,
)
    requires
        session.can_change_queue(),
        session.can_issue(),
        session.pending is None,
        session.playback is None || session.playback->0.track is None,
        session.queue.items.len() > 0,
        session.agenda.len() > 0,
        session.agenda[0] == TaskModel::StartNext,
    ensures
        ({
            let taken = session.resume(OutcomeModel::Done, fresh, first).after;
            let freed = taken.resume(OutcomeModel::Done, fresh, second).after;
            let prepared = freed.resume(OutcomeModel::Done, fresh, third).after;
            let item = session.queue.items[0];
            &&& prepared.playback is Some
            &&& prepared.playback->0.track == Some(item.track)
            &&& prepared.playback->0.track_requested_by == Some(item.requested_by)
            &&& is_without(session.queue.items, prepared.queue.items, 0)
        }),
{
    let taken = session.resume(OutcomeModel::Done, fresh, first).after;
    let items = session.queue.items;
    the_first_item_is_next(session.popped(), OutcomeModel::Done, fresh, first);
    assert(taken.agenda[0] == TaskModel::Supersede { item: items[0] });
    the_next_item_is_prepared(taken.popped(), items[0], OutcomeModel::Done, fresh, second);
    let freed = taken.resume(OutcomeModel::Done, fresh, second).after;
    let task = TaskModel::Prepare { item: items[0], at_micros: second.now.wall_micros };
    assert(freed.agenda[0] == task);
    assert(freed.queue == taken.queue);
    let prepared = freed.resume(OutcomeModel::Done, fresh, third).after;
    assert(prepared == freed.popped().prepare(items[0], second.now.wall_micros, third).after);
}

/// The one who asked for an item takes it out of the queue alone, at the position that it names,
/// and the others keep their order. There is nothing to take out at a position that does not exist.
#[verifier::rlimit(60)]
pub proof fn own_items_are_taken_out(
    session: SessionModel,
    index: usize,
    fresh: Seq<char>,
    at: WorldModel,
)
    requires
        session.can_change_queue(),
    ensures
        ({
            let step = session.command(NetworkCommandModel::RemoveQueueItem(index), fresh, at);
            let items = session.queue.items;
            &&& index == 0 || index > items.len() ==> step.after == session && step.effects == seq![
                said("queue item #"@ + decimal(index as nat) + " does not exist"@),
            ]
            &&& 1 <= index <= items.len() && items[index - 1].requested_by == session.local ==> {
                &&& only_the_queue_changed(session, step.after, at)
                &&& is_without(items, step.after.queue.items, index - 1)
                &&& step.after.agenda == session.agenda
                &&& step.effects == queue_spread(step.after).push(
                    said("removed #"@ + decimal(index as nat) + ": "@ + items[index - 1].track.title),
                )
            }
        }),
{
}

/// A vote to remove an item takes that item out of the queue and no other: the rest keeps its
/// order. If the item is gone already, nothing happens.
#[verifier::rlimit(60)]
pub proof fn a_vote_to_remove_takes_out_that_item(
    session: SessionModel,
    item_id: Seq<char>,
    place: int,
    outcome: OutcomeModel,
    fresh: Seq<char>,
    at: WorldModel,
)
    requires
        session.can_change_queue(),
    ensures
        ({
            let items = session.queue.items;
            let action = VoteActionModel::Remove { item_id: item_id };
            let task = TaskModel::ExecuteVote { action: action };
            let step = session.run(task, outcome, fresh, at);
            let after = step.after.queue.items;
            &&& (forall|i: int| 0 <= i < items.len() ==> (#[trigger] items[i]).item_id != item_id)
                ==> step.after == session && step.effects.len() == 0
            &&& 0 <= place < items.len() && items[place].item_id == item_id && (forall|i: int|
                0 <= i < place ==> (#[trigger] items[i]).item_id != item_id) ==> {
                &&& only_the_queue_changed(session, step.after, at)
                &&& is_without(items, after, place)
                &&& step.after.agenda == session.agenda
                &&& step.effects == queue_spread(step.after).push(
                    said("removed "@ + items[place].track.title),
                )
                &&& (forall|i: int|
                    place < i < items.len() ==> (#[trigger] items[i]).item_id != item_id)
                    ==> forall|i: int|
                    0 <= i < after.len() ==> (#[trigger] after[i]).item_id != item_id
            }
        }),
{
    let items = session.queue.items;
    if is_item_place(items, item_id, place) {
        item_place_is(items, item_id, place);
    }
    if item_place(items, item_id) is Some {
        let p = choose|p: int| is_item_place(items, item_id, p);
        assert(items[p].item_id == item_id);
    }
}

/// A vote to move an item puts that item at the place asked for, counted from zero, or at the end
/// if it lies beyond, and the others keep their order. If the item is gone, nothing happens.
#[verifier::rlimit(60)]
pub proof fn a_vote_to_move_moves_that_item(
    session: SessionModel,
    item_id: Seq<char>,
    to_index: usize,
    place: int,
    outcome: OutcomeModel,
    fresh: Seq<char>,
    at: WorldModel,
)
    requires
        session.can_change_queue(),
    ensures
        ({
            let items = session.queue.items;
            let action = VoteActionModel::Move { item_id: item_id, to_index: to_index };
            let task = TaskModel::ExecuteVote { action: action };
            let step = session.run(task, outcome, fresh, at);
            let after = step.after.queue.items;
            let target = if to_index < items.len() {
                to_index as int
            } else {
                items.len() - 1
            };
            &&& (forall|i: int| 0 <= i < items.len() ==> (#[trigger] items[i]).item_id != item_id)
                ==> step.after == session && step.effects.len() == 0
            &&& 0 <= place < items.len() && items[place].item_id == item_id && (forall|i: int|
                0 <= i < place ==> (#[trigger] items[i]).item_id != item_id) ==> {
                &&& only_the_queue_changed(session, step.after, at)
                &&& after.len() == items.len()
                &&& after[target] == items[place]
                &&& after.remove(target) == items.remove(place)
                &&& step.after.agenda == session.agenda
                &&& step.effects == queue_spread(step.after).push(
                    said("moved queue item to #"@ + decimal((target + 1) as nat)),
                )
            }
        }),
{
    let items = session.queue.items;
    if is_item_place(items, item_id, place) {
        item_place_is(items, item_id, place);
        let rest = items.remove(place);
        let target = if to_index < items.len() {
            to_index as int
        } else {
            items.len() - 1
        };
        assert(rest.insert(target, items[place]).remove(target) =~= rest);
    }
    if item_place(items, item_id) is Some {
        let p = choose|p: int| is_item_place(items, item_id, p);
        assert(items[p].item_id == item_id);
    }
}

/// The first eight characters of a peer's identifier, or all of a shorter one.
pub open spec fn shortened(peer: Seq<char>) -> Seq<char> {
    if peer.len() > 8 {
        peer.subrange(0, 8)
    } else {
        peer
    }
}

/// Some lines tell what is played and the first three items of the queue, by place, title and who
/// asked for them, and how many there are beyond.
pub open spec fn tells_what_comes(
    lines: Seq<EffectModel>,
    session: SessionModel,
    items: Seq<QueueItemModel>,
) -> bool {
    &&& lines.len() >= 1
    &&& lines[0] == said(
        if session.playback is Some && session.playback->0.track is Some {
            "now: "@ + session.playback->0.track->0.title
        } else {
            "now: idle"@
        },
    )
    &&& items.len() == 0 ==> lines.len() == 2 && lines[1] == said("queue is empty"@)
    &&& 0 < items.len() <= 3 ==> lines.len() == 1 + items.len()
    &&& items.len() > 3 ==> lines.len() == 5 && lines[4] == said(
        "... and "@ + decimal((items.len() - 3) as nat) + " more"@,
    )
    &&& forall|i: int|
        0 <= i < items.len() && i < 3 ==> (#[trigger] lines[i + 1]) == said(
            "#"@ + decimal((i + 1) as nat) + " "@ + items[i].track.title + " ("@ + shortened(
                items[i].requested_by,
            ) + ")"@,
        )
}

/// The queue is shown with a few lines on what comes.
#[verifier::rlimit(60)]
pub proof fn the_queue_is_shown(session: SessionModel, fresh: Seq<char>, at: WorldModel)
    ensures
        ({
            let step = session.command(NetworkCommandModel::ShowQueue, fresh, at);
            &&& step.after == session
            &&& step.effects.len() > 0
            &&& step.effects[0] == EffectModel::Ui(UiEventModel::Queue(queue_told(session)))
            &&& tells_what_comes(step.effects.skip(1), session, session.queue.items)
        }),
{
    let lines = session.command(NetworkCommandModel::ShowQueue, fresh, at).effects.skip(1);
    let items = session.queue.items;
    assert(lines =~= crate::session::music::queue_status(session.playback, items));
    lines_tell_what_comes(session, items);
}

#[verifier::rlimit(60)]
proof fn lines_tell_what_comes(session: SessionModel, items: Seq<QueueItemModel>)
    ensures
        tells_what_comes(
            crate::session::music::queue_status(session.playback, items),
            session,
            items,
        ),
{
    let lines = crate::session::music::queue_status(session.playback, items);
    assert forall|i: int| 0 <= i < items.len() && i < 3 implies (#[trigger] lines[i + 1]) == said(
        "#"@ + decimal((i + 1) as nat) + " "@ + items[i].track.title + " ("@ + shortened(
            items[i].requested_by,
        ) + ")"@,
    ) by {
        assert(shortened(items[i].requested_by) =~= crate::text::short_peer_text(
            items[i].requested_by,
        ));
        assert(lines[i + 1] == crate::session::telling(
            crate::session::music::item_line(items, i),
        ));
    }
}

/// The queue of a peer replaces this one's if it was changed later, or at the same time under a
/// higher version, and then it is this one's as it stands: items, version and time. It is shown
/// with what comes. Any other leaves the queue as it is. An answer for somebody else does too.
#[verifier::rlimit(60)]
pub proof fn a_newer_queue_is_taken_over(
    session: SessionModel,
    source: Seq<char>,
    state: QueueStateModel,
    target: Seq<char>,
    fresh: Seq<char>,
    at: WorldModel,
)
    ensures
        ({
            let sent = session.hear(
                source,
                WireMessageModel::QueueState { state: state },
                fresh,
                at,
            );
            let answered = session.hear(
                source,
                WireMessageModel::QueueResponse { target: target, state: state },
                fresh,
                at,
            );
            let newer = state.updated_at_micros > session.queue.updated_at || (
            state.updated_at_micros == session.queue.updated_at && state.version
                > session.queue.version);
            let taken = SessionModel {
                queue: crate::queue::MusicQueueModel {
                    items: state.items,
                    version: state.version,
                    updated_at: state.updated_at_micros,
                },
                ..session
            };
            &&& !newer ==> sent.after == session && sent.effects.len() == 0
            &&& !newer || target != session.local ==> answered.after == session
                && answered.effects.len() == 0
            &&& newer ==> {
                &&& sent.after == taken
                &&& sent.effects.len() > 2
                &&& sent.effects[0] == EffectModel::Ui(UiEventModel::Queue(state))
                &&& sent.effects[1] == said("queue updated by "@ + shortened(state.updated_by))
                &&& tells_what_comes(sent.effects.skip(2), session, state.items)
            }
            &&& newer && target == session.local ==> {
                &&& answered.after == taken
                &&& answered.effects.len() > 2
                &&& answered.effects[0] == EffectModel::Ui(UiEventModel::Queue(state))
                &&& answered.effects[1] == said("synced queue by "@ + shortened(state.updated_by))
                &&& tells_what_comes(answered.effects.skip(2), session, state.items)
            }
        }),
{
    let status = crate::session::music::queue_status(session.playback, state.items);
    lines_tell_what_comes(session, state.items);
    assert(shortened(state.updated_by) =~= crate::text::short_peer_text(state.updated_by));
    let sent = session.hear(source, WireMessageModel::QueueState { state: state }, fresh, at);
    let answered = session.hear(
        source,
        WireMessageModel::QueueResponse { target: target, state: state },
        fresh,
        at,
    );
    prefixes_are_joined(shortened(state.updated_by));
    if session.queue.superseded_by(state) {
        assert(sent.effects.skip(2) =~= status);
        if target == session.local {
            assert(answered.effects.skip(2) =~= status);
        }
    }
}

proof fn prefixes_are_joined(by: Seq<char>)
    ensures
        "queue updated"@ + " by "@ + by == "queue updated by "@ + by,
        "synced queue"@ + " by "@ + by == "synced queue by "@ + by,
{
    reveal_strlit("queue updated");
    reveal_strlit("synced queue");
    reveal_strlit(" by ");
    reveal_strlit("queue updated by ");
    reveal_strlit("synced queue by ");
    assert("queue updated"@ + " by "@ =~= "queue updated by "@);
    assert("synced queue"@ + " by "@ =~= "synced queue by "@);
}

} // verus!
