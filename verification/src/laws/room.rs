//! What the peers of a room can rely on.
use crate::collections::{first_is_place, holds, is_first, place_of, store};
use crate::effect::{EffectModel, TaskModel, WorldModel};
use crate::history::MAX_MESSAGES;
use crate::laws::history::{
    a_message_counts_once, agree, are_newest_of, has_id, history_is_kept_in_order,
    merging_leaves_the_newest, only_the_oldest_are_dropped, place_divides, placed,
    placing_keeps_order, sum_contains, the_newest_are_told, with_records,
};
use crate::model::{ChatRecordModel, PeerNameClaimModel, WireMessageModel};
use crate::playback::replaces;
use crate::queue::newer;
use crate::routes::PeerConnectionRoutesModel;
use crate::session::chat::takes_direct;
use crate::session::{threshold, SessionModel};
use crate::vote::{executes, stale_reason};
use vstd::prelude::*;

verus! {

/// Storing the same under the same key twice is the same as once.
proof fn storing_twice<V>(entries: Seq<(Seq<char>, V)>, key: Seq<char>, value: V)
    ensures
        store(store(entries, key, value), key, value) == store(entries, key, value),
{
    let once = store(entries, key, value);
    if holds(entries, key) {
        let p = place_of(entries, key);
        assert(is_first(entries, key, p));
        assert(is_first(once, key, p));
        first_is_place(once, key, p);
        assert(once.update(p, (key, value)) =~= once);
    } else {
        let p = entries.len() as int;
        assert forall|j: int| 0 <= j < p implies once[j].0 != key by {
            if entries[j].0 == key {
                crate::collections::entry_is_held(entries, key, j);
            }
        }
        assert(is_first(once, key, p));
        first_is_place(once, key, p);
        assert(once.update(p, (key, value)) =~= once);
    }
}

/// A chat message that comes again changes nothing, and is not shown again if it is kept.
pub proof fn a_chat_message_is_taken_once(
    session: SessionModel,
    id: Seq<char>,
    peer_id: Seq<char>,
    joined_at: Option<i64>,
    name: Seq<char>,
    text: Seq<char>,
    sent_at: i64,
    source: Seq<char>,
    fresh: Seq<char>,
)
    requires
        session.history.wf(),
    ensures
        ({
            let once = session.hear_chat(
                Some(id),
                peer_id,
                joined_at,
                name,
                text,
                sent_at,
                source,
                fresh,
            ).after;
            let twice = once.hear_chat(
                Some(id),
                peer_id,
                joined_at,
                name,
                text,
                sent_at,
                source,
                fresh,
            );
            &&& twice.after == once
            &&& once.history.seen.contains(id) ==> twice.effects.len() == 0
        }),
{
    let claimed = SessionModel::claimed_peer(peer_id, source);
    let claim = PeerNameClaimModel { name: name, joined_at: joined_at };
    let record = ChatRecordModel {
        id: id,
        peer_id: claimed,
        joined_at: joined_at,
        author: name,
        text: text,
        sent_at: sent_at,
    };
    storing_twice(session.names.claims, claimed, claim);
    a_message_counts_once(session.history, record);
}

/// What the user writes is in the history at once, unless it is full of later messages, and is
/// sent to the room; nothing of it is if the name belongs to an earlier peer.
pub proof fn what_is_written_is_kept_and_sent(
    session: SessionModel,
    text: Seq<char>,
    id: Seq<char>,
    at: WorldModel,
)
    requires
        session.history.wf(),
    ensures
        ({
            let step = session.write_chat(text, id, at);
            let record = session.own_record(text, id, at.now.wall_micros);
            if session.names.blocked() {
                &&& step.after.history == session.history
                &&& step.after.agenda == session.agenda
                &&& forall|i: int|
                    0 <= i < step.effects.len() ==> (#[trigger] step.effects[i]) is Ui
            } else {
                &&& has_id(step.after.history.records, id) || (session.history.records.len()
                    == MAX_MESSAGES && forall|i: int|
                    0 <= i < session.history.records.len()
                        ==> crate::history::record_before(
                        record,
                        #[trigger] session.history.records[i],
                    ))
                &&& step.effects.last() is PublishChat
            }
        }),
{
    only_the_oldest_are_dropped(
        session.history,
        session.own_record(text, id, at.now.wall_micros),
    );
}

/// If nobody follows the room, a message is sent to every connected peer that is no rendezvous
/// node, and to no one else.
pub proof fn the_fallback_reaches_connected_peers(session: SessionModel, peer_id: Seq<char>)
    ensures
        session.direct_targets().contains(peer_id) <==> exists|i: int|
            0 <= i < session.peers.routes.len() && (#[trigger] session.peers.routes[i]).0 == peer_id
                && takes_direct(session.peers.routes[i], session),
{
    broadcast use vstd::seq_lib::group_filter_ensures;

    let routes = session.peers.routes;
    let takes = |entry: (Seq<char>, PeerConnectionRoutesModel)| takes_direct(entry, session);
    let kept = routes.filter(takes);
    let targets = session.direct_targets();
    if targets.contains(peer_id) {
        let i = choose|i: int| 0 <= i < targets.len() && targets[i] == peer_id;
        assert(kept[i].0 == peer_id);
        assert(takes(kept[i]));
        assert(kept.contains(kept[i]));
        routes.lemma_filter_contains_rev(takes, kept[i]);
        assert(routes.contains(kept[i]));
        let j = choose|j: int| 0 <= j < routes.len() && routes[j] == kept[i];
        assert(routes[j].0 == peer_id);
    }
    if exists|i: int|
        0 <= i < routes.len() && (#[trigger] routes[i]).0 == peer_id && takes_direct(
            routes[i],
            session,
        ) {
        let i = choose|i: int|
            0 <= i < routes.len() && (#[trigger] routes[i]).0 == peer_id && takes_direct(
                routes[i],
                session,
            );
        assert(takes(routes[i]));
        assert(kept.contains(routes[i]));
        let j = choose|j: int| 0 <= j < kept.len() && kept[j] == routes[i];
        assert(targets[j] == peer_id);
    }
}

/// Going through the messages of a peer adds each of them, as long as they all fit.
proof fn merging_adds_all(session: SessionModel, messages: Seq<ChatRecordModel>)
    requires
        session.history.wf(),
        session.history.records.len() + messages.len() <= MAX_MESSAGES,
    ensures
        session.merging(messages).after.history.wf(),
        session.merging(messages).after.history.records.len() <= session.history.records.len()
            + messages.len(),
        forall|id: Seq<char>|
            #[trigger] session.merging(messages).after.history.seen.contains(id)
                <==> session.history.seen.contains(id) || has_id(messages, id),
    decreases messages.len(),
{
    let after = session.merging(messages).after.history;
    if messages.len() > 0 {
        let others = messages.drop_last();
        let record = messages.last();
        let before = session.merging(others).after.history;
        merging_adds_all(session, others);
        history_is_kept_in_order(before, record);
        assert(after == before.with_record(record));
        if !before.seen.contains(record.id) {
            placing_keeps_order(before.records, record);
            place_divides(before.records, record);
            assert(after.records =~= placed(before.records, record));
        }
        assert forall|id: Seq<char>| #[trigger] after.seen.contains(id)
            <==> session.history.seen.contains(id) || has_id(messages, id) by {
            assert(after.seen.contains(id) <==> before.seen.contains(id) || id == record.id);
            if has_id(others, id) {
                let i = choose|i: int| 0 <= i < others.len() && (#[trigger] others[i]).id == id;
                assert(messages[i].id == id);
            }
            if has_id(messages, id) && id != record.id {
                let i = choose|i: int|
                    0 <= i < messages.len() && (#[trigger] messages[i]).id == id;
                assert(others[i].id == id);
            }
            if id == record.id {
                assert(messages[messages.len() - 1].id == id);
            }
        }
    }
}

/// What a peer makes of the messages of another comes to taking them in one after the other.
proof fn merging_is_taking_in(session: SessionModel, messages: Seq<ChatRecordModel>)
    ensures
        session.merging(messages).after.history == with_records(session.history, messages),
    decreases messages.len(),
{
    if messages.len() > 0 {
        merging_is_taking_in(session, messages.drop_last());
    }
}

/// A peer that answers with its history brings the other up to date: afterwards that peer has
/// the newest messages of both, as many as are kept, if an identifier stands for one message.
/// Once both have answered, both have the same history.
pub proof fn histories_are_exchanged(one: SessionModel, other: SessionModel)
    requires
        one.history.wf(),
        other.history.wf(),
        agree(one.history.records, other.history.records),
    ensures
        ({
            let after = one.hear_history_response(None, other.history.records).after.history;
            let answered = other.hear_history_response(None, one.history.records).after.history;
            &&& after.wf()
            &&& are_newest_of(after.records, one.history.records + other.history.records)
            &&& after.records == answered.records
        }),
{
    let a = one.history.records;
    let b = other.history.records;
    merging_is_taking_in(one, b);
    merging_is_taking_in(other, a);
    merging_leaves_the_newest(one.history, b);
    merging_leaves_the_newest(other.history, a);
    assert forall|r: ChatRecordModel|
        #![trigger (a + b).contains(r)]
        #![trigger (b + a).contains(r)]
        (a + b).contains(r) <==> (b + a).contains(r) by {
        sum_contains(a, b, r);
        sum_contains(b, a, r);
    }
    the_newest_are_told(
        with_records(one.history, b).records,
        with_records(other.history, a).records,
        a + b,
        b + a,
    );
}

/// Whatever the messages of a peer are, all of them are taken in as long as they fit: afterwards
/// the messages of both are known and no others.
pub proof fn a_history_that_fits_is_taken_in(asking: SessionModel, answering: SessionModel)
    requires
        asking.history.wf(),
        answering.history.wf(),
        asking.history.records.len() + answering.history.records.len() <= MAX_MESSAGES,
    ensures
        ({
            let after = asking.hear_history_response(
                None,
                answering.history.records,
            ).after.history;
            &&& after.wf()
            &&& forall|id: Seq<char>|
                #[trigger] after.seen.contains(id) <==> asking.history.seen.contains(id)
                    || answering.history.seen.contains(id)
        }),
{
    merging_adds_all(asking, answering.history.records);
    let after = asking.hear_history_response(None, answering.history.records).after.history;
    assert forall|id: Seq<char>| #[trigger] after.seen.contains(id)
        <==> asking.history.seen.contains(id) || answering.history.seen.contains(id) by {
        assert(answering.history.seen.contains(id) <==> has_id(answering.history.records, id));
    }
}

/// A peer that has less history asks the one that has more, and that one answers with all it has.
pub proof fn a_peer_behind_is_answered(
    behind: SessionModel,
    ahead: SessionModel,
    at: WorldModel,
)
    requires
        behind.local != ahead.local,
        behind.history.records.len() < ahead.history.records.len(),
        behind.history.wf(),
        ahead.history.wf(),
        crate::sync::may_ask(
            behind.sync.history_requests,
            ahead.local,
            crate::time::HISTORY_REQUEST_COOLDOWN,
            at.now.mono_nanos,
        ),
    ensures
        ({
            let asked = behind.hear_history_summary(
                ahead.local,
                ahead.history.records.len() as usize,
                at,
            );
            let request = WireMessageModel::HistoryRequest {
                requester: behind.local,
                target: ahead.local,
                known_count: behind.history.records.len() as usize,
            };
            let answered = ahead.hear_history_request(
                behind.local,
                ahead.local,
                behind.history.records.len() as usize,
            );
            &&& asked.effects == seq![EffectModel::Publish(request)]
            &&& answered.effects == seq![
                EffectModel::Publish(
                    WireMessageModel::HistoryResponse {
                        target: None,
                        messages: ahead.history.records,
                    },
                ),
            ]
        }),
{
}

/// A peer whose queue is older asks the one whose queue is newer, and takes over the answer; then
/// both have the same queue.
pub proof fn queues_are_exchanged(behind: SessionModel, ahead: SessionModel, at: WorldModel)
    requires
        behind.local != ahead.local,
        newer(
            ahead.queue.version,
            ahead.queue.updated_at,
            behind.queue.version,
            behind.queue.updated_at,
        ),
        crate::sync::may_ask(
            behind.sync.queue_requests,
            ahead.local,
            crate::time::QUEUE_REQUEST_COOLDOWN,
            at.now.mono_nanos,
        ),
    ensures
        ({
            let asked = behind.hear_queue_summary(
                ahead.local,
                ahead.queue.version,
                ahead.queue.updated_at,
                at,
            );
            let answered = ahead.hear_queue_request(
                behind.local,
                ahead.local,
                behind.queue.version,
                behind.queue.updated_at,
            );
            let response = WireMessageModel::QueueResponse {
                target: behind.local,
                state: ahead.queue.state(ahead.local),
            };
            &&& asked.effects == seq![
                EffectModel::Publish(
                    WireMessageModel::QueueRequest {
                        requester: behind.local,
                        target: ahead.local,
                        known_version: behind.queue.version,
                        known_updated_at_micros: behind.queue.updated_at,
                    },
                ),
            ]
            &&& answered.effects == seq![EffectModel::Publish(response)]
            &&& behind.hear(ahead.local, response, Seq::empty(), at).after.queue == ahead.queue
        }),
{
}

/// A peer that was asked is left alone for a while.
pub proof fn a_peer_is_not_asked_twice(
    session: SessionModel,
    peer_id: Seq<char>,
    count: usize,
    at: WorldModel,
    then: WorldModel,
)
    requires
        at.now.mono_nanos <= then.now.mono_nanos < at.now.mono_nanos
            + crate::time::HISTORY_REQUEST_COOLDOWN,
    ensures
        session.history_requested(peer_id, at).after.hear_history_summary(
            peer_id,
            count,
            then,
        ).effects.len() == 0,
{
    crate::collections::lookup_of_store(
        session.sync.history_requests,
        peer_id,
        at.now.mono_nanos,
        peer_id,
    );
}

/// What the user does with the playback is news to every peer that has what was played, as long
/// as the clock has gone on since that was issued.
pub proof fn control_is_news(
    session: SessionModel,
    playing: bool,
    position_ms: u64,
    at: WorldModel,
)
    requires
        session.playback is Some,
        session.playback->0.issued_at_micros < at.now.wall_micros,
    ensures
        replaces(session.playback, session.set_playing(playing, at).playback->0),
        replaces(session.playback, session.sought(position_ms, at).playback->0),
        session.set_playing(playing, at).playback->0.leader_peer_id == session.local,
        session.set_playing(playing, at).playback->0.track == session.playback->0.track,
{
}

/// Holding the playback and letting it go on at the same moment leaves it where it was.
pub proof fn hold_and_go_on(session: SessionModel, at: WorldModel)
    requires
        session.playback is Some,
    ensures
        session.set_playing(false, at).set_playing(true, at).current_position(at)
            == session.current_position(at),
{
}

/// A vote is carried out only by a peer whose turn it is, with enough approvals, and only if what
/// it is about has not changed since; otherwise nothing but the vote changes.
pub proof fn only_passed_votes_are_carried_out(session: SessionModel, at: WorldModel)
    ensures
        ({
            let step = session.resolve_vote(at);
            &&& step.after.agenda != session.agenda ==> {
                &&& session.vote is Some
                &&& session.vote->0.approvals.len() >= threshold(at)
                &&& stale_reason(
                    session.vote->0.proposal,
                    session.queue.version,
                    session.playback,
                ) is None
                &&& executes(session.vote->0.proposal, session.playback, session.local)
                &&& step.after.agenda == seq![
                    TaskModel::ExecuteVote { action: session.vote->0.proposal.action },
                ] + session.agenda
            }
            &&& step.after == (SessionModel {
                vote: step.after.vote,
                agenda: step.after.agenda,
                ..session
            })
            &&& step.after.vote == session.vote || step.after.vote is None
        }),
{
}

/// A playback that waits starts only once every peer that was asked is ready or the wait is over,
/// and then it does.
pub proof fn playback_waits_for_the_peers(session: SessionModel, at: WorldModel)
    requires
        session.pending is Some,
    ensures
        session.maybe_start(at).after.pending is None <==> session.pending->0.ready()
            || at.now.mono_nanos >= session.pending->0.deadline,
        session.maybe_start(at).after.pending is None ==> {
            &&& session.maybe_start(at).after.playback is Some
            &&& session.maybe_start(at).after.playback->0.playing
            &&& session.maybe_start(at).after.playback->0.session_id
                == session.pending->0.state.session_id
        },
        session.maybe_start(at).after.pending is Some ==> session.maybe_start(at).after == session,
{
}

} // verus!
