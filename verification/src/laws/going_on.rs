//! How a session goes on, what it makes identifiers from, and what of the network is only told.
use crate::address::address_text;
use crate::effect::{
    DetailModel, EffectModel, FailureModel, NetworkEventModel, OutcomeModel, TaskModel, WorldModel,
};
use crate::laws::ballots::needs_a_vote;
use crate::laws::basics::said;
use crate::model::{NetworkCommandModel, PlaybackStateModel, VoteActionModel, WireMessageModel};
use crate::peer::{
    gives_i64, gives_peer, gives_text, gives_u64, is_message_digest, is_message_id, is_nonce,
    is_queue_item_digest, is_queue_item_id, is_vote_id, peer_named, playback_session_id_text,
};
use crate::session::{SessionModel, Step};
use crate::text::{decimal, numeral, signed_decimal};
use std::collections::hash_map::DefaultHasher;
use vstd::prelude::*;
use vstd::std_specs::hash::DefaultHasherAdditionalSpecFns;

verus! {

/// Once what was asked for is done, the first task is done and taken off the agenda; if there is
/// none, nothing is.
pub proof fn the_first_task_is_next(
    session: SessionModel,
    outcome: OutcomeModel,
    fresh: Seq<char>,
    at: WorldModel,
)
    requires
        !(outcome is Failed),
    ensures
        session.agenda.len() == 0 ==> session.resume(outcome, fresh, at) == (Step {
            after: session,
            effects: Seq::empty(),
        }),
        session.agenda.len() > 0 ==> session.resume(outcome, fresh, at) == (SessionModel {
            agenda: session.agenda.remove(0),
            ..session
        }).run(session.agenda[0], outcome, fresh, at),
{
    if session.agenda.len() > 0 {
        assert(session.agenda.skip(1) =~= session.agenda.remove(0));
    }
}

/// The tasks that go on after a failure.
pub open spec fn deals_with_failure(task: TaskModel) -> bool {
    ||| task is Report
    ||| task is ChatSent
    ||| task is TrackResolved
    ||| task is OwnFetched
    ||| task is OwnLoaded
    ||| task is Dialed
    ||| task is HistoryRequested
    ||| task is QueueRequested
}

proof fn failures_skip_tasks(
    session: SessionModel,
    failure: FailureModel,
    at: WorldModel,
    k: int,
)
    requires
        0 <= k <= session.agenda.len(),
        forall|i: int| 0 <= i < k ==> !deals_with_failure(#[trigger] session.agenda[i]),
        k < session.agenda.len() ==> deals_with_failure(session.agenda[k]),
    ensures
        k < session.agenda.len() ==> session.fail(failure, at) == (SessionModel {
            agenda: session.agenda.skip(k + 1),
            ..session
        }).recover(session.agenda[k], failure, at),
        k == session.agenda.len() ==> session.fail(failure, at) == (Step {
            after: SessionModel { agenda: Seq::empty(), ..session },
            effects: seq![EffectModel::Shutdown(failure)],
        }),
    decreases k,
{
    if session.agenda.len() > 0 {
        let rest = session.popped();
        if k > 0 {
            assert(!deals_with_failure(session.agenda[0]));
            assert forall|i: int| 0 <= i < k - 1 implies !deals_with_failure(
                #[trigger] rest.agenda[i],
            ) by {
                assert(rest.agenda[i] == session.agenda[i + 1]);
            }
            if k < session.agenda.len() {
                assert(rest.agenda[k - 1] == session.agenda[k]);
                assert(rest.agenda.skip(k) =~= session.agenda.skip(k + 1));
            }
            failures_skip_tasks(rest, failure, at, k - 1);
        }
    } else {
        assert(session.agenda =~= Seq::empty());
    }
}

/// A failure takes every task off the agenda up to the first one that goes on all the same, which
/// then does. If there is none, the session is over.
pub proof fn a_failure_reaches_the_first_that_deals_with_it(
    session: SessionModel,
    failure: FailureModel,
    fresh: Seq<char>,
    at: WorldModel,
    k: int,
)
    requires
        0 <= k <= session.agenda.len(),
        forall|i: int| 0 <= i < k ==> !deals_with_failure(#[trigger] session.agenda[i]),
        k < session.agenda.len() ==> deals_with_failure(session.agenda[k]),
    ensures
        ({
            let step = session.resume(OutcomeModel::Failed(failure), fresh, at);
            &&& k < session.agenda.len() ==> step == (SessionModel {
                agenda: session.agenda.skip(k + 1),
                ..session
            }).recover(session.agenda[k], failure, at)
            &&& k == session.agenda.len() ==> step == (Step {
                after: SessionModel { agenda: Seq::empty(), ..session },
                effects: seq![EffectModel::Shutdown(failure)],
            })
        }),
{
    failures_skip_tasks(session, failure, at, k);
}

/// A report tells that all went well, if that is to be told, or what failed, as far as it goes.
/// Effects that were put off are asked for, and a failure that was put off is one.
#[verifier::rlimit(60)]
pub proof fn a_report_tells_what_came_of_it(
    session: SessionModel,
    done: Option<Seq<char>>,
    failed: Option<Seq<char>>,
    detail: DetailModel,
    effects: Seq<EffectModel>,
    failure: FailureModel,
    outcome: OutcomeModel,
    fresh: Seq<char>,
    at: WorldModel,
)
    ensures
        ({
            let report = TaskModel::Report { done: done, failed: failed, detail: detail };
            let well = session.run(report, outcome, fresh, at);
            let badly = session.recover(report, failure, at);
            &&& well.after == session
            &&& done is None ==> well.effects.len() == 0
            &&& done is Some ==> well.effects == seq![said(done->0)]
            &&& badly.after == session
            &&& failed is None ==> badly.effects.len() == 0
            &&& failed is Some && detail is Nothing ==> badly.effects == seq![said(failed->0)]
            &&& failed is Some && detail is Brief ==> badly.effects == seq![
                said(failed->0 + failure.brief),
            ]
            &&& failed is Some && detail is Full ==> badly.effects == seq![
                said(failed->0 + failure.full),
            ]
            &&& session.run(TaskModel::Perform(effects), outcome, fresh, at) == (Step {
                after: session,
                effects: effects,
            })
            &&& session.run(TaskModel::Raise(failure), outcome, fresh, at) == session.resume(
                OutcomeModel::Failed(failure),
                fresh,
                at,
            )
        }),
{
}

/// The digest of a chat message is made from a peer, a time, a number and a text; that of an item
/// from a peer, a time and a track; any other from a peer, a time and a number. A fresh hasher is
/// given them in this order.
pub proof fn digests_are_made_in_order(
    digest: u64,
    peer: Seq<char>,
    time: i64,
    number: u64,
    text: Seq<char>,
    a: Seq<Seq<u8>>,
    b: Seq<Seq<u8>>,
    c: Seq<Seq<u8>>,
    d: Seq<Seq<u8>>,
)
    requires
        gives_peer(Seq::empty(), peer, a),
        gives_i64(a, time, b),
    ensures
        gives_u64(b, number, c) ==> is_nonce(DefaultHasher::spec_finish(c), peer, time, number),
        gives_text(b, text, c) ==> is_queue_item_digest(
            DefaultHasher::spec_finish(c),
            peer,
            time,
            text,
        ),
        gives_u64(b, number, c) && gives_text(c, text, d) ==> is_message_digest(
            DefaultHasher::spec_finish(d),
            peer,
            time,
            number,
            text,
        ),
        is_nonce(digest, peer, time, number) ==> exists|x: Seq<Seq<u8>>, y: Seq<Seq<u8>>, z: Seq<
            Seq<u8>,
        >|
            {
                &&& #[trigger] gives_peer(Seq::empty(), peer, x)
                &&& #[trigger] gives_i64(x, time, y)
                &&& #[trigger] gives_u64(y, number, z)
                &&& digest == DefaultHasher::spec_finish(z)
            },
        is_queue_item_digest(digest, peer, time, text) ==> exists|
            x: Seq<Seq<u8>>,
            y: Seq<Seq<u8>>,
            z: Seq<Seq<u8>>,
        |
            {
                &&& #[trigger] gives_peer(Seq::empty(), peer, x)
                &&& #[trigger] gives_i64(x, time, y)
                &&& #[trigger] gives_text(y, text, z)
                &&& digest == DefaultHasher::spec_finish(z)
            },
        is_message_digest(digest, peer, time, number, text) ==> exists|
            x: Seq<Seq<u8>>,
            y: Seq<Seq<u8>>,
            z: Seq<Seq<u8>>,
            w: Seq<Seq<u8>>,
        |
            {
                &&& #[trigger] gives_peer(Seq::empty(), peer, x)
                &&& #[trigger] gives_i64(x, time, y)
                &&& #[trigger] gives_u64(y, number, z)
                &&& #[trigger] gives_text(z, text, w)
                &&& digest == DefaultHasher::spec_finish(w)
            },
{
}

/// An identifier is made from a peer and a time in digits, and a digest in hexadecimal.
pub open spec fn made_from(
    id: Seq<char>,
    mark: Seq<char>,
    peer: Seq<char>,
    time: i64,
    digest: u64,
) -> bool {
    id == mark + (peer + "-"@ + signed_decimal(time as int) + "-"@ + numeral(digest as nat, 16))
}

/// The number after a number, which is zero after the last.
pub open spec fn counted_on(number: u64) -> int {
    if number == u64::MAX {
        0
    } else {
        number + 1
    }
}

/// What the user writes is identified by this peer, the time, its number and its text. What the
/// user proposes is identified by this peer, the time and a number that is then counted on.
/// Nothing else that the user asks for is.
#[verifier::rlimit(60)]
pub proof fn commands_are_identified(
    session: SessionModel,
    command: NetworkCommandModel,
    text: Seq<char>,
    fresh: Seq<char>,
    at: WorldModel,
)
    requires
        session.message_seq < u64::MAX,
    ensures
        ({
            let proposes = needs_a_vote(session, command) is Some && session.vote is None;
            let numbered = session.numbering(command);
            &&& !proposes ==> numbered == session
            &&& proposes ==> numbered == (SessionModel {
                nonce_seq: numbered.nonce_seq,
                ..session
            }) && numbered.nonce_seq == counted_on(session.nonce_seq)
            &&& proposes && session.fresh_on_command(command, fresh, at) ==> exists|digest: u64|
                #[trigger] is_nonce(
                    digest,
                    session.local,
                    at.now.wall_micros,
                    session.nonce_seq,
                ) && made_from(fresh, "v-"@, session.local, at.now.wall_micros, digest)
            &&& !proposes && !(command is Chat) && session.fresh_on_command(command, fresh, at)
                ==> fresh.len() == 0
            &&& session.fresh_on_command(NetworkCommandModel::Chat(text), fresh, at)
                ==> exists|digest: u64, sequence: u64|
                sequence == session.message_seq + 1 && #[trigger] is_message_digest(
                    digest,
                    session.local,
                    at.now.wall_micros,
                    sequence,
                    text,
                ) && made_from(fresh, Seq::empty(), session.local, at.now.wall_micros, digest)
        }),
{
    let proposes = needs_a_vote(session, command) is Some && session.vote is None;
    assert(proposes == session.proposes(command));
    let now = at.now.wall_micros;
    if proposes && session.fresh_on_command(command, fresh, at) {
        assert(is_vote_id(fresh, session.local, now, session.nonce_seq));
        let digest = choose|digest: u64|
            is_nonce(digest, session.local, now, session.nonce_seq) && fresh
                == crate::peer::vote_id_text(session.local, now, digest);
        assert(is_nonce(digest, session.local, now, session.nonce_seq));
    }
    if session.fresh_on_command(NetworkCommandModel::Chat(text), fresh, at) {
        let sequence = (session.message_seq + 1) as u64;
        assert(is_message_id(fresh, session.local, now, sequence, text));
        let digest = choose|digest: u64|
            is_message_digest(digest, session.local, now, sequence, text) && fresh
                == crate::peer::message_id_text(session.local, now, digest);
        assert(is_message_digest(digest, session.local, now, sequence, text));
        assert(made_from(fresh, Seq::empty(), session.local, now, digest)) by {
            let id = crate::peer::message_id_text(session.local, now, digest);
            assert(Seq::<char>::empty() + id =~= id);
        }
    }
}

/// A track that is queued is identified by this peer, the time and the track; a chat message that
/// comes without an identifier by the peer that it comes from, its time and its text; a playback
/// by its leader, the time and the track.
#[verifier::rlimit(60)]
pub proof fn items_and_messages_are_identified(
    session: SessionModel,
    outcome: OutcomeModel,
    message: WireMessageModel,
    peer: Seq<char>,
    topic: Seq<char>,
    source: Option<Seq<char>>,
    time: i64,
    track: Seq<char>,
    fresh: Seq<char>,
    at: WorldModel,
)
    ensures
        ({
            let queued = outcome is Track && session.agenda.len() > 0
                && session.agenda[0] is TrackResolved;
            let unnamed = message is Chat && message->Chat_id is None;
            let direct = NetworkEventModel::DirectRequest {
                peer: peer,
                topic: topic,
                message: message,
            };
            let common = NetworkEventModel::Message {
                via: peer,
                source: source,
                message: message,
            };
            let heard = SessionModel::fresh_on_event(direct, fresh) || SessionModel::fresh_on_event(
                common,
                fresh,
            );
            &&& !queued && session.fresh_on_resume(outcome, fresh, at) ==> fresh.len() == 0
            &&& queued && session.fresh_on_resume(outcome, fresh, at) ==> exists|digest: u64|
                #[trigger] is_queue_item_digest(
                    digest,
                    session.local,
                    at.now.wall_micros,
                    outcome->Track_0.track_id,
                ) && made_from(fresh, "q-"@, session.local, at.now.wall_micros, digest)
            &&& heard && !unnamed ==> fresh.len() == 0
            &&& heard && unnamed ==> exists|digest: u64|
                #[trigger] is_message_digest(
                    digest,
                    peer,
                    message->Chat_sent_at,
                    0,
                    message->Chat_text,
                ) && made_from(fresh, Seq::empty(), peer, message->Chat_sent_at, digest)
            &&& playback_session_id_text(peer, time, track) == peer + ":"@ + signed_decimal(
                time as int,
            ) + ":"@ + track
        }),
{
    let now = at.now.wall_micros;
    if outcome is Track && session.agenda.len() > 0 && session.agenda[0] is TrackResolved
        && session.fresh_on_resume(outcome, fresh, at) {
        let track_id = outcome->Track_0.track_id;
        assert(is_queue_item_id(fresh, session.local, now, track_id));
        let digest = choose|digest: u64|
            is_queue_item_digest(digest, session.local, now, track_id) && fresh
                == crate::peer::queue_item_id_text(session.local, now, digest);
        assert(is_queue_item_digest(digest, session.local, now, track_id));
    }
    if message is Chat && message->Chat_id is None && SessionModel::fresh_for_chat(
        message,
        peer,
        fresh,
    ) {
        let sent_at = message->Chat_sent_at;
        let text = message->Chat_text;
        assert(is_message_id(fresh, peer, sent_at, 0, text));
        let digest = choose|digest: u64|
            is_message_digest(digest, peer, sent_at, 0, text) && fresh
                == crate::peer::message_id_text(peer, sent_at, digest);
        assert(is_message_digest(digest, peer, sent_at, 0, text));
        assert(made_from(fresh, Seq::empty(), peer, sent_at, digest)) by {
            let id = crate::peer::message_id_text(peer, sent_at, digest);
            assert(Seq::<char>::empty() + id =~= id);
        }
    }
}

/// A playback is signed by its leader if that is a peer, and everything else by this peer.
pub proof fn a_playback_is_signed_by_its_leader(session: SessionModel, message: WireMessageModel)
    ensures
        message is PlaybackState && peer_named(message->PlaybackState_state.leader_peer_id) is Some
            ==> Some(session.signer(message)) == peer_named(
            message->PlaybackState_state.leader_peer_id,
        ),
        message is PlaybackPrepare && peer_named(
            message->PlaybackPrepare_state.leader_peer_id,
        ) is Some ==> Some(session.signer(message)) == peer_named(
            message->PlaybackPrepare_state.leader_peer_id,
        ),
        message is PlaybackState && peer_named(message->PlaybackState_state.leader_peer_id) is None
            ==> session.signer(message) == session.local,
        message is PlaybackPrepare && peer_named(
            message->PlaybackPrepare_state.leader_peer_id,
        ) is None ==> session.signer(message) == session.local,
        !(message is PlaybackState) && !(message is PlaybackPrepare) ==> session.signer(message)
            == session.local,
        session.with_digest() == (SessionModel {
            nonce_seq: session.with_digest().nonce_seq,
            ..session
        }),
        session.with_digest().nonce_seq == counted_on(session.nonce_seq),
{
}

/// What of the network is told and nothing else.
pub open spec fn only_told(event: NetworkEventModel) -> Option<Seq<char>> {
    match event {
        NetworkEventModel::NewListenAddr(address) => Some(
            "listening on "@ + address_text(address),
        ),
        NetworkEventModel::ExternalAddrExpired(address) => Some(
            "expired external address "@ + address_text(address),
        ),
        NetworkEventModel::IdentifyFailed { peer, error } => Some(
            "identify failed "@ + peer + ": "@ + error,
        ),
        NetworkEventModel::Registered { node, namespace, ttl } => Some(
            "registered with rendezvous "@ + node + " in "@ + namespace + " for "@ + decimal(
                ttl as nat,
            ) + "s"@,
        ),
        NetworkEventModel::RegisterFailed { node, namespace, error } => Some(
            "rendezvous register failed "@ + node + " in "@ + namespace + ": "@ + error,
        ),
        NetworkEventModel::DiscoverFailed { node, namespace, error } => Some(
            "rendezvous discover failed "@ + node + " in "@ + (if namespace is Some {
                namespace->0
            } else {
                "all namespaces"@
            }) + ": "@ + error,
        ),
        NetworkEventModel::RegistrationExpired { peer } => Some(
            "rendezvous registration expired for "@ + peer,
        ),
        NetworkEventModel::GossipsubNotSupported { peer } => Some(
            "peer "@ + peer + " does not support gossipsub"@,
        ),
        NetworkEventModel::SlowPeer { peer, failed_messages } => Some(
            "gossipsub slow peer "@ + peer + ": "@ + failed_messages,
        ),
        NetworkEventModel::DirectOutboundFailure { peer, error } => Some(
            "direct message failed "@ + peer + ": "@ + error,
        ),
        NetworkEventModel::DirectInboundFailure { peer, error } => Some(
            "direct message inbound failed "@ + peer + ": "@ + error,
        ),
        NetworkEventModel::InvalidMessage { error } => Some("ignored invalid message: "@ + error),
        NetworkEventModel::Relay { event } => Some("relay event: "@ + event),
        _ => None,
    }
}

/// What of the network is only told changes nothing. An answer to a direct message is told if the
/// message was not accepted.
#[verifier::rlimit(60)]
pub proof fn some_news_is_only_told(
    session: SessionModel,
    event: NetworkEventModel,
    peer: Seq<char>,
    fresh: Seq<char>,
    at: WorldModel,
)
    ensures
        only_told(event) is Some ==> session.network_event(event, fresh, at) == (Step {
            after: session,
            effects: seq![said(only_told(event)->0)],
        }),
        session.network_event(
            NetworkEventModel::DirectResponse { peer: peer, accepted: true },
            fresh,
            at,
        ) == (Step { after: session, effects: Seq::empty() }),
        session.network_event(
            NetworkEventModel::DirectResponse { peer: peer, accepted: false },
            fresh,
            at,
        ) == (Step {
            after: session,
            effects: seq![said("direct message ignored by "@ + peer)],
        }),
{
}

/// While the numbers of a session can be counted on, it can do whatever comes: no command, reply or
/// vote is refused for want of numbers.
pub proof fn a_session_with_room_to_count_can_go_on(
    session: SessionModel,
    command: NetworkCommandModel,
    outcome: OutcomeModel,
    action: VoteActionModel,
    at: WorldModel,
)
    requires
        session.message_seq < u64::MAX,
        session.playback_version < u64::MAX,
        session.queue.version < u64::MAX,
    ensures
        session.can_command(command),
        session.can_resume(outcome, at),
        session.can_execute(action),
{
}

/// What the session wants to know next of the time that was played is that of the state that it is
/// about to follow, else of its own. What it wants to know of the player is as of the time at which
/// the player was brought in line if that is what comes next, else as of now.
pub proof fn the_next_task_says_what_is_wanted(
    session: SessionModel,
    state: PlaybackStateModel,
    then: i64,
    played_ms: u64,
    rest: Seq<TaskModel>,
    now: i64,
)
    ensures
        ({
            let follows = SessionModel {
                agenda: seq![TaskModel::ApplyRemote { state: state }] + rest,
                ..session
            };
            let checks = SessionModel {
                agenda: seq![
                    TaskModel::CheckFinished { at_micros: then, played_ms: played_ms },
                ] + rest,
                ..session
            };
            let first = session.agenda[0];
            &&& follows.next_playback() == Some(state)
            &&& follows.player_time(now) == now
            &&& checks.next_playback() == session.playback
            &&& checks.player_time(now) == then
            &&& session.agenda.len() == 0 || !(first is ApplyRemote) ==> session.next_playback()
                == session.playback
            &&& session.agenda.len() == 0 || !(first is CheckFinished) ==> session.player_time(now)
                == now
        }),
{
}

} // verus!
