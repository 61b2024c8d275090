//! Nothing that happens in the network ends a session: every failure that can follow from it is
//! dealt with.
use crate::address::prioritized;
use crate::effect::{
    EffectModel, FailureModel, NetworkEventModel, OutcomeModel, PeerAddressModel,
    RegistrationModel, TaskModel, WorldModel,
};
use crate::model::{ChatRecordModel, WireMessageModel};
use crate::session::engine::{handles_failure, kind_of, TaskKind};
use crate::session::links::{followed, is_relayed};
use crate::session::startup::{all_dialling, all_listening, all_reserving};
use crate::session::{SessionModel, Step};
use vstd::prelude::*;

verus! {

/// An effect that can fail.
pub open spec fn can_fail(effect: EffectModel) -> bool {
    match effect {
        EffectModel::Publish(_) => true,
        EffectModel::PublishChat(_) => true,
        EffectModel::Respond { .. } => true,
        EffectModel::Subscribe => true,
        EffectModel::Listen(_) => true,
        EffectModel::DialAddress(_) => true,
        EffectModel::Dial { .. } => true,
        EffectModel::Register(_) => true,
        EffectModel::ResolveTrack { .. } => true,
        EffectModel::FetchAudio(_) => true,
        EffectModel::Player(command) => !(command is Stop),
        EffectModel::Shutdown(_) => true,
        _ => false,
    }
}

/// One of some effects can fail.
pub open spec fn may_fail(effects: Seq<EffectModel>) -> bool {
    exists|i: int| 0 <= i < effects.len() && can_fail(#[trigger] effects[i])
}

/// Nothing among some effects ends the session.
pub open spec fn goes_on(effects: Seq<EffectModel>) -> bool {
    forall|i: int| 0 <= i < effects.len() ==> !((#[trigger] effects[i]) is Shutdown)
}

/// A task that can lead to a failure which it does not deal with itself.
pub open spec fn is_risky(task: TaskModel) -> bool {
    match task {
        TaskModel::Perform(effects) => may_fail(effects),
        TaskModel::Report { .. } => false,
        TaskModel::ChatSent { .. } => false,
        TaskModel::ShowPlayback => false,
        TaskModel::Adopt { .. } => false,
        TaskModel::PublishReady { .. } => false,
        TaskModel::Promote { .. } => false,
        TaskModel::Dialed { .. } => false,
        TaskModel::FollowRegistration { .. } => false,
        TaskModel::RegisterNode { .. } => false,
        TaskModel::CloseRelays { .. } => false,
        TaskModel::RelaysClosed { .. } => false,
        TaskModel::EarlyClosed { .. } => false,
        TaskModel::CountPeers => false,
        TaskModel::ScheduleBurst => false,
        TaskModel::HistoryRequested { .. } => false,
        TaskModel::QueueRequested { .. } => false,
        _ => true,
    }
}

/// One of some tasks deals with failures.
pub open spec fn has_shelter(tasks: Seq<TaskModel>) -> bool {
    exists|i: int| 0 <= i < tasks.len() && handles_failure(#[trigger] tasks[i])
}

/// A later task deals with failures.
pub open spec fn shelter_behind(tasks: Seq<TaskModel>, i: int) -> bool {
    exists|j: int| i < j < tasks.len() && handles_failure(#[trigger] tasks[j])
}

/// Behind every risky task stands one that deals with failures.
pub open spec fn is_covered(tasks: Seq<TaskModel>) -> bool {
    forall|i: int|
        0 <= i < tasks.len() && is_risky(#[trigger] tasks[i]) ==> shelter_behind(tasks, i)
}

/// No task asks for the end of the session.
pub open spec fn asks_for_no_end(tasks: Seq<TaskModel>) -> bool {
    forall|i: int|
        0 <= i < tasks.len() && (#[trigger] tasks[i]) is Perform ==> goes_on(tasks[i]->Perform_0)
}

/// Behind every risky task stands one that deals with failures, and no task asks for the end of
/// the session.
pub open spec fn is_safe(tasks: Seq<TaskModel>) -> bool {
    is_covered(tasks) && asks_for_no_end(tasks)
}

/// Whatever comes of the effects is dealt with, now and later.
pub open spec fn is_sheltered(step: Step) -> bool {
    &&& is_safe(step.after.agenda)
    &&& may_fail(step.effects) ==> has_shelter(step.after.agenda)
    &&& goes_on(step.effects)
}

/// Tasks that are put before others stay safe if they are safe themselves, or if one of the
/// others deals with failures.
proof fn safe_together(a: Seq<TaskModel>, b: Seq<TaskModel>)
    requires
        is_safe(b),
        asks_for_no_end(a),
        has_shelter(b) || is_covered(a),
    ensures
        is_safe(a + b),
        has_shelter(b) ==> has_shelter(a + b),
        has_shelter(a) ==> has_shelter(a + b),
{
    let all = a + b;
    if has_shelter(b) {
        let k = choose|k: int| 0 <= k < b.len() && handles_failure(#[trigger] b[k]);
        assert(handles_failure(all[a.len() + k]));
    }
    if has_shelter(a) {
        let k = choose|k: int| 0 <= k < a.len() && handles_failure(#[trigger] a[k]);
        assert(handles_failure(all[k]));
    }
    assert forall|i: int| 0 <= i < all.len() && is_risky(#[trigger] all[i]) implies shelter_behind(
        all,
        i,
    ) by {
        if i < a.len() {
            assert(all[i] == a[i]);
            if has_shelter(b) {
                let k = choose|k: int| 0 <= k < b.len() && handles_failure(#[trigger] b[k]);
                assert(handles_failure(all[a.len() + k]));
            } else {
                let k = choose|k: int| i < k < a.len() && handles_failure(#[trigger] a[k]);
                assert(handles_failure(all[k]));
            }
        } else {
            assert(all[i] == b[i - a.len()]);
            let k = choose|k: int| i - a.len() < k < b.len() && handles_failure(#[trigger] b[k]);
            assert(handles_failure(all[a.len() + k]));
        }
    }
    assert forall|i: int| 0 <= i < all.len() && (#[trigger] all[i]) is Perform implies goes_on(
        all[i]->Perform_0,
    ) by {
        if i < a.len() {
            assert(all[i] == a[i]);
        } else {
            assert(all[i] == b[i - a.len()]);
        }
    }
}

/// What is left behind the first task is safe, and deals with failures if the first is risky.
proof fn safe_rest(tasks: Seq<TaskModel>)
    requires
        is_safe(tasks),
        tasks.len() > 0,
    ensures
        is_safe(tasks.skip(1)),
        is_risky(tasks[0]) ==> has_shelter(tasks.skip(1)),
        has_shelter(tasks) && !handles_failure(tasks[0]) ==> has_shelter(tasks.skip(1)),
{
    let rest = tasks.skip(1);
    assert forall|i: int| 0 <= i < rest.len() && is_risky(
        #[trigger] rest[i],
    ) implies shelter_behind(rest, i) by {
        assert(rest[i] == tasks[i + 1]);
        let k = choose|k: int| i + 1 < k < tasks.len() && handles_failure(#[trigger] tasks[k]);
        assert(handles_failure(rest[k - 1]));
    }
    if is_risky(tasks[0]) {
        let k = choose|k: int| 0 < k < tasks.len() && handles_failure(#[trigger] tasks[k]);
        assert(handles_failure(rest[k - 1]));
    }
    if has_shelter(tasks) && !handles_failure(tasks[0]) {
        let k = choose|k: int| 0 <= k < tasks.len() && handles_failure(#[trigger] tasks[k]);
        assert(handles_failure(rest[k - 1]));
    }
}

/// A session whose agenda deals with failures may put any tasks before it and ask for anything
/// but the end.
proof fn risk_is_covered(before: SessionModel, tasks: Seq<TaskModel>, step: Step)
    requires
        is_safe(before.agenda),
        has_shelter(before.agenda),
        step.after.agenda == tasks + before.agenda,
        goes_on(step.effects),
        asks_for_no_end(tasks),
    ensures
        is_sheltered(step),
{
    safe_together(tasks, before.agenda);
}

proof fn recovering_is_sheltered(
    session: SessionModel,
    task: TaskModel,
    failure: FailureModel,
    at: WorldModel,
)
    requires
        is_safe(session.agenda),
        is_risky(task) ==> has_shelter(session.agenda),
    ensures
        is_sheltered(session.recover(task, failure, at)),
{
    let step = session.recover(task, failure, at);
    match task {
        TaskModel::OwnFetched { .. } => {
            risk_is_covered(session, seq![TaskModel::Raise(failure)], step);
        },
        TaskModel::OwnLoaded => {
            assert(Seq::<TaskModel>::empty() + session.agenda =~= session.agenda);
            risk_is_covered(session, Seq::empty(), step);
        },
        _ => {},
    }
}

proof fn failing_is_sheltered(session: SessionModel, failure: FailureModel, at: WorldModel)
    requires
        is_safe(session.agenda),
        has_shelter(session.agenda),
    ensures
        is_sheltered(session.fail(failure, at)),
    decreases session.agenda.len(),
{
    safe_rest(session.agenda);
    if handles_failure(session.agenda[0]) {
        recovering_is_sheltered(session.popped(), session.agenda[0], failure, at);
    } else {
        failing_is_sheltered(session.popped(), failure, at);
    }
}

/// The tasks with which a peer opens its doors are safe.
proof fn doors_are_safe(listen: Seq<Seq<u8>>, relay: Seq<Seq<u8>>, peer: Seq<Seq<u8>>)
    ensures
        is_safe(all_listening(listen)),
        is_safe(all_reserving(relay)),
        is_safe(all_dialling(peer)),
    decreases listen.len() + relay.len() + peer.len(),
{
    if listen.len() > 0 {
        doors_are_safe(listen.drop_last(), relay, peer);
        let last = crate::session::startup::listening(listen.last());
        assert(handles_failure(last[1]));
        assert(shelter_behind(last, 0));
        safe_together(all_listening(listen.drop_last()), last);
    } else if relay.len() > 0 {
        doors_are_safe(listen, relay.drop_last(), peer);
        let last = crate::session::startup::reserving(relay.last());
        let n = last.len() - 1;
        assert(handles_failure(last[n]));
        assert forall|i: int| 0 <= i < last.len() && is_risky(
            #[trigger] last[i],
        ) implies shelter_behind(last, i) by {
            assert(i < n);
        }
        safe_together(all_reserving(relay.drop_last()), last);
    } else if peer.len() > 0 {
        doors_are_safe(listen, relay, peer.drop_last());
        let last = crate::session::startup::dialling(peer.last());
        assert(handles_failure(last[1]));
        assert(shelter_behind(last, 0));
        safe_together(all_dialling(peer.drop_last()), last);
    }
}

/// Some tasks stand before those that there were.
pub open spec fn extends(after: Seq<TaskModel>, before: Seq<TaskModel>) -> bool {
    after.len() >= before.len() && after.skip(after.len() - before.len()) == before
}

/// A step that puts tasks before an agenda that deals with failures is sheltered.
proof fn extension_is_sheltered(before: SessionModel, step: Step)
    requires
        is_safe(before.agenda),
        has_shelter(before.agenda),
        extends(step.after.agenda, before.agenda),
        asks_for_no_end(step.after.agenda),
        goes_on(step.effects),
    ensures
        is_sheltered(step),
{
    let n = step.after.agenda.len() - before.agenda.len();
    assert(step.after.agenda =~= step.after.agenda.take(n) + before.agenda);
    assert(asks_for_no_end(step.after.agenda.take(n)));
    risk_is_covered(before, step.after.agenda.take(n), step);
}

proof fn music_extends(
    session: SessionModel,
    task: TaskModel,
    outcome: OutcomeModel,
    fresh: Seq<char>,
    at: WorldModel,
)
    requires
        asks_for_no_end(session.agenda),
    ensures
        extends(session.run_music(task, outcome, fresh, at).after.agenda, session.agenda),
        asks_for_no_end(session.run_music(task, outcome, fresh, at).after.agenda),
        goes_on(session.run_music(task, outcome, fresh, at).effects),
{
    let step = session.run_music(task, outcome, fresh, at);
    let n = step.after.agenda.len() - session.agenda.len();
    assert(step.after.agenda.skip(n) =~= session.agenda);
}

proof fn shared_extends(session: SessionModel, task: TaskModel, at: WorldModel)
    requires
        asks_for_no_end(session.agenda),
    ensures
        extends(session.run_shared(task, at).after.agenda, session.agenda),
        asks_for_no_end(session.run_shared(task, at).after.agenda),
        goes_on(session.run_shared(task, at).effects),
{
    let step = session.run_shared(task, at);
    let n = step.after.agenda.len() - session.agenda.len();
    assert(step.after.agenda.skip(n) =~= session.agenda);
}

proof fn sync_extends(session: SessionModel, task: TaskModel, at: WorldModel)
    requires
        asks_for_no_end(session.agenda),
    ensures
        extends(session.run_sync(task, at).after.agenda, session.agenda),
        asks_for_no_end(session.run_sync(task, at).after.agenda),
        goes_on(session.run_sync(task, at).effects),
{
    let step = session.run_sync(task, at);
    let n = step.after.agenda.len() - session.agenda.len();
    assert(step.after.agenda.skip(n) =~= session.agenda);
}

/// Opening the doors is sheltered.
proof fn opened_doors_are_sheltered(
    session: SessionModel,
    listen: Seq<Seq<u8>>,
    relay: Seq<Seq<u8>>,
    peer: Seq<Seq<u8>>,
)
    requires
        is_safe(session.agenda),
        SessionModel::places(listen) is Ok,
    ensures
        is_sheltered(session.open_doors(SessionModel::places(listen)->Ok_0, relay, peer).stay()),
{
    let places = SessionModel::places(listen)->Ok_0;
    doors_are_safe(places, prioritized(relay), prioritized(peer));
    let doors = all_listening(places) + all_reserving(prioritized(relay)) + all_dialling(
        prioritized(peer),
    );
    safe_together(all_listening(places), all_reserving(prioritized(relay)));
    safe_together(
        all_listening(places) + all_reserving(prioritized(relay)),
        all_dialling(prioritized(peer)),
    );
    safe_together(doors, session.agenda);
}

proof fn plain_is_sheltered(
    session: SessionModel,
    task: TaskModel,
    outcome: OutcomeModel,
    at: WorldModel,
)
    requires
        is_safe(session.agenda),
        is_risky(task) ==> has_shelter(session.agenda),
        task is Perform ==> goes_on(task->Perform_0),
    ensures
        is_sheltered(session.run_plain(task, outcome, at)),
{
    let step = session.run_plain(task, outcome, at);
    match task {
        TaskModel::Raise(failure) => {
            failing_is_sheltered(session, failure, at);
        },
        TaskModel::Open { listen, relay, peer } => match SessionModel::places(listen) {
            Ok(places) => {
                opened_doors_are_sheltered(session, listen, relay, peer);
            },
            Err(reason) => {
                failing_is_sheltered(session, FailureModel { brief: reason, full: reason }, at);
            },
        },
        _ => {},
    }
}

proof fn links_are_sheltered(
    session: SessionModel,
    task: TaskModel,
    outcome: OutcomeModel,
    at: WorldModel,
)
    requires
        is_safe(session.agenda),
    ensures
        is_sheltered(session.run_links(task, outcome, at)),
{
    let step = session.run_links(task, outcome, at);
    let n = step.after.agenda.len() - session.agenda.len();
    let tasks = step.after.agenda.take(n);
    assert(step.after.agenda =~= tasks + session.agenda);
    assert(is_covered(tasks));
    assert(asks_for_no_end(tasks));
    safe_together(tasks, session.agenda);
    if may_fail(step.effects) {
        assert(handles_failure(tasks[0]));
        assert(has_shelter(tasks));
    }
}

proof fn quiet_tasks_are_sheltered(
    session: SessionModel,
    task: TaskModel,
    outcome: OutcomeModel,
    fresh: Seq<char>,
    at: WorldModel,
)
    requires
        is_safe(session.agenda),
        !is_risky(task),
        !(kind_of(task) is Plain),
        !(kind_of(task) is Links),
    ensures
        is_sheltered(session.run(task, outcome, fresh, at)),
{
    let step = session.run(task, outcome, fresh, at);
    let n = step.after.agenda.len() - session.agenda.len();
    let tasks = step.after.agenda.take(n);
    assert(step.after.agenda =~= tasks + session.agenda);
    assert(is_covered(tasks));
    assert(asks_for_no_end(tasks));
    safe_together(tasks, session.agenda);
    if may_fail(step.effects) {
        assert(handles_failure(tasks[0]));
        assert(has_shelter(tasks));
    }
}

/// Whatever is replied, a session whose agenda is safe stays so and does not ask for its own end,
/// provided that something that can fail is asked for only while it is dealt with.
pub proof fn shelter_is_kept(
    session: SessionModel,
    outcome: OutcomeModel,
    fresh: Seq<char>,
    at: WorldModel,
)
    requires
        is_safe(session.agenda),
        outcome is Failed ==> has_shelter(session.agenda),
    ensures
        is_sheltered(session.resume(outcome, fresh, at)),
{
    match outcome {
        OutcomeModel::Failed(failure) => {
            failing_is_sheltered(session, failure, at);
        },
        _ => {
            if session.agenda.len() > 0 {
                let task = session.agenda[0];
                let rest = session.popped();
                safe_rest(session.agenda);
                match kind_of(task) {
                    TaskKind::Plain => {
                        plain_is_sheltered(rest, task, outcome, at);
                    },
                    TaskKind::Links => {
                        links_are_sheltered(rest, task, outcome, at);
                    },
                    _ => {
                        if is_risky(task) {
                            music_extends(rest, task, outcome, fresh, at);
                            shared_extends(rest, task, at);
                            sync_extends(rest, task, at);
                            extension_is_sheltered(rest, rest.run(task, outcome, fresh, at));
                        } else {
                            quiet_tasks_are_sheltered(rest, task, outcome, fresh, at);
                        }
                    },
                }
            }
        },
    }
}

/// A room that is joined: failures to listen, to reserve or to dial do not end the session.
pub proof fn opening_is_sheltered(
    session: SessionModel,
    listen: Seq<Seq<u8>>,
    relay: Seq<Seq<u8>>,
    peer: Seq<Seq<u8>>,
    fresh: Seq<char>,
    at: WorldModel,
)
    requires
        session.is_idle(),
        SessionModel::places(listen) is Ok,
    ensures
        is_sheltered(
            session.deferring(
                seq![TaskModel::Open { listen: listen, relay: relay, peer: peer }],
            ).resume(OutcomeModel::Done, fresh, at),
        ),
{
    let task = TaskModel::Open { listen: listen, relay: relay, peer: peer };
    let waiting = session.deferring(seq![task]);
    assert(waiting.agenda =~= seq![task]);
    assert(waiting.popped() =~= session);
    opened_doors_are_sheltered(session, listen, relay, peer);
}

/// A step whose last task deals with failures, or that leaves nothing to do and asks for nothing
/// that can fail, is sheltered.
proof fn guarded_step_is_sheltered(step: Step)
    requires
        goes_on(step.effects),
        asks_for_no_end(step.after.agenda),
        step.after.agenda.len() == 0 ==> !may_fail(step.effects),
        step.after.agenda.len() > 0 ==> handles_failure(step.after.agenda.last()) && !is_risky(
            step.after.agenda.last(),
        ),
    ensures
        is_sheltered(step),
{
    let tasks = step.after.agenda;
    if tasks.len() > 0 {
        assert(handles_failure(tasks[tasks.len() - 1]));
        assert forall|i: int| 0 <= i < tasks.len() && is_risky(
            #[trigger] tasks[i],
        ) implies shelter_behind(tasks, i) by {
            assert(i < tasks.len() - 1);
        }
    }
}

/// What a step asks for cannot fail, and it leaves nothing to do.
pub open spec fn is_quiet(step: Step) -> bool {
    step.after.agenda.len() == 0 && forall|i: int|
        0 <= i < step.effects.len() ==> !can_fail(#[trigger] step.effects[i])
}

proof fn quiet_step_is_sheltered(step: Step)
    requires
        is_quiet(step),
    ensures
        is_sheltered(step),
{
}

proof fn merging_is_quiet(session: SessionModel, messages: Seq<ChatRecordModel>)
    requires
        session.is_idle(),
    ensures
        session.merging(messages).after.agenda.len() == 0,
        forall|i: int|
            0 <= i < session.merging(messages).effects.len() ==> !can_fail(
                #[trigger] session.merging(messages).effects[i],
            ),
    decreases messages.len(),
{
    if messages.len() > 0 {
        merging_is_quiet(session, messages.drop_last());
    }
}

proof fn talk_is_quiet(
    session: SessionModel,
    source: Seq<char>,
    message: WireMessageModel,
    fresh: Seq<char>,
    at: WorldModel,
)
    requires
        session.is_idle(),
        message is Chat || message is NameClaim || message is HistoryResponse,
    ensures
        is_quiet(session.hear(source, message, fresh, at)),
{
    if let WireMessageModel::HistoryResponse { target, messages } = message {
        merging_is_quiet(session, messages);
    }
}

proof fn summaries_are_sheltered(
    session: SessionModel,
    source: Seq<char>,
    message: WireMessageModel,
    fresh: Seq<char>,
    at: WorldModel,
)
    requires
        session.is_idle(),
        message is HistorySummary || message is HistoryRequest || message is QueueSummary
            || message is QueueRequest,
    ensures
        is_sheltered(session.hear(source, message, fresh, at)),
{
    guarded_step_is_sheltered(session.hear(source, message, fresh, at));
}

proof fn queues_are_quiet(
    session: SessionModel,
    source: Seq<char>,
    message: WireMessageModel,
    fresh: Seq<char>,
    at: WorldModel,
)
    requires
        session.is_idle(),
        message is QueueResponse || message is QueueState,
    ensures
        is_quiet(session.hear(source, message, fresh, at)),
{
}

proof fn playback_is_sheltered(
    session: SessionModel,
    source: Seq<char>,
    message: WireMessageModel,
    fresh: Seq<char>,
    at: WorldModel,
)
    requires
        session.is_idle(),
        message is PlaybackState || message is PlaybackPrepare || message is PlaybackReady
            || message is PlaybackCancel,
    ensures
        is_sheltered(session.hear(source, message, fresh, at)),
{
    guarded_step_is_sheltered(session.hear(source, message, fresh, at));
}

proof fn votes_are_sheltered(
    session: SessionModel,
    source: Seq<char>,
    message: WireMessageModel,
    fresh: Seq<char>,
    at: WorldModel,
)
    requires
        session.is_idle(),
        message is VoteProposal || message is VoteBallot,
    ensures
        is_sheltered(session.hear(source, message, fresh, at)),
{
    guarded_step_is_sheltered(session.hear(source, message, fresh, at));
}

/// A step that asks for nothing that can fail and leaves only tasks without risk is sheltered.
proof fn riskless_step_is_sheltered(step: Step)
    requires
        forall|i: int| 0 <= i < step.effects.len() ==> !can_fail(#[trigger] step.effects[i]),
        forall|i: int|
            0 <= i < step.after.agenda.len() ==> !is_risky(#[trigger] step.after.agenda[i]),
    ensures
        is_sheltered(step),
{
    let tasks = step.after.agenda;
    assert forall|i: int| 0 <= i < tasks.len() && (#[trigger] tasks[i]) is Perform implies goes_on(
        tasks[i]->Perform_0,
    ) by {
        let effects = tasks[i]->Perform_0;
        assert forall|j: int| 0 <= j < effects.len() implies !((#[trigger] effects[j]) is Shutdown) by {
            if effects[j] is Shutdown {
                assert(can_fail(effects[j]));
                assert(may_fail(effects));
            }
        }
    }
}

proof fn following_is_riskless(registrations: Seq<RegistrationModel>, local: Seq<char>)
    ensures
        forall|i: int|
            0 <= i < followed(registrations, local).len() ==> !is_risky(
                #[trigger] followed(registrations, local)[i],
            ),
    decreases registrations.len(),
{
    if registrations.len() > 0 {
        let before = followed(registrations.drop_last(), local);
        let all = followed(registrations, local);
        following_is_riskless(registrations.drop_last(), local);
        assert forall|i: int| 0 <= i < all.len() implies !is_risky(#[trigger] all[i]) by {
            if i < before.len() {
                assert(all[i] == before[i]);
            }
        }
    }
}

proof fn sightings_are_quiet(session: SessionModel, found: Seq<PeerAddressModel>)
    requires
        session.is_idle(),
    ensures
        session.sightings(found).after.agenda.len() == 0,
        forall|i: int|
            0 <= i < session.sightings(found).effects.len() ==> !can_fail(
                #[trigger] session.sightings(found).effects[i],
            ),
    decreases found.len(),
{
    if found.len() > 0 {
        sightings_are_quiet(session, found.drop_last());
    }
}

proof fn lost_sightings_are_quiet(
    session: SessionModel,
    lost: Seq<PeerAddressModel>,
    at: WorldModel,
)
    requires
        session.is_idle(),
    ensures
        is_quiet(session.sightings_lost(lost, at)),
    decreases lost.len(),
{
    if lost.len() > 0 {
        lost_sightings_are_quiet(session, lost.drop_last(), at);
    }
}

proof fn peers_nearby_are_sheltered(session: SessionModel, found: Seq<PeerAddressModel>)
    requires
        session.is_idle(),
    ensures
        is_sheltered(session.peers_nearby(found)),
{
    sightings_are_quiet(session, found);
    guarded_step_is_sheltered(session.peers_nearby(found));
}

proof fn connections_are_sheltered(
    session: SessionModel,
    peer_id: Seq<char>,
    connection: u64,
    relayed: bool,
    remaining: u32,
    at: WorldModel,
)
    requires
        session.is_idle(),
    ensures
        is_sheltered(session.connection_up(peer_id, connection, relayed, at)),
        is_sheltered(session.connection_down(peer_id, connection, relayed, remaining, at)),
{
    let up = session.connection_up(peer_id, connection, relayed, at);
    let welcome = session.welcome(peer_id);
    assert(handles_failure(welcome.last()) && !is_risky(welcome.last()));
    assert(up.after.agenda.last() == welcome.last());
    guarded_step_is_sheltered(up);
    guarded_step_is_sheltered(
        session.connection_down(peer_id, connection, relayed, remaining, at),
    );
}

proof fn subscriptions_are_sheltered(session: SessionModel, peer_id: Seq<char>, topic: Seq<char>)
    requires
        session.is_idle(),
    ensures
        is_sheltered(session.subscribed(peer_id, topic)),
        is_sheltered(session.unsubscribed(peer_id, topic)),
{
    let tasks = session.subscribed(peer_id, topic).after.agenda;
    if topic == session.topic {
        assert(handles_failure(tasks[1]));
        assert(shelter_behind(tasks, 0));
    }
}

proof fn discoveries_are_sheltered(
    session: SessionModel,
    node: Seq<char>,
    registrations: Seq<RegistrationModel>,
)
    requires
        session.is_idle(),
    ensures
        is_sheltered(session.discovered(node, registrations)),
{
    following_is_riskless(registrations, session.local);
    riskless_step_is_sheltered(session.discovered(node, registrations));
}

/// Nothing that happens in the network ends a session that is at rest: what it asks for can fail
/// only while the failure is dealt with, and by [`shelter_is_kept`] that stays so until it is at
/// rest again.
pub proof fn network_events_are_sheltered(
    session: SessionModel,
    event: NetworkEventModel,
    fresh: Seq<char>,
    at: WorldModel,
)
    requires
        session.is_idle(),
    ensures
        is_sheltered(session.network_event(event, fresh, at)),
{
    match event {
        NetworkEventModel::ConnectionEstablished { peer, connection, relayed, remote } => {
            connections_are_sheltered(
                session,
                peer,
                connection,
                relayed || is_relayed(remote),
                0,
                at,
            );
        },
        NetworkEventModel::ConnectionClosed { peer, connection, relayed, remote, remaining } => {
            connections_are_sheltered(
                session,
                peer,
                connection,
                relayed || is_relayed(remote),
                remaining,
                at,
            );
        },
        NetworkEventModel::MdnsDiscovered(found) => {
            peers_nearby_are_sheltered(session, found);
        },
        NetworkEventModel::MdnsExpired(lost) => {
            lost_sightings_are_quiet(session, lost, at);
            quiet_step_is_sheltered(session.sightings_lost(lost, at));
        },
        NetworkEventModel::Discovered { node, registrations } => {
            discoveries_are_sheltered(session, node, registrations);
        },
        NetworkEventModel::Subscribed { peer, topic } => {
            subscriptions_are_sheltered(session, peer, topic);
        },
        NetworkEventModel::Unsubscribed { peer, topic } => {
            subscriptions_are_sheltered(session, peer, topic);
        },
        NetworkEventModel::DirectRequest { peer, topic, message } => {
            direct_messages_are_sheltered(session, peer, topic, message, fresh);
        },
        NetworkEventModel::Message { via, source, message } => {
            let author = match source {
                Some(a) => a,
                None => via,
            };
            messages_are_sheltered(session, author, message, fresh, at);
        },
        _ => {
            other_events_are_sheltered(session, event, fresh, at);
        },
    }
}

proof fn direct_messages_are_sheltered(
    session: SessionModel,
    peer: Seq<char>,
    topic: Seq<char>,
    message: WireMessageModel,
    fresh: Seq<char>,
)
    requires
        session.is_idle(),
    ensures
        is_sheltered(session.answer_direct(peer, topic, message, fresh)),
{
    guarded_step_is_sheltered(session.answer_direct(peer, topic, message, fresh));
}

proof fn messages_are_sheltered(
    session: SessionModel,
    source: Seq<char>,
    message: WireMessageModel,
    fresh: Seq<char>,
    at: WorldModel,
)
    requires
        session.is_idle(),
    ensures
        is_sheltered(session.hear(source, message, fresh, at)),
{
    let step = session.hear(source, message, fresh, at);
    if message is Chat || message is NameClaim || message is HistoryResponse {
        talk_is_quiet(session, source, message, fresh, at);
        quiet_step_is_sheltered(step);
    } else if message is QueueResponse || message is QueueState {
        queues_are_quiet(session, source, message, fresh, at);
        quiet_step_is_sheltered(step);
    } else if message is VoteProposal || message is VoteBallot {
        votes_are_sheltered(session, source, message, fresh, at);
    } else if message is PlaybackState || message is PlaybackPrepare || message is PlaybackReady
        || message is PlaybackCancel {
        playback_is_sheltered(session, source, message, fresh, at);
    } else {
        summaries_are_sheltered(session, source, message, fresh, at);
    }
}

proof fn other_events_are_sheltered(
    session: SessionModel,
    event: NetworkEventModel,
    fresh: Seq<char>,
    at: WorldModel,
)
    requires
        session.is_idle(),
        !(event is ConnectionEstablished),
        !(event is ConnectionClosed),
        !(event is MdnsDiscovered),
        !(event is MdnsExpired),
        !(event is Discovered),
        !(event is Subscribed),
        !(event is Unsubscribed),
        !(event is DirectRequest),
        !(event is Message),
    ensures
        is_sheltered(session.network_event(event, fresh, at)),
{
    riskless_step_is_sheltered(session.network_event(event, fresh, at));
}

} // verus!
