//! A session comes to rest: whatever is replied to the effects that it asks for, it has less to
//! do after every reply.
use crate::address::prioritized;
use crate::effect::{FailureModel, OutcomeModel, TaskModel, WorldModel};
use crate::laws::peers::prioritizing_keeps_the_addresses;
use crate::session::engine::{handles_failure, kind_of, TaskKind};
use crate::session::startup::{
    all_dialling, all_listening, all_parsed, all_reserving, dialling, listening, reserving,
    usual_places,
};
use crate::session::SessionModel;
use vstd::prelude::*;

verus! {

/// How much a task can lead to.
pub open spec fn weight(task: TaskModel) -> nat {
    match task {
        TaskModel::Perform(_) => 1,
        TaskModel::Report { .. } => 1,
        TaskModel::Raise(_) => 1,
        TaskModel::Open { listen, relay, peer } => (1 + 2 * (if listen.len() == 0 {
            4
        } else {
            listen.len()
        }) + 3 * relay.len() + 2 * peer.len()) as nat,
        TaskModel::ChatSent { .. } => 1,
        TaskModel::TrackResolved { .. } => 8,
        TaskModel::StartNext => 7,
        TaskModel::Supersede { .. } => 6,
        TaskModel::Prepare { .. } => 5,
        TaskModel::FetchOwn { .. } => 4,
        TaskModel::OwnFetched { .. } => 3,
        TaskModel::OwnLoaded => 2,
        TaskModel::MaybeStart => 1,
        TaskModel::StopCurrent { .. } => 2,
        TaskModel::GoIdle { .. } => 1,
        TaskModel::OpenVote { .. } => 12,
        TaskModel::ResolveVote => 11,
        TaskModel::ExecuteVote { .. } => 10,
        TaskModel::SyncPlayer => 12,
        TaskModel::CheckFinished { .. } => 10,
        TaskModel::ShowPlayback => 1,
        TaskModel::ApplyRemote { .. } => 3,
        TaskModel::Adopt { .. } => 2,
        TaskModel::AcceptPrepare { .. } => 5,
        TaskModel::AdoptPrepare { .. } => 4,
        TaskModel::PrepareAudio { .. } => 2,
        TaskModel::LoadPrepared { .. } => 1,
        TaskModel::PublishReady { .. } => 2,
        TaskModel::Promote { .. } => 2,
        TaskModel::Dialed { .. } => 1,
        TaskModel::FollowRegistration { .. } => 3,
        TaskModel::RegisterNode { .. } => 2,
        TaskModel::CloseRelays { .. } => 2,
        TaskModel::RelaysClosed { .. } => 1,
        TaskModel::EarlyClosed { .. } => 1,
        TaskModel::CountPeers => 1,
        TaskModel::TriggerSync => 5,
        TaskModel::ScheduleBurst => 4,
        TaskModel::MusicSnapshot => 1,
        TaskModel::DrainSync { .. } => 1,
        TaskModel::HistoryRequested { .. } => 1,
        TaskModel::QueueRequested { .. } => 1,
    }
}

/// How much some tasks can lead to.
pub open spec fn load(tasks: Seq<TaskModel>) -> nat
    decreases tasks.len(),
{
    if tasks.len() == 0 {
        0
    } else {
        load(tasks.drop_last()) + weight(tasks.last())
    }
}

impl SessionModel {
    /// How much is left to be done at most.
    pub open spec fn unfinished(self) -> nat {
        load(self.agenda) + self.sync.due.len()
    }
}

/// A task more weighs as much more.
pub broadcast proof fn load_push(tasks: Seq<TaskModel>, task: TaskModel)
    ensures
        #[trigger] load(tasks.push(task)) == load(tasks) + weight(task),
{
    assert(tasks.push(task).drop_last() =~= tasks);
}

/// Tasks weigh together what they weigh one by one.
pub broadcast proof fn load_concat(a: Seq<TaskModel>, b: Seq<TaskModel>)
    ensures
        #[trigger] load(a + b) == load(a) + load(b),
    decreases b.len(),
{
    if b.len() == 0 {
        assert(a + b =~= a);
    } else {
        assert((a + b).drop_last() =~= a + b.drop_last());
        load_concat(a, b.drop_last());
    }
}

/// The first task weighs its share.
pub proof fn load_first(tasks: Seq<TaskModel>)
    requires
        tasks.len() > 0,
    ensures
        load(tasks) == weight(tasks[0]) + load(tasks.skip(1)),
{
    assert(tasks =~= seq![tasks[0]] + tasks.skip(1));
    load_concat(seq![tasks[0]], tasks.skip(1));
    load_push(Seq::empty(), tasks[0]);
}

pub broadcast group group_load {
    load_push,
    load_concat,
}

proof fn load_of_two(a: TaskModel, b: TaskModel)
    ensures
        load(seq![a, b]) == weight(a) + weight(b),
{
    assert(seq![a, b] =~= seq![a].push(b));
    load_push(seq![a], b);
    load_push(Seq::empty(), a);
}

proof fn load_of_listening(places: Seq<Seq<u8>>)
    ensures
        load(all_listening(places)) <= 2 * places.len(),
    decreases places.len(),
{
    if places.len() > 0 {
        let last = listening(places.last());
        load_of_listening(places.drop_last());
        load_concat(all_listening(places.drop_last()), last);
        load_of_two(last[0], last[1]);
        assert(last =~= seq![last[0], last[1]]);
    }
}

proof fn load_of_dialling(peers: Seq<Seq<u8>>)
    ensures
        load(all_dialling(peers)) <= 2 * peers.len(),
    decreases peers.len(),
{
    if peers.len() > 0 {
        let last = dialling(peers.last());
        load_of_dialling(peers.drop_last());
        load_concat(all_dialling(peers.drop_last()), last);
        load_of_two(last[0], last[1]);
        assert(last =~= seq![last[0], last[1]]);
    }
}

proof fn load_of_reserving(relays: Seq<Seq<u8>>)
    ensures
        load(all_reserving(relays)) <= 3 * relays.len(),
    decreases relays.len(),
{
    if relays.len() > 0 {
        let last = reserving(relays.last());
        let n = last.len() - 2;
        load_of_reserving(relays.drop_last());
        load_concat(all_reserving(relays.drop_last()), last);
        load_of_two(last[n], last[n + 1]);
        if n == 0 {
            assert(last =~= seq![last[0], last[1]]);
        } else {
            assert(last =~= seq![last[0]] + seq![last[1], last[2]]);
            load_concat(seq![last[0]], seq![last[1], last[2]]);
            load_push(Seq::empty(), last[0]);
        }
    }
}

proof fn parsing_keeps_the_number(texts: Seq<Seq<char>>)
    ensures
        all_parsed(texts) is Ok ==> all_parsed(texts)->Ok_0.len() == texts.len(),
    decreases texts.len(),
{
    if texts.len() > 0 {
        parsing_keeps_the_number(texts.drop_last());
    }
}

proof fn opening_lightens(
    session: SessionModel,
    listen: Seq<Seq<u8>>,
    relay: Seq<Seq<u8>>,
    peer: Seq<Seq<u8>>,
)
    requires
        SessionModel::places(listen) is Ok,
    ensures
        session.open_doors(SessionModel::places(listen)->Ok_0, relay, peer).unfinished()
            < session.unfinished() + weight(
            TaskModel::Open { listen: listen, relay: relay, peer: peer },
        ),
{
    broadcast use group_load;

    let places = SessionModel::places(listen)->Ok_0;
    parsing_keeps_the_number(usual_places());
    prioritizing_keeps_the_addresses(listen);
    prioritizing_keeps_the_addresses(relay);
    prioritizing_keeps_the_addresses(peer);
    load_of_listening(places);
    load_of_reserving(prioritized(relay));
    load_of_dialling(prioritized(peer));
}

proof fn recovering_lightens(
    session: SessionModel,
    task: TaskModel,
    failure: FailureModel,
    at: WorldModel,
)
    ensures
        session.recover(task, failure, at).after.unfinished() < session.unfinished() + weight(task),
{
    broadcast use group_load;

    reveal_with_fuel(load, 4);
}

proof fn failing_lightens(session: SessionModel, failure: FailureModel, at: WorldModel)
    ensures
        session.fail(failure, at).after.unfinished() <= session.unfinished(),
        session.agenda.len() > 0 ==> session.fail(failure, at).after.unfinished()
            < session.unfinished(),
    decreases session.agenda.len(),
{
    if session.agenda.len() > 0 {
        load_first(session.agenda);
        if handles_failure(session.agenda[0]) {
            recovering_lightens(session.popped(), session.agenda[0], failure, at);
        } else {
            failing_lightens(session.popped(), failure, at);
        }
    }
}

proof fn plain_lightens(
    session: SessionModel,
    task: TaskModel,
    outcome: OutcomeModel,
    at: WorldModel,
)
    ensures
        session.run_plain(task, outcome, at).after.unfinished() < session.unfinished() + weight(
            task,
        ),
{
    match task {
        TaskModel::Raise(failure) => {
            failing_lightens(session, failure, at);
        },
        TaskModel::Open { listen, relay, peer } => match SessionModel::places(listen) {
            Ok(_) => {
                opening_lightens(session, listen, relay, peer);
            },
            Err(reason) => {
                failing_lightens(session, FailureModel { brief: reason, full: reason }, at);
            },
        },
        _ => {},
    }
}

proof fn music_lightens(
    session: SessionModel,
    task: TaskModel,
    outcome: OutcomeModel,
    fresh: Seq<char>,
    at: WorldModel,
)
    ensures
        session.run_music(task, outcome, fresh, at).after.unfinished() < session.unfinished()
            + weight(task),
{
    broadcast use group_load;

    reveal_with_fuel(load, 4);
}

proof fn shared_lightens(session: SessionModel, task: TaskModel, at: WorldModel)
    ensures
        session.run_shared(task, at).after.unfinished() < session.unfinished() + weight(task),
{
    broadcast use group_load;

    reveal_with_fuel(load, 4);
}

proof fn links_lighten(
    session: SessionModel,
    task: TaskModel,
    outcome: OutcomeModel,
    at: WorldModel,
)
    ensures
        session.run_links(task, outcome, at).after.unfinished() < session.unfinished() + weight(
            task,
        ),
{
    broadcast use group_load;

    reveal_with_fuel(load, 4);
}

proof fn sync_lightens(session: SessionModel, task: TaskModel, at: WorldModel)
    ensures
        session.run_sync(task, at).after.unfinished() < session.unfinished() + weight(task),
{
    broadcast use group_load;

    reveal_with_fuel(load, 4);
}

/// Every reply leaves a session that is not at rest with less to do. So it comes to rest,
/// whatever the replies are.
pub proof fn a_session_comes_to_rest(
    session: SessionModel,
    outcome: OutcomeModel,
    fresh: Seq<char>,
    at: WorldModel,
)
    requires
        !session.is_idle(),
    ensures
        session.resume(outcome, fresh, at).after.unfinished() < session.unfinished(),
{
    load_first(session.agenda);
    let task = session.agenda[0];
    let rest = session.popped();
    match outcome {
        OutcomeModel::Failed(failure) => {
            failing_lightens(session, failure, at);
        },
        _ => match kind_of(task) {
            TaskKind::Plain => {
                plain_lightens(rest, task, outcome, at);
            },
            TaskKind::Music => {
                music_lightens(rest, task, outcome, fresh, at);
            },
            TaskKind::Shared => {
                shared_lightens(rest, task, at);
            },
            TaskKind::Links => {
                links_lighten(rest, task, outcome, at);
            },
            TaskKind::Sync => {
                sync_lightens(rest, task, at);
            },
        },
    }
}

} // verus!
