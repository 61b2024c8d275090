//! What every step of a session keeps.
use crate::address::prioritized;
use crate::collections::{
    discard, distinct_keys, distinct_keys_kept, holds, is_first, place_of, set_laws, store,
    with_item, without_item,
};
use crate::effect::{
    FailureModel, NetworkEventModel, OutcomeModel, PeerAddressModel, TaskModel, Tick, WorldModel,
};
use crate::laws::history::history_is_kept_in_order;
use crate::laws::music::readiness_is_kept;
use crate::laws::votes::{a_vote_begins_with_its_proposer, the_last_ballot_counts};
use crate::model::{
    ChatRecordModel, NetworkCommandModel, PeerNameClaimModel, VoteActionModel, WireMessageModel,
};
use crate::names::{conflicts_among, LocalIdentity, NameRegistryModel};
use crate::routes::{
    with_items, DirectPromotionBackoffModel, GossipsubWarmupModel, PeerBookModel,
    PeerConnectionRoutesModel,
};
use crate::session::engine::{handles_failure, kind_of, TaskKind};
use crate::session::startup::nodes_among;
use crate::session::{SessionModel, Step};
use vstd::prelude::*;

verus! {

impl NameRegistryModel {
    /// Each peer claims one name, the local peer is not among them, and the conflicts are those
    /// that follow from the claims.
    pub open spec fn wf(self, local: LocalIdentity) -> bool {
        &&& distinct_keys(self.claims)
        &&& !holds(self.claims, local.peer_id)
        &&& self.conflicts == conflicts_among(self.claims, local)
    }
}

impl PeerBookModel {
    /// Each peer has one entry, no set holds anything twice, and peers without connections or
    /// addresses are forgotten.
    pub open spec fn wf(self) -> bool {
        &&& distinct_keys(self.routes)
        &&& distinct_keys(self.addresses)
        &&& distinct_keys(self.backoffs)
        &&& distinct_keys(self.warmups)
        &&& self.explicit.no_duplicates()
        &&& self.subscribers.no_duplicates()
        &&& self.rendezvous.no_duplicates()
        &&& forall|i: int| 0 <= i < self.routes.len() ==> (#[trigger] self.routes[i]).1.linked()
        &&& forall|i: int|
            0 <= i < self.addresses.len() ==> (#[trigger] self.addresses[i]).1.len() > 0
    }
}

/// A vote that waits to be opened is in order.
pub open spec fn task_wf(task: TaskModel) -> bool {
    match task {
        TaskModel::OpenVote { vote } => vote.wf(),
        _ => true,
    }
}

/// The votes that wait to be opened are in order.
pub open spec fn tasks_wf(tasks: Seq<TaskModel>) -> bool {
    forall|i: int| 0 <= i < tasks.len() ==> task_wf(#[trigger] tasks[i])
}

impl SessionModel {
    /// The history, the names, the book of peers, what waits to be played and the vote are in
    /// order.
    pub open spec fn inv(self) -> bool {
        &&& self.history.wf()
        &&& self.names.wf(self.identity())
        &&& self.peers.wf()
        &&& self.pending matches Some(pending) ==> pending.wf()
        &&& self.vote matches Some(vote) ==> vote.wf()
        &&& tasks_wf(self.agenda)
    }

    /// Two sessions are of the same peer in the same room.
    pub open spec fn same_peer(self, other: SessionModel) -> bool {
        &&& self.local == other.local
        &&& self.name == other.name
        &&& self.joined_at == other.joined_at
        &&& self.topic == other.topic
    }

    /// A step keeps the session in order and leaves it the same peer in the same room.
    pub open spec fn kept_by(self, step: Step) -> bool {
        step.after.inv() && step.after.same_peer(self)
    }
}

/// Storing keeps what holds of every value.
proof fn store_keeps<V>(
    entries: Seq<(Seq<char>, V)>,
    key: Seq<char>,
    value: V,
    good: spec_fn(V) -> bool,
)
    requires
        forall|i: int| 0 <= i < entries.len() ==> good((#[trigger] entries[i]).1),
        good(value),
    ensures
        forall|i: int|
            0 <= i < store(entries, key, value).len() ==> good(
                (#[trigger] store(entries, key, value)[i]).1,
            ),
{
    let after = store(entries, key, value);
    assert forall|i: int| 0 <= i < after.len() implies good((#[trigger] after[i]).1) by {
        if holds(entries, key) {
            assert(is_first(entries, key, place_of(entries, key)));
            if i != place_of(entries, key) {
                assert(after[i] == entries[i]);
            }
        } else if i < entries.len() {
            assert(after[i] == entries[i]);
        }
    }
}

/// Discarding keeps what holds of every value.
proof fn discard_keeps<V>(entries: Seq<(Seq<char>, V)>, key: Seq<char>, good: spec_fn(V) -> bool)
    requires
        forall|i: int| 0 <= i < entries.len() ==> good((#[trigger] entries[i]).1),
    ensures
        forall|i: int|
            0 <= i < discard(entries, key).len() ==> good(
                (#[trigger] discard(entries, key)[i]).1,
            ),
{
    let after = discard(entries, key);
    assert forall|i: int| 0 <= i < after.len() implies good((#[trigger] after[i]).1) by {
        if holds(entries, key) {
            let p = place_of(entries, key);
            assert(is_first(entries, key, p));
            if i < p {
                assert(after[i] == entries[i]);
            } else {
                assert(after[i] == entries[i + 1]);
            }
        }
    }
}

/// Connections that come and go keep the book in order.
proof fn links_keep_the_book(
    book: PeerBookModel,
    peer_id: Seq<char>,
    connection: u64,
    relayed: bool,
)
    requires
        book.wf(),
    ensures
        book.with_link(peer_id, connection, relayed).wf(),
        book.without_link(peer_id, connection, relayed).wf(),
{
    let linked = |routes: PeerConnectionRoutesModel| routes.linked();
    let more = book.routes_to(peer_id).with_link(connection, relayed);
    let less = book.routes_to(peer_id).without_link(connection, relayed);
    assert(more.linked()) by {
        if relayed {
            let links = book.routes_to(peer_id).relayed;
            if links.contains(connection) {
                assert(links.len() > 0);
            }
        } else {
            let links = book.routes_to(peer_id).direct;
            if links.contains(connection) {
                assert(links.len() > 0);
            }
        }
    }
    distinct_keys_kept(book.routes, peer_id, more);
    distinct_keys_kept(book.routes, peer_id, less);
    store_keeps(book.routes, peer_id, more, linked);
    if less.linked() {
        store_keeps(book.routes, peer_id, less, linked);
    }
    discard_keeps(book.routes, peer_id, linked);
}

/// Adding items does not empty a set.
proof fn with_items_fills<T>(items: Seq<T>, more: Seq<T>)
    requires
        more.len() > 0,
    ensures
        with_items(items, more).len() > 0,
{
    let before = with_items(items, more.drop_last());
    if before.contains(more.last()) {
        assert(before.len() > 0);
    }
}

/// Addresses that come and go keep the book in order.
proof fn addresses_keep_the_book(
    book: PeerBookModel,
    peer_id: Seq<char>,
    heard: Seq<Seq<u8>>,
    gone: Seq<u8>,
)
    requires
        book.wf(),
    ensures
        book.with_addresses(peer_id, heard).wf(),
        book.without_address(peer_id, gone).wf(),
{
    let filled = |addresses: Seq<Seq<u8>>| addresses.len() > 0;
    let forms = crate::routes::direct_forms(peer_id, heard);
    let known = book.known_addresses(peer_id);
    if forms.len() > 0 {
        with_items_fills(known, forms);
        distinct_keys_kept(book.addresses, peer_id, with_items(known, forms));
        store_keeps(book.addresses, peer_id, with_items(known, forms), filled);
    }
    if let Some(form) = crate::address::direct_peer_address(peer_id, gone) {
        let left = without_item(known, form);
        distinct_keys_kept(book.addresses, peer_id, left);
        discard_keeps(book.addresses, peer_id, filled);
        if left.len() > 0 {
            store_keeps(book.addresses, peer_id, left, filled);
        }
    }
}

/// Waits and attempts keep the book in order.
proof fn attempts_keep_the_book(book: PeerBookModel, peer_id: Seq<char>, now: u64)
    requires
        book.wf(),
    ensures
        book.with_chance(peer_id).wf(),
        book.with_warmup(peer_id, now).wf(),
        book.warmup_check(peer_id, now).after.wf(),
        book.backoff_check(peer_id, now).after.wf(),
        book.with_failure(peer_id, now).wf(),
{
    let fresh = GossipsubWarmupModel { started_at: now };
    let backoff = book.backoff_of(peer_id);
    distinct_keys_kept(book.warmups, peer_id, fresh);
    distinct_keys_kept(book.backoffs, peer_id, backoff);
    distinct_keys_kept(book.backoffs, peer_id, backoff.attempted(now));
    distinct_keys_kept(
        book.backoffs,
        peer_id,
        DirectPromotionBackoffModel { suspended_reported: true, ..backoff },
    );
    distinct_keys_kept(book.backoffs, peer_id, book.backoff_after_failure(peer_id, now));
}

proof fn promotion_keeps_the_book(book: PeerBookModel, peer_id: Seq<char>, now: u64)
    requires
        book.wf(),
    ensures
        book.promotion(peer_id, now).after.wf(),
{
    attempts_keep_the_book(book, peer_id, now);
    attempts_keep_the_book(book.warmup_check(peer_id, now).after, peer_id, now);
}

/// Peers that come and go keep the book in order.
proof fn sets_keep_the_book(book: PeerBookModel, peer_id: Seq<char>)
    requires
        book.wf(),
    ensures
        book.without_peer(peer_id).wf(),
        book.with_subscriber(peer_id).wf(),
        (PeerBookModel { explicit: with_item(book.explicit, peer_id), ..book }).wf(),
        (PeerBookModel { explicit: without_item(book.explicit, peer_id), ..book }).wf(),
        !book.explicit.contains(peer_id) ==> (PeerBookModel {
            explicit: book.explicit.push(peer_id),
            ..book
        }).wf(),
        (PeerBookModel { subscribers: without_item(book.subscribers, peer_id), ..book }).wf(),
{
    set_laws(book.explicit, peer_id, peer_id);
    set_laws(book.subscribers, peer_id, peer_id);
    distinct_keys_kept(book.backoffs, peer_id, book.backoff_of(peer_id));
    distinct_keys_kept(book.warmups, peer_id, GossipsubWarmupModel { started_at: 0 });
}

proof fn nodes_keep_the_book(book: PeerBookModel, relays: Seq<Seq<u8>>)
    requires
        book.wf(),
    ensures
        (PeerBookModel { rendezvous: nodes_among(book.rendezvous, relays), ..book }).wf(),
    decreases relays.len(),
{
    if relays.len() > 0 {
        nodes_keep_the_book(book, relays.drop_last());
        let before = nodes_among(book.rendezvous, relays.drop_last());
        if let Some(node) = crate::session::startup::peer_at(relays.last()) {
            set_laws(before, node, node);
        }
    }
}

/// Claims that are made and dropped keep the names in order.
proof fn claims_keep_the_names(
    names: NameRegistryModel,
    peer_id: Seq<char>,
    claim: PeerNameClaimModel,
    local: LocalIdentity,
)
    requires
        names.wf(local),
    ensures
        names.remember(peer_id, claim, local).wf(local),
        names.forget(peer_id, local).wf(local),
{
    distinct_keys_kept(names.claims, peer_id, claim);
    crate::collections::lookup_of_store(names.claims, peer_id, claim, local.peer_id);
    crate::collections::lookup_of_discard(names.claims, peer_id, local.peer_id);
}

/// Collecting peers into a set leaves no one twice.
proof fn collecting_is_distinct(peers: Seq<Seq<char>>)
    ensures
        with_items(Seq::<Seq<char>>::empty(), peers).no_duplicates(),
    decreases peers.len(),
{
    if peers.len() > 0 {
        collecting_is_distinct(peers.drop_last());
        set_laws(
            with_items(Seq::<Seq<char>>::empty(), peers.drop_last()),
            peers.last(),
            peers.last(),
        );
    }
}

proof fn naming_keeps(
    session: SessionModel,
    peer_id: Seq<char>,
    name: Seq<char>,
    joined_at: Option<i64>,
)
    requires
        session.inv(),
    ensures
        session.kept_by(session.naming(peer_id, name, joined_at)),
        session.kept_by(session.hear_name_claim(peer_id, name, joined_at)),
        session.naming(peer_id, name, joined_at).after.history == session.history,
        session.hear_name_claim(peer_id, name, joined_at).after.history == session.history,
{
    let claim = PeerNameClaimModel { name: name, joined_at: joined_at };
    claims_keep_the_names(session.names, peer_id, claim, session.identity());
    if let Some(peer) = crate::peer::peer_named(peer_id) {
        claims_keep_the_names(session.names, peer, claim, session.identity());
    }
}

proof fn chat_keeps(
    session: SessionModel,
    id: Option<Seq<char>>,
    peer_id: Seq<char>,
    joined_at: Option<i64>,
    name: Seq<char>,
    text: Seq<char>,
    sent_at: i64,
    source: Seq<char>,
    fresh: Seq<char>,
)
    requires
        session.inv(),
    ensures
        session.kept_by(
            session.hear_chat(id, peer_id, joined_at, name, text, sent_at, source, fresh),
        ),
{
    let claimed = SessionModel::claimed_peer(peer_id, source);
    let record = ChatRecordModel {
        id: crate::session::chat::id_or(id, fresh),
        peer_id: claimed,
        joined_at: joined_at,
        author: name,
        text: text,
        sent_at: sent_at,
    };
    naming_keeps(session, claimed, name, joined_at);
    history_is_kept_in_order(session.history, record);
}

proof fn merging_keeps(session: SessionModel, messages: Seq<ChatRecordModel>)
    requires
        session.inv(),
    ensures
        session.merging(messages).after.inv(),
        session.merging(messages).after.same_peer(session),
    decreases messages.len(),
{
    if messages.len() > 0 {
        merging_keeps(session, messages.drop_last());
        let before = session.merging(messages.drop_last()).after;
        let record = messages.last();
        naming_keeps(before, record.peer_id, record.author, record.joined_at);
        history_is_kept_in_order(before.history, record);
    }
}

proof fn music_keeps(
    session: SessionModel,
    task: TaskModel,
    outcome: OutcomeModel,
    fresh: Seq<char>,
    at: WorldModel,
)
    requires
        session.inv(),
    ensures
        session.kept_by(session.run_music(task, outcome, fresh, at)),
{
    if let Some(pending) = session.pending {
        readiness_is_kept(pending, session.local);
    }
    collecting_is_distinct(at.connected);
    set_laws(
        with_items(Seq::<Seq<char>>::empty(), at.connected),
        session.local,
        session.local,
    );
}

proof fn shared_keeps(session: SessionModel, task: TaskModel, at: WorldModel)
    requires
        session.inv(),
        task_wf(task),
    ensures
        session.kept_by(session.run_shared(task, at)),
{
}

proof fn follow_keeps(
    session: SessionModel,
    peer_id: Seq<char>,
    addresses: Seq<Seq<u8>>,
    at: WorldModel,
)
    requires
        session.inv(),
    ensures
        session.kept_by(session.follow_registration(peer_id, addresses, at)),
{
    sets_keep_the_book(session.peers, peer_id);
    let book = PeerBookModel {
        explicit: with_item(session.peers.explicit, peer_id),
        ..session.peers
    };
    addresses_keep_the_book(book, peer_id, addresses, Seq::empty());
    attempts_keep_the_book(
        book.with_addresses(peer_id, addresses),
        peer_id,
        at.now.mono_nanos,
    );
}

proof fn links_keep(
    session: SessionModel,
    task: TaskModel,
    outcome: OutcomeModel,
    at: WorldModel,
)
    requires
        session.inv(),
    ensures
        session.kept_by(session.run_links(task, outcome, at)),
{
    match task {
        TaskModel::Promote { peer } => {
            promotion_keeps_the_book(session.peers, peer, at.now.mono_nanos);
        },
        TaskModel::FollowRegistration { peer, addresses } => {
            follow_keeps(session, peer, addresses, at);
        },
        _ => {},
    }
}

proof fn sync_keeps(session: SessionModel, task: TaskModel, at: WorldModel)
    requires
        session.inv(),
    ensures
        session.kept_by(session.run_sync(task, at)),
{
}

proof fn recovering_keeps(
    session: SessionModel,
    task: TaskModel,
    failure: FailureModel,
    at: WorldModel,
)
    requires
        session.inv(),
    ensures
        session.kept_by(session.recover(task, failure, at)),
{
    if let TaskModel::Dialed { peer, .. } = task {
        attempts_keep_the_book(session.peers, peer, at.now.mono_nanos);
    }
}

proof fn failing_keeps(session: SessionModel, failure: FailureModel, at: WorldModel)
    requires
        session.inv(),
    ensures
        session.kept_by(session.fail(failure, at)),
    decreases session.agenda.len(),
{
    if session.agenda.len() > 0 {
        assert(session.popped().inv());
        if handles_failure(session.agenda[0]) {
            recovering_keeps(session.popped(), session.agenda[0], failure, at);
        } else {
            failing_keeps(session.popped(), failure, at);
        }
    }
}

proof fn plain_keeps(
    session: SessionModel,
    task: TaskModel,
    outcome: OutcomeModel,
    at: WorldModel,
)
    requires
        session.inv(),
    ensures
        session.kept_by(session.run_plain(task, outcome, at)),
{
    match task {
        TaskModel::Raise(failure) => {
            failing_keeps(session, failure, at);
        },
        TaskModel::Open { listen, relay, peer } => match SessionModel::places(listen) {
            Ok(places) => {
                nodes_keep_the_book(session.peers, prioritized(relay));
                doors_hold_no_vote(places, prioritized(relay), prioritized(peer));
            },
            Err(reason) => {
                failing_keeps(session, FailureModel { brief: reason, full: reason }, at);
            },
        },
        _ => {},
    }
}

proof fn doors_hold_no_vote(listen: Seq<Seq<u8>>, relay: Seq<Seq<u8>>, peer: Seq<Seq<u8>>)
    ensures
        tasks_wf(crate::session::startup::all_listening(listen)),
        tasks_wf(crate::session::startup::all_reserving(relay)),
        tasks_wf(crate::session::startup::all_dialling(peer)),
    decreases listen.len() + relay.len() + peer.len(),
{
    if listen.len() > 0 {
        doors_hold_no_vote(listen.drop_last(), relay, peer);
    } else if relay.len() > 0 {
        doors_hold_no_vote(listen, relay.drop_last(), peer);
    } else if peer.len() > 0 {
        doors_hold_no_vote(listen, relay, peer.drop_last());
    }
}

/// A session that has just been started is in order.
pub proof fn a_session_starts_in_order(
    local: Seq<char>,
    name: Seq<char>,
    topic: Seq<char>,
    joined_at: i64,
    listen: Seq<Seq<u8>>,
    relay: Seq<Seq<u8>>,
    peer: Seq<Seq<u8>>,
    audio_error: Option<Seq<char>>,
)
    ensures
        SessionModel::joined(local, name, topic, joined_at).inv(),
        SessionModel::joined(local, name, topic, joined_at).kept_by(
            SessionModel::joined(local, name, topic, joined_at).start(
                listen,
                relay,
                peer,
                audio_error,
            ),
        ),
{
    let session = SessionModel::joined(local, name, topic, joined_at);
    reveal(Seq::filter);
    assert(session.names.conflicts =~= conflicts_among(session.names.claims, session.identity()));
}

/// Every reply keeps a session in order, and leaves it the same peer in the same room.
pub proof fn replies_keep_order(
    session: SessionModel,
    outcome: OutcomeModel,
    fresh: Seq<char>,
    at: WorldModel,
)
    requires
        session.inv(),
    ensures
        session.kept_by(session.resume(outcome, fresh, at)),
{
    match outcome {
        OutcomeModel::Failed(failure) => {
            failing_keeps(session, failure, at);
        },
        _ => {
            if session.agenda.len() > 0 {
                let task = session.agenda[0];
                let rest = session.popped();
                assert(rest.inv());
                match kind_of(task) {
                    TaskKind::Plain => {
                        plain_keeps(rest, task, outcome, at);
                    },
                    TaskKind::Music => {
                        music_keeps(rest, task, outcome, fresh, at);
                    },
                    TaskKind::Shared => {
                        shared_keeps(rest, task, at);
                    },
                    TaskKind::Links => {
                        links_keep(rest, task, outcome, at);
                    },
                    TaskKind::Sync => {
                        sync_keeps(rest, task, at);
                    },
                }
            }
        },
    }
}

proof fn proposing_keeps(
    session: SessionModel,
    action: VoteActionModel,
    vote_id: Seq<char>,
    at: WorldModel,
)
    requires
        session.inv(),
    ensures
        session.kept_by(session.propose(action, vote_id, at)),
{
    a_vote_begins_with_its_proposer(
        session.proposal(action, vote_id, at),
        (at.now.mono_nanos + crate::time::VOTE_TIMEOUT) as u64,
    );
}

/// Every command keeps a session in order, and leaves it the same peer in the same room.
pub proof fn commands_keep_order(
    session: SessionModel,
    command: NetworkCommandModel,
    fresh: Seq<char>,
    at: WorldModel,
)
    requires
        session.inv(),
    ensures
        session.kept_by(session.command(command, fresh, at)),
{
    match command {
        NetworkCommandModel::Chat(text) => {
            history_is_kept_in_order(
                session.history,
                session.own_record(text, fresh, at.now.wall_micros),
            );
        },
        NetworkCommandModel::Pause => {
            proposing_keeps(session, VoteActionModel::Pause, fresh, at);
        },
        NetworkCommandModel::Resume => {
            proposing_keeps(session, VoteActionModel::Resume, fresh, at);
        },
        NetworkCommandModel::Seek(position_ms) => {
            proposing_keeps(session, VoteActionModel::Seek { position_ms: position_ms }, fresh, at);
        },
        NetworkCommandModel::Skip => {
            proposing_keeps(session, VoteActionModel::Skip, fresh, at);
        },
        NetworkCommandModel::RemoveQueueItem(index) => {
            proposing_keeps(
                session,
                VoteActionModel::Remove { item_id: session.queue.items[index - 1].item_id },
                fresh,
                at,
            );
        },
        NetworkCommandModel::MoveQueueItem { from, to } => {
            proposing_keeps(
                session,
                VoteActionModel::Move {
                    item_id: session.queue.items[from - 1].item_id,
                    to_index: crate::session::command::from_zero(to),
                },
                fresh,
                at,
            );
        },
        NetworkCommandModel::Vote(approve) => {
            if let Some(vote) = session.vote {
                the_last_ballot_counts(vote, session.local, approve, session.local);
            }
        },
        _ => {},
    }
}

/// Every tick of a clock keeps a session in order, and leaves it the same peer in the same room.
pub proof fn ticks_keep_order(session: SessionModel, tick: Tick, at: WorldModel)
    requires
        session.inv(),
    ensures
        session.kept_by(session.tick(tick, at)),
{
}

proof fn ballots_keep(
    session: SessionModel,
    source: Seq<char>,
    message: WireMessageModel,
    fresh: Seq<char>,
    at: WorldModel,
)
    requires
        session.inv(),
        message is VoteProposal || message is VoteBallot,
    ensures
        session.kept_by(session.hear(source, message, fresh, at)),
{
    match message {
        WireMessageModel::VoteProposal { proposal } => {
            a_vote_begins_with_its_proposer(
                proposal,
                (at.now.mono_nanos + crate::time::VOTE_TIMEOUT) as u64,
            );
        },
        WireMessageModel::VoteBallot { vote_id, peer_id, approve } => {
            if let Some(vote) = session.vote {
                the_last_ballot_counts(vote, peer_id, approve, peer_id);
            }
        },
        _ => {},
    }
}

proof fn playback_keeps(
    session: SessionModel,
    source: Seq<char>,
    message: WireMessageModel,
    fresh: Seq<char>,
    at: WorldModel,
)
    requires
        session.inv(),
        message is PlaybackState || message is PlaybackPrepare || message is PlaybackReady
            || message is PlaybackCancel,
    ensures
        session.kept_by(session.hear(source, message, fresh, at)),
{
    if let WireMessageModel::PlaybackReady { peer_id, .. } = message {
        if let Some(pending) = session.pending {
            readiness_is_kept(pending, peer_id);
        }
    }
}

proof fn news_keep(
    session: SessionModel,
    source: Seq<char>,
    message: WireMessageModel,
    fresh: Seq<char>,
    at: WorldModel,
)
    requires
        session.inv(),
        message is HistorySummary || message is HistoryRequest || message is QueueSummary
            || message is QueueRequest || message is QueueResponse || message is QueueState,
    ensures
        session.kept_by(session.hear(source, message, fresh, at)),
{
}

/// Every message keeps a session in order, and leaves it the same peer in the same room.
pub proof fn messages_keep_order(
    session: SessionModel,
    source: Seq<char>,
    message: WireMessageModel,
    fresh: Seq<char>,
    at: WorldModel,
)
    requires
        session.inv(),
    ensures
        session.kept_by(session.hear(source, message, fresh, at)),
{
    match message {
        WireMessageModel::Chat { id, peer_id, joined_at, name, text, sent_at } => {
            chat_keeps(session, id, peer_id, joined_at, name, text, sent_at, source, fresh);
        },
        WireMessageModel::NameClaim { peer_id, name, joined_at } => {
            naming_keeps(session, peer_id, name, joined_at);
        },
        WireMessageModel::HistoryResponse { messages, .. } => {
            merging_keeps(session, messages);
        },
        _ => {
            if message is VoteProposal || message is VoteBallot {
                ballots_keep(session, source, message, fresh, at);
            } else if message is PlaybackState || message is PlaybackPrepare || message
                is PlaybackReady || message is PlaybackCancel {
                playback_keeps(session, source, message, fresh, at);
            } else {
                news_keep(session, source, message, fresh, at);
            }
        },
    }
}

proof fn direct_messages_keep(
    session: SessionModel,
    peer: Seq<char>,
    topic: Seq<char>,
    message: WireMessageModel,
    fresh: Seq<char>,
)
    requires
        session.inv(),
    ensures
        session.kept_by(session.answer_direct(peer, topic, message, fresh)),
{
    match message {
        WireMessageModel::Chat { id, peer_id, joined_at, name, text, sent_at } => {
            chat_keeps(session, id, peer_id, joined_at, name, text, sent_at, peer, fresh);
        },
        WireMessageModel::NameClaim { peer_id, name, joined_at } => {
            naming_keeps(session, peer_id, name, joined_at);
        },
        _ => {},
    }
}

proof fn connection_up_keeps(
    session: SessionModel,
    peer_id: Seq<char>,
    connection: u64,
    relayed: bool,
    at: WorldModel,
)
    requires
        session.inv(),
    ensures
        session.kept_by(session.connection_up(peer_id, connection, relayed, at)),
{
    links_keep_the_book(session.peers, peer_id, connection, relayed);
    let linked = session.peers.with_link(peer_id, connection, relayed);
    sets_keep_the_book(linked, peer_id);
    let noted = session.with_peers(linked).deferring(session.welcome(peer_id)).tracking(
        peer_id,
    ).after.peers;
    assert(noted.wf());
    attempts_keep_the_book(noted, peer_id, at.now.mono_nanos);
    attempts_keep_the_book(
        noted.warmup_check(peer_id, at.now.mono_nanos).after,
        peer_id,
        at.now.mono_nanos,
    );
    assert(tasks_wf(session.welcome(peer_id)));
}

proof fn connection_down_keeps(
    session: SessionModel,
    peer_id: Seq<char>,
    connection: u64,
    relayed: bool,
    remaining: u32,
    at: WorldModel,
)
    requires
        session.inv(),
    ensures
        session.kept_by(
            session.connection_down(peer_id, connection, relayed, remaining, at),
        ),
{
    links_keep_the_book(session.peers, peer_id, connection, relayed);
    sets_keep_the_book(session.peers.without_link(peer_id, connection, relayed), peer_id);
    claims_keep_the_names(
        session.names,
        peer_id,
        PeerNameClaimModel { name: Seq::empty(), joined_at: None },
        session.identity(),
    );
    if let Some(pending) = session.pending {
        readiness_is_kept(pending, peer_id);
    }
}

proof fn sighting_keeps(session: SessionModel, found: PeerAddressModel)
    requires
        session.inv(),
    ensures
        session.sighted(found).after.inv(),
        session.sighted(found).after.same_peer(session),
{
    sets_keep_the_book(session.peers, found.peer);
    let book = PeerBookModel {
        explicit: with_item(session.peers.explicit, found.peer),
        ..session.peers
    };
    addresses_keep_the_book(book, found.peer, seq![found.address], Seq::empty());
    attempts_keep_the_book(book.with_addresses(found.peer, seq![found.address]), found.peer, 0);
}

proof fn sightings_keep(session: SessionModel, found: Seq<PeerAddressModel>)
    requires
        session.inv(),
    ensures
        session.sightings(found).after.inv(),
        session.sightings(found).after.same_peer(session),
    decreases found.len(),
{
    if found.len() > 0 {
        sightings_keep(session, found.drop_last());
        sighting_keeps(session.sightings(found.drop_last()).after, found.last());
    }
}

proof fn lost_sightings_keep(session: SessionModel, lost: Seq<PeerAddressModel>, at: WorldModel)
    requires
        session.inv(),
    ensures
        session.kept_by(session.sightings_lost(lost, at)),
    decreases lost.len(),
{
    if lost.len() > 0 {
        lost_sightings_keep(session, lost.drop_last(), at);
        let before = session.sightings_lost(lost.drop_last(), at).after;
        let gone = lost.last();
        addresses_keep_the_book(before.peers, gone.peer, Seq::empty(), gone.address);
        sets_keep_the_book(before.peers.without_address(gone.peer, gone.address), gone.peer);
        claims_keep_the_names(
            before.names,
            gone.peer,
            PeerNameClaimModel { name: Seq::empty(), joined_at: None },
            before.identity(),
        );
    }
}

proof fn hearsay_keeps(session: SessionModel, peer_id: Seq<char>, heard: Seq<Seq<u8>>)
    requires
        session.inv(),
    ensures
        session.kept_by(session.hear_addresses(peer_id, heard)),
{
    addresses_keep_the_book(session.peers, peer_id, heard, Seq::empty());
    attempts_keep_the_book(session.peers.with_addresses(peer_id, heard), peer_id, 0);
}

proof fn following_holds_no_vote(
    registrations: Seq<crate::effect::RegistrationModel>,
    local: Seq<char>,
)
    ensures
        tasks_wf(crate::session::links::followed(registrations, local)),
    decreases registrations.len(),
{
    if registrations.len() > 0 {
        following_holds_no_vote(registrations.drop_last(), local);
    }
}

proof fn meetings_keep(
    session: SessionModel,
    event: NetworkEventModel,
    fresh: Seq<char>,
    at: WorldModel,
)
    requires
        session.inv(),
        event is ConnectionEstablished || event is ConnectionClosed || event is MdnsDiscovered
            || event is MdnsExpired,
    ensures
        session.kept_by(session.network_event(event, fresh, at)),
{
    match event {
        NetworkEventModel::ConnectionEstablished { peer, connection, relayed, remote } => {
            let through = relayed || crate::session::links::is_relayed(remote);
            connection_up_keeps(session, peer, connection, through, at);
        },
        NetworkEventModel::ConnectionClosed { peer, connection, relayed, remote, remaining } => {
            let through = relayed || crate::session::links::is_relayed(remote);
            connection_down_keeps(session, peer, connection, through, remaining, at);
        },
        NetworkEventModel::MdnsDiscovered(found) => {
            sightings_keep(session, found);
        },
        NetworkEventModel::MdnsExpired(lost) => {
            lost_sightings_keep(session, lost, at);
        },
        _ => {},
    }
}

proof fn tidings_keep(
    session: SessionModel,
    event: NetworkEventModel,
    fresh: Seq<char>,
    at: WorldModel,
)
    requires
        session.inv(),
        event is NewExternalAddrOfPeer || event is Identified || event is Discovered || event
            is Subscribed || event is Unsubscribed,
    ensures
        session.kept_by(session.network_event(event, fresh, at)),
{
    match event {
        NetworkEventModel::NewExternalAddrOfPeer { peer, address } => {
            hearsay_keeps(session, peer, seq![address]);
        },
        NetworkEventModel::Identified { peer, addresses } => {
            hearsay_keeps(session, peer, addresses);
        },
        NetworkEventModel::Discovered { node, registrations } => {
            following_holds_no_vote(registrations, session.local);
        },
        NetworkEventModel::Subscribed { peer, .. } => {
            sets_keep_the_book(session.peers, peer);
        },
        NetworkEventModel::Unsubscribed { peer, .. } => {
            sets_keep_the_book(session.peers, peer);
        },
        _ => {},
    }
}

proof fn tries_keep(
    session: SessionModel,
    event: NetworkEventModel,
    fresh: Seq<char>,
    at: WorldModel,
)
    requires
        session.inv(),
        event is DirectUpgradeSucceeded || event is DirectUpgradeFailed || event
            is OutgoingConnectionError,
    ensures
        session.kept_by(session.network_event(event, fresh, at)),
{
    match event {
        NetworkEventModel::DirectUpgradeSucceeded { peer, .. } => {
            attempts_keep_the_book(session.peers, peer, at.now.mono_nanos);
        },
        NetworkEventModel::DirectUpgradeFailed { peer, .. } => {
            attempts_keep_the_book(session.peers, peer, at.now.mono_nanos);
        },
        NetworkEventModel::OutgoingConnectionError { peer, .. } => {
            if let Some(p) = peer {
                attempts_keep_the_book(session.peers, p, at.now.mono_nanos);
            }
        },
        _ => {},
    }
}

/// Everything that happens in the network keeps a session in order, and leaves it the same peer
/// in the same room.
pub proof fn network_events_keep_order(
    session: SessionModel,
    event: NetworkEventModel,
    fresh: Seq<char>,
    at: WorldModel,
)
    requires
        session.inv(),
    ensures
        session.kept_by(session.network_event(event, fresh, at)),
{
    if event is ConnectionEstablished || event is ConnectionClosed || event is MdnsDiscovered
        || event is MdnsExpired {
        meetings_keep(session, event, fresh, at);
    } else if event is NewExternalAddrOfPeer || event is Identified || event is Discovered || event
        is Subscribed || event is Unsubscribed {
        tidings_keep(session, event, fresh, at);
    } else if event is DirectUpgradeSucceeded || event is DirectUpgradeFailed || event
        is OutgoingConnectionError {
        tries_keep(session, event, fresh, at);
    } else {
        match event {
            NetworkEventModel::DirectRequest { peer, topic, message } => {
                direct_messages_keep(session, peer, topic, message, fresh);
            },
            NetworkEventModel::Message { via, source, message } => {
                let author = match source {
                    Some(a) => a,
                    None => via,
                };
                messages_keep_order(session, author, message, fresh, at);
            },
            _ => {},
        }
    }
}

} // verus!
