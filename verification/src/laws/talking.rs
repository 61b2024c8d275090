//! Messages, names, and what peers tell each other of what they know.
use crate::collections::{keys_of, lookup, store};
use crate::effect::{
    DetailModel, EffectModel, FailureModel, NetworkEventModel, OutcomeModel, TaskModel, Tick,
    WorldModel,
};
use crate::laws::basics::{said, told_either_way, told_in_short};
use crate::laws::measuring::{sorts_before, texts_are_ordered_by_their_bytes};
use crate::laws::queueing::queue_told;
use crate::model::{
    ChatRecordModel, NetworkCommandModel, PeerNameClaimModel, UiEventModel, WireMessageModel,
};
use crate::names::{outranks, LocalIdentity, NameRegistryModel};
use crate::peer::peer_named;
use crate::routes::PeerConnectionRoutesModel;
use crate::session::chat::takes_direct;
use crate::session::{SessionModel, Step};
use crate::sync::SyncBookModel;
use crate::text::decimal;
use crate::time::timestamp_micros;
use vstd::prelude::*;

verus! {

/// The claim of a peer to the name of this one is older: the peer joined before, or at the same
/// time with an identifier that comes before. One that does not say when it joined counts as last.
pub open spec fn has_an_older_claim(
    entry: (Seq<char>, PeerNameClaimModel),
    local: LocalIdentity,
) -> bool {
    let own = timestamp_micros(local.joined_at);
    let its = match entry.1.joined_at {
        Some(joined) => timestamp_micros(joined),
        None => i64::MAX,
    };
    &&& peer_named(entry.0) is Some
    &&& entry.1.name == local.name
    &&& its < own || its == own && sorts_before(peer_named(entry.0)->0, local.peer_id)
}

/// The peers with an older claim, in the order of the claims.
pub open spec fn those_with_an_older_claim(
    claims: Seq<(Seq<char>, PeerNameClaimModel)>,
    local: LocalIdentity,
) -> Seq<Seq<char>> {
    claims.filter(
        |entry: (Seq<char>, PeerNameClaimModel)| has_an_older_claim(entry, local),
    ).map_values(|entry: (Seq<char>, PeerNameClaimModel)| entry.0)
}

proof fn older_claims_outrank(
    claims: Seq<(Seq<char>, PeerNameClaimModel)>,
    local: LocalIdentity,
)
    ensures
        crate::names::conflicts_among(claims, local) == those_with_an_older_claim(claims, local),
{
    let one = |entry: (Seq<char>, PeerNameClaimModel)| outranks(entry, local);
    let other = |entry: (Seq<char>, PeerNameClaimModel)| has_an_older_claim(entry, local);
    assert forall|entry: (Seq<char>, PeerNameClaimModel)| #[trigger] one(entry) == other(entry) by {
        if let Some(peer) = peer_named(entry.0) {
            texts_are_ordered_by_their_bytes(peer, local.peer_id);
        }
    }
    assert(one =~= other);
    let kept = claims.filter(other);
    assert(keys_of(kept) =~= kept.map_values(
        |entry: (Seq<char>, PeerNameClaimModel)| entry.0,
    ));
}

/// Who this peer is to others: itself, by its name, since it joined.
pub open spec fn oneself(session: SessionModel) -> LocalIdentity {
    LocalIdentity {
        peer_id: session.local,
        name: session.name,
        joined_at: session.joined_at,
    }
}

/// The claims once a peer has made one. What this peer is said to claim by others does not count.
pub open spec fn names_with(
    session: SessionModel,
    peer: Seq<char>,
    name: Seq<char>,
    joined_at: Option<i64>,
) -> NameRegistryModel {
    let claims = store(
        session.names.claims,
        peer,
        PeerNameClaimModel { name: name, joined_at: joined_at },
    );
    if peer == session.local {
        session.names
    } else {
        NameRegistryModel {
            claims: claims,
            conflicts: those_with_an_older_claim(claims, oneself(session)),
        }
    }
}

/// What is told when the name of this peer ceases to be its own, or becomes so again.
pub open spec fn name_news(
    before: NameRegistryModel,
    after: NameRegistryModel,
    name: Seq<char>,
) -> Seq<EffectModel> {
    if before.conflicts.len() == 0 && after.conflicts.len() > 0 {
        seq![
            said(
                "name conflict: peer "@ + after.conflicts[0] + " joined earlier with '"@ + name
                    + "'"@,
            ),
        ]
    } else if before.conflicts.len() > 0 && after.conflicts.len() == 0 {
        seq![said("name '"@ + name + "' is available again"@)]
    } else {
        Seq::empty()
    }
}

/// The empty text names nobody.
pub proof fn an_empty_text_names_nobody(text: Seq<char>)
    requires
        text.len() == 0,
    ensures
        peer_named(text) is None,
{
}

/// A claim to a name counts if it names a peer, and the names of a peer that has gone do not.
#[verifier::rlimit(60)]
pub proof fn names_go_to_the_first_who_came(
    session: SessionModel,
    source: Seq<char>,
    peer: Seq<char>,
    name: Seq<char>,
    joined_at: Option<i64>,
    fresh: Seq<char>,
    at: WorldModel,
)
    ensures
        ({
            let message = WireMessageModel::NameClaim {
                peer_id: peer,
                name: name,
                joined_at: joined_at,
            };
            let step = session.hear(source, message, fresh, at);
            let gone = session.names.forget(peer, oneself(session));
            let claims = crate::collections::discard(session.names.claims, peer);
            &&& peer_named(peer) is None ==> step == (Step {
                after: session,
                effects: Seq::empty(),
            })
            &&& peer_named(peer) is Some ==> {
                let names = names_with(session, peer_named(peer)->0, name, joined_at);
                &&& step.after == (SessionModel { names: names, ..session })
                &&& step.effects == name_news(session.names, names, session.name)
            }
            &&& gone == (NameRegistryModel {
                claims: claims,
                conflicts: those_with_an_older_claim(claims, oneself(session)),
            })
        }),
{
    older_claims_outrank(
        crate::collections::discard(session.names.claims, peer),
        session.identity(),
    );
    if let Some(other) = peer_named(peer) {
        naming_is_exact(session, other, name, joined_at);
    }
}

proof fn naming_is_exact(
    session: SessionModel,
    peer: Seq<char>,
    name: Seq<char>,
    joined_at: Option<i64>,
)
    ensures
        ({
            let names = names_with(session, peer, name, joined_at);
            &&& session.naming(peer, name, joined_at).after == (SessionModel {
                names: names,
                ..session
            })
            &&& session.naming(peer, name, joined_at).effects == name_news(
                session.names,
                names,
                session.name,
            )
        }),
{
    older_claims_outrank(
        store(
            session.names.claims,
            peer,
            PeerNameClaimModel { name: name, joined_at: joined_at },
        ),
        session.identity(),
    );
}

/// What the user writes is kept and sent under the own name, unless an earlier peer has it. Either
/// way it is counted.
#[verifier::rlimit(60)]
pub proof fn what_is_written_is_sent(
    session: SessionModel,
    text: Seq<char>,
    fresh: Seq<char>,
    at: WorldModel,
)
    requires
        session.message_seq < u64::MAX,
    ensures
        ({
            let step = session.command(NetworkCommandModel::Chat(text), fresh, at);
            let message = WireMessageModel::Chat {
                id: Some(fresh),
                peer_id: session.local,
                joined_at: Some(session.joined_at),
                name: session.name,
                text: text,
                sent_at: at.now.wall_micros,
            };
            let history = session.history.with_record(
                ChatRecordModel {
                    id: fresh,
                    peer_id: session.local,
                    joined_at: Some(session.joined_at),
                    author: session.name,
                    text: text,
                    sent_at: at.now.wall_micros,
                },
            );
            &&& step.after.message_seq == session.message_seq + 1
            &&& session.names.conflicts.len() > 0 ==> {
                &&& step.after == (SessionModel {
                    message_seq: step.after.message_seq,
                    ..session
                })
                &&& step.effects == seq![
                    said(
                        "name '"@ + session.name
                            + "' belongs to an earlier peer; restart with a different --name"@,
                    ),
                ]
            }
            &&& session.names.conflicts.len() == 0 ==> {
                &&& step.after == (SessionModel {
                    message_seq: step.after.message_seq,
                    history: history,
                    agenda: seq![TaskModel::ChatSent { message: message }] + session.agenda,
                    ..session
                })
                &&& step.effects == seq![
                    EffectModel::Ui(UiEventModel::History(history.records)),
                    EffectModel::PublishChat(message),
                ]
            }
        }),
{
}

/// A peer that messages can be sent to one by one: another one that is connected, directly or
/// through a relay, and is no rendezvous node.
pub open spec fn can_be_sent_to(
    entry: (Seq<char>, PeerConnectionRoutesModel),
    session: SessionModel,
) -> bool {
    entry.0 != session.local && !session.peers.rendezvous.contains(entry.0) && (
    entry.1.direct.len() > 0 || entry.1.relayed.len() > 0)
}

/// A message that nobody in the room follows is sent to every peer that it can be sent to, once each;
/// else there is nothing more to do. A failure is told.
#[verifier::rlimit(60)]
pub proof fn a_message_that_nobody_follows_is_sent_to_each(
    session: SessionModel,
    message: WireMessageModel,
    outcome: OutcomeModel,
    failure: FailureModel,
    fresh: Seq<char>,
    at: WorldModel,
)
    ensures
        ({
            let task = TaskModel::ChatSent { message: message };
            let step = session.run(task, outcome, fresh, at);
            let peers = session.peers.routes.filter(
                |entry: (Seq<char>, PeerConnectionRoutesModel)| can_be_sent_to(entry, session),
            );
            &&& step.after == session
            &&& !(outcome is NoSubscribers) ==> step.effects.len() == 0
            &&& outcome is NoSubscribers ==> {
                &&& step.effects.len() == peers.len() + 1
                &&& forall|i: int|
                    0 <= i < peers.len() ==> (#[trigger] step.effects[i])
                        == (EffectModel::SendDirect {
                        peer: peers[i].0,
                        topic: session.topic,
                        message: message,
                    })
                &&& step.effects.last() == said(
                    if peers.len() > 0 {
                        "gossipsub has no chat subscribers; sent direct fallback to "@ + decimal(
                            peers.len(),
                        ) + " peer(s)"@
                    } else {
                        "publish failed: NoPeersSubscribedToTopic"@
                    },
                )
            }
            &&& session.recover(task, failure, at) == (Step {
                after: session,
                effects: seq![said("publish failed: "@ + failure.brief)],
            })
        }),
{
    let one = |entry: (Seq<char>, PeerConnectionRoutesModel)| takes_direct(entry, session);
    let other = |entry: (Seq<char>, PeerConnectionRoutesModel)| can_be_sent_to(entry, session);
    assert(one =~= other);
}

/// A chat message from a peer is kept as it was written, and shown if it is new. It is ascribed to
/// the peer that it names, or else to the one it comes from, whose name it tells.
#[verifier::rlimit(60)]
pub proof fn a_chat_message_is_kept_as_written(
    session: SessionModel,
    id: Option<Seq<char>>,
    peer_id: Seq<char>,
    joined_at: Option<i64>,
    name: Seq<char>,
    text: Seq<char>,
    sent_at: i64,
    source: Seq<char>,
    fresh: Seq<char>,
    at: WorldModel,
)
    ensures
        ({
            let message = WireMessageModel::Chat {
                id: id,
                peer_id: peer_id,
                joined_at: joined_at,
                name: name,
                text: text,
                sent_at: sent_at,
            };
            let step = session.hear(source, message, fresh, at);
            let author = if peer_named(peer_id) is Some {
                peer_named(peer_id)->0
            } else {
                source
            };
            let own_id = if id is Some {
                id->0
            } else {
                fresh
            };
            let names = names_with(session, author, name, joined_at);
            let history = session.history.with_record(
                ChatRecordModel {
                    id: own_id,
                    peer_id: author,
                    joined_at: joined_at,
                    author: name,
                    text: text,
                    sent_at: sent_at,
                },
            );
            &&& step.after == (SessionModel { names: names, history: history, ..session })
            &&& step.effects == name_news(session.names, names, session.name) + (
            if session.history.seen.contains(own_id) {
                Seq::empty()
            } else {
                seq![EffectModel::Ui(UiEventModel::History(history.records))]
            })
        }),
{
    let author = if peer_named(peer_id) is Some {
        peer_named(peer_id)->0
    } else {
        source
    };
    naming_is_exact(session, author, name, joined_at);
}

/// A message for this peer alone is heard as one to the room if it is a chat message or a name, and
/// for this room. Every one is answered with whether it was.
#[verifier::rlimit(80)]
pub proof fn a_direct_message_is_answered(
    session: SessionModel,
    peer: Seq<char>,
    topic: Seq<char>,
    message: WireMessageModel,
    fresh: Seq<char>,
    at: WorldModel,
)
    ensures
        ({
            let event = NetworkEventModel::DirectRequest {
                peer: peer,
                topic: topic,
                message: message,
            };
            let step = session.network_event(event, fresh, at);
            let taken = topic == session.topic && (message is Chat || message is NameClaim);
            let accepted = topic == session.topic && (message is Chat || message is NameClaim
                && peer_named(message->NameClaim_peer_id) is Some);
            let heard = if taken {
                session.hear(peer, message, fresh, at)
            } else {
                Step {
                    after: session,
                    effects: if topic == session.topic {
                        Seq::empty()
                    } else {
                        seq![said("ignored direct message from "@ + peer + ": topic mismatch"@)]
                    },
                }
            };
            &&& step.effects == heard.effects.push(EffectModel::Respond { accepted: accepted })
            &&& step.after == (SessionModel {
                agenda: seq![
                    TaskModel::Report {
                        done: None,
                        failed: Some("direct response failed "@ + peer + ": channel closed"@),
                        detail: DetailModel::Nothing,
                    },
                ] + heard.after.agenda,
                ..heard.after
            })
        }),
{
}

/// A message to the room is ascribed to its author if one is given, else to the peer that passed it
/// on.
pub proof fn a_message_comes_from_its_author(
    session: SessionModel,
    via: Seq<char>,
    author: Seq<char>,
    message: WireMessageModel,
    fresh: Seq<char>,
    at: WorldModel,
)
    ensures
        session.network_event(
            NetworkEventModel::Message { via: via, source: Some(author), message: message },
            fresh,
            at,
        ) == session.hear(author, message, fresh, at),
        session.network_event(
            NetworkEventModel::Message { via: via, source: None, message: message },
            fresh,
            at,
        ) == session.hear(via, message, fresh, at),
{
}

/// One message more of a history is taken in after the others: it tells the name of its author if
/// it names a peer, and counts if it is new.
#[verifier::rlimit(60)]
pub proof fn one_message_more_is_taken_in(
    session: SessionModel,
    messages: Seq<ChatRecordModel>,
    record: ChatRecordModel,
)
    ensures
        ({
            let before = session.merging(messages);
            let after = session.merging(messages.push(record));
            let names = if peer_named(record.peer_id) is Some {
                names_with(
                    before.after,
                    peer_named(record.peer_id)->0,
                    record.author,
                    record.joined_at,
                )
            } else {
                before.after.names
            };
            &&& messages.len() == 0 ==> before.after == session && before.effects.len() == 0
                && before.added == 0
            &&& after.after == (SessionModel {
                names: names,
                history: before.after.history.with_record(record),
                ..before.after
            })
            &&& after.effects == before.effects + (if peer_named(record.peer_id) is Some {
                name_news(before.after.names, names, before.after.name)
            } else {
                Seq::empty()
            })
            &&& after.added == if before.after.history.seen.contains(record.id) {
                before.added
            } else {
                before.added + 1
            }
        }),
{
    let all = messages.push(record);
    assert(all.drop_last() =~= messages);
    let before = session.merging(messages);
    if let Some(peer) = peer_named(record.peer_id) {
        naming_is_exact(before.after, peer, record.author, record.joined_at);
    }
}

/// A history that is for this peer or for all is taken in, message by message, and shown if
/// anything was new.
#[verifier::rlimit(60)]
pub proof fn a_history_is_taken_in(
    session: SessionModel,
    source: Seq<char>,
    target: Option<Seq<char>>,
    messages: Seq<ChatRecordModel>,
    fresh: Seq<char>,
    at: WorldModel,
)
    ensures
        ({
            let message = WireMessageModel::HistoryResponse { target: target, messages: messages };
            let step = session.hear(source, message, fresh, at);
            let merge = session.merging(messages);
            let meant = target is None || target == Some(session.local);
            &&& !meant ==> step == (Step { after: session, effects: Seq::empty() })
            &&& meant ==> step.after == merge.after
            &&& meant && merge.added == 0 ==> step.effects == merge.effects
            &&& meant && merge.added > 0 ==> step.effects == merge.effects.push(
                EffectModel::Ui(UiEventModel::History(merge.after.history.records)),
            ).push(
                said(
                    "merged "@ + decimal(merge.added) + " history messages, now "@ + decimal(
                        merge.after.history.records.len(),
                    ),
                ),
            )
        }),
{
    let message = WireMessageModel::HistoryResponse { target: target, messages: messages };
    let step = session.hear(source, message, fresh, at);
    let merge = session.merging(messages);
    if merge.added > 0 && (target is None || target == Some(session.local)) {
        assert(step.effects =~= merge.effects.push(
            EffectModel::Ui(UiEventModel::History(merge.after.history.records)),
        ).push(
            said(
                "merged "@ + decimal(merge.added) + " history messages, now "@ + decimal(
                    merge.after.history.records.len(),
                ),
            ),
        ));
    }
}

/// All that a peer tells of what it knows: its name, how many messages it has and when the last was
/// sent, and the version of its queue if there is anything to tell of it.
pub open spec fn told_of_itself(session: SessionModel) -> Seq<EffectModel> {
    let records = session.history.records;
    let name = EffectModel::Publish(
        WireMessageModel::NameClaim {
            peer_id: session.local,
            name: session.name,
            joined_at: Some(session.joined_at),
        },
    );
    let history = EffectModel::Publish(
        WireMessageModel::HistorySummary {
            peer_id: session.local,
            count: records.len() as usize,
            newest_at: if records.len() == 0 {
                None
            } else {
                Some(timestamp_micros(records[records.len() - 1].sent_at))
            },
        },
    );
    let queue = EffectModel::Publish(
        WireMessageModel::QueueSummary {
            peer_id: session.local,
            version: session.queue.version,
            updated_at_micros: session.queue.updated_at,
            item_count: session.queue.items.len() as usize,
        },
    );
    if session.queue.version == 0 && session.queue.items.len() == 0 {
        seq![name, history]
    } else {
        seq![name, history, queue]
    }
}

/// A peer tells of itself from time to time, and when it meets others; then again after 0.3, 0.9 and
/// 1.8 seconds.
#[verifier::rlimit(80)]
pub proof fn a_peer_tells_of_itself(
    session: SessionModel,
    outcome: OutcomeModel,
    fresh: Seq<char>,
    at: WorldModel,
)
    requires
        at.now.mono_nanos <= u64::MAX - 1_800_000_000,
    ensures
        ({
            let now = at.now.mono_nanos;
            let due = session.sync.due;
            &&& session.tick(Tick::HistorySync, at) == (Step {
                after: SessionModel {
                    agenda: seq![told_in_short("sync summary failed: "@)] + session.agenda,
                    ..session
                },
                effects: told_of_itself(session),
            })
            &&& session.run(TaskModel::TriggerSync, outcome, fresh, at) == (Step {
                after: SessionModel {
                    agenda: seq![TaskModel::ScheduleBurst] + session.agenda,
                    ..session
                },
                effects: told_of_itself(session),
            })
            &&& session.run(TaskModel::ScheduleBurst, outcome, fresh, at) == (Step {
                after: SessionModel {
                    sync: SyncBookModel {
                        due: due.push((now + 300_000_000) as u64).push(
                            (now + 900_000_000) as u64,
                        ).push((now + 1_800_000_000) as u64),
                        ..session.sync
                    },
                    ..session
                },
                effects: Seq::empty(),
            })
            &&& session.tick(Tick::HistoryBurst, at) == (Step {
                after: SessionModel {
                    agenda: seq![
                        TaskModel::DrainSync { now: now },
                        told_in_short("sync summary failed: "@),
                    ] + session.agenda,
                    ..session
                },
                effects: Seq::empty(),
            })
        }),
{
    let now = at.now.mono_nanos;
    let due = session.sync.due;
    assert(due + seq![
        (now + 300_000_000) as u64,
        (now + 900_000_000) as u64,
        (now + 1_800_000_000) as u64,
    ] =~= due.push((now + 300_000_000) as u64).push((now + 900_000_000) as u64).push(
        (now + 1_800_000_000) as u64,
    ));
    assert(session.summaries() =~= told_of_itself(session));
    assert(session.tick(Tick::HistorySync, at).effects =~= told_of_itself(session));
    let burst = session.run(TaskModel::ScheduleBurst, outcome, fresh, at);
    assert(burst.effects =~= Seq::empty());
}

/// A peer tells of itself once for each time that has come, in the order in which they were set.
#[verifier::rlimit(60)]
pub proof fn times_that_have_come_are_kept(
    session: SessionModel,
    now: u64,
    outcome: OutcomeModel,
    fresh: Seq<char>,
    at: WorldModel,
)
    ensures
        ({
            let step = session.run(TaskModel::DrainSync { now: now }, outcome, fresh, at);
            let due = session.sync.due;
            &&& due.len() > 0 && due[0] <= now ==> {
                &&& step.after == (SessionModel {
                    sync: SyncBookModel { due: due.remove(0), ..session.sync },
                    agenda: seq![TaskModel::DrainSync { now: now }] + session.agenda,
                    ..session
                })
                &&& step.effects == told_of_itself(session)
            }
            &&& due.len() == 0 || due[0] > now ==> step == (Step {
                after: session,
                effects: Seq::empty(),
            })
        }),
{
    let due = session.sync.due;
    if due.len() > 0 {
        assert(due.skip(1) =~= due.remove(0));
    }
    assert(session.summaries() =~= told_of_itself(session));
}

/// A peer that others have met sends its queue if there is anything to tell of it, and the playback
/// that it leads.
#[verifier::rlimit(60)]
pub proof fn a_peer_sends_its_music(
    session: SessionModel,
    outcome: OutcomeModel,
    fresh: Seq<char>,
    at: WorldModel,
)
    ensures
        ({
            let step = session.run(TaskModel::MusicSnapshot, outcome, fresh, at);
            &&& step.after == session
            &&& step.effects == (if session.queue.version == 0 && session.queue.items.len() == 0 {
                Seq::empty()
            } else {
                seq![
                    EffectModel::Publish(
                        WireMessageModel::QueueState { state: queue_told(session) },
                    ),
                ]
            }) + (if session.playback is Some && session.playback->0.leader_peer_id
                == session.local {
                seq![
                    EffectModel::Publish(
                        WireMessageModel::PlaybackState { state: session.playback->0 },
                    ),
                ]
            } else {
                Seq::empty()
            })
        }),
{
}

/// A peer may be asked if it never was, or not in the last five seconds.
pub open spec fn was_not_asked_lately(
    asked: Seq<(Seq<char>, u64)>,
    peer: Seq<char>,
    now: u64,
) -> bool {
    lookup(asked, peer) is None || now >= lookup(asked, peer)->0 + 5_000_000_000
}

/// A peer that knows more messages is asked for them, unless it was asked lately; the time is noted
/// once the question is on its way.
#[verifier::rlimit(60)]
pub proof fn a_peer_that_knows_more_is_asked(
    session: SessionModel,
    source: Seq<char>,
    peer: Seq<char>,
    count: usize,
    newest_at: Option<i64>,
    outcome: OutcomeModel,
    failure: FailureModel,
    fresh: Seq<char>,
    at: WorldModel,
)
    ensures
        ({
            let message = WireMessageModel::HistorySummary {
                peer_id: peer,
                count: count,
                newest_at: newest_at,
            };
            let asked = peer != session.local && count > session.history.records.len()
                && was_not_asked_lately(
                session.sync.history_requests,
                peer,
                at.now.mono_nanos,
            );
            let task = TaskModel::HistoryRequested { peer: peer };
            &&& asked ==> session.hear(source, message, fresh, at) == (Step {
                after: SessionModel { agenda: seq![task] + session.agenda, ..session },
                effects: seq![
                    EffectModel::Publish(
                        WireMessageModel::HistoryRequest {
                            requester: session.local,
                            target: peer,
                            known_count: session.history.records.len() as usize,
                        },
                    ),
                ],
            })
            &&& !asked ==> session.hear(source, message, fresh, at) == (Step {
                after: session,
                effects: Seq::empty(),
            })
            &&& session.run(task, outcome, fresh, at) == (Step {
                after: SessionModel {
                    sync: SyncBookModel {
                        history_requests: store(
                            session.sync.history_requests,
                            peer,
                            at.now.mono_nanos,
                        ),
                        ..session.sync
                    },
                    ..session
                },
                effects: seq![said("requesting history from "@ + peer)],
            })
            &&& session.recover(task, failure, at) == (Step {
                after: session,
                effects: seq![said("history request failed: "@ + failure.brief)],
            })
        }),
{
}

/// A peer that asks this one for its history gets all of it if it knows fewer messages.
#[verifier::rlimit(60)]
pub proof fn a_peer_that_knows_less_is_answered(
    session: SessionModel,
    source: Seq<char>,
    requester: Seq<char>,
    target: Seq<char>,
    known_count: usize,
    fresh: Seq<char>,
    at: WorldModel,
)
    ensures
        ({
            let message = WireMessageModel::HistoryRequest {
                requester: requester,
                target: target,
                known_count: known_count,
            };
            let records = session.history.records;
            session.hear(source, message, fresh, at) == if target == session.local && requester
                != session.local && known_count < records.len() {
                Step {
                    after: SessionModel {
                        agenda: seq![
                            told_either_way(
                                "sent "@ + decimal(records.len()) + " history messages"@,
                                "history response failed: "@,
                            ),
                        ] + session.agenda,
                        ..session
                    },
                    effects: seq![
                        EffectModel::Publish(
                            WireMessageModel::HistoryResponse { target: None, messages: records },
                        ),
                    ],
                }
            } else {
                Step { after: session, effects: Seq::empty() }
            }
        }),
{
}

/// A version of the queue is later: it was made later, or at the same time with a higher number.
pub open spec fn is_later(version: u64, made: i64, than: u64, than_made: i64) -> bool {
    made > than_made || made == than_made && version > than
}

/// A peer with a later queue is asked for it, unless it was asked lately; the time is noted once the
/// question is on its way.
#[verifier::rlimit(60)]
pub proof fn a_peer_with_a_later_queue_is_asked(
    session: SessionModel,
    source: Seq<char>,
    peer: Seq<char>,
    version: u64,
    updated_at: i64,
    item_count: usize,
    outcome: OutcomeModel,
    failure: FailureModel,
    fresh: Seq<char>,
    at: WorldModel,
)
    ensures
        ({
            let message = WireMessageModel::QueueSummary {
                peer_id: peer,
                version: version,
                updated_at_micros: updated_at,
                item_count: item_count,
            };
            let asked = peer != session.local && is_later(
                version,
                updated_at,
                session.queue.version,
                session.queue.updated_at,
            ) && was_not_asked_lately(session.sync.queue_requests, peer, at.now.mono_nanos);
            let task = TaskModel::QueueRequested { peer: peer };
            &&& asked ==> session.hear(source, message, fresh, at) == (Step {
                after: SessionModel { agenda: seq![task] + session.agenda, ..session },
                effects: seq![
                    EffectModel::Publish(
                        WireMessageModel::QueueRequest {
                            requester: session.local,
                            target: peer,
                            known_version: session.queue.version,
                            known_updated_at_micros: session.queue.updated_at,
                        },
                    ),
                ],
            })
            &&& !asked ==> session.hear(source, message, fresh, at) == (Step {
                after: session,
                effects: Seq::empty(),
            })
            &&& session.run(task, outcome, fresh, at) == (Step {
                after: SessionModel {
                    sync: SyncBookModel {
                        queue_requests: store(
                            session.sync.queue_requests,
                            peer,
                            at.now.mono_nanos,
                        ),
                        ..session.sync
                    },
                    ..session
                },
                effects: seq![said("requesting queue from "@ + peer)],
            })
            &&& session.recover(task, failure, at) == (Step {
                after: session,
                effects: seq![said("queue request failed: "@ + failure.brief)],
            })
        }),
{
}

/// A peer that asks this one for its queue gets it if its own is earlier.
#[verifier::rlimit(60)]
pub proof fn a_peer_with_an_earlier_queue_is_answered(
    session: SessionModel,
    source: Seq<char>,
    requester: Seq<char>,
    target: Seq<char>,
    known_version: u64,
    known_updated_at: i64,
    fresh: Seq<char>,
    at: WorldModel,
)
    ensures
        ({
            let message = WireMessageModel::QueueRequest {
                requester: requester,
                target: target,
                known_version: known_version,
                known_updated_at_micros: known_updated_at,
            };
            session.hear(source, message, fresh, at) == if target == session.local && requester
                != session.local && is_later(
                session.queue.version,
                session.queue.updated_at,
                known_version,
                known_updated_at,
            ) {
                Step {
                    after: SessionModel {
                        agenda: seq![
                            told_either_way(
                                "sent "@ + decimal(session.queue.items.len())
                                    + " queue item(s)"@,
                                "queue response failed: "@,
                            ),
                        ] + session.agenda,
                        ..session
                    },
                    effects: seq![
                        EffectModel::Publish(
                            WireMessageModel::QueueResponse {
                                target: requester,
                                state: queue_told(session),
                            },
                        ),
                    ],
                }
            } else {
                Step { after: session, effects: Seq::empty() }
            }
        }),
{
}

} // verus!
