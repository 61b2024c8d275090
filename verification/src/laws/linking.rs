//! Connections to peers, and how relayed ones become direct.
use crate::address::prioritized;
use crate::collections::{
    discard, holds, lookup, lookup_of_store, place_of, store, with_item, without_item,
};
use crate::effect::{
    EffectModel, FailureModel, NetworkEventModel, OutcomeModel, TaskModel, Tick, WorldModel,
};
use crate::laws::addressing::{an_address_leads_to_the_last_peer, has_relay};
use crate::laws::basics::{said, told_at_length, told_in_short};
use crate::laws::finding::welcomed;
use crate::laws::talking::oneself;
use crate::model::UiEventModel;
use crate::playback::PendingPlaybackModel;
use crate::routes::{
    DirectPromotionBackoffModel, GossipsubWarmupModel, PeerBookModel, PeerConnectionRoutesModel,
};
use crate::session::links::{expired_warmups, promotions};
use crate::session::{SessionModel, Step};
use crate::text::decimal;
use vstd::prelude::*;

verus! {

/// A table finds the first entry under a key, and nothing if there is none. A value that is stored
/// takes the place of that entry, or comes last. An entry that is discarded is the one that was
/// found; the others keep their order.
pub proof fn a_table_goes_by_the_first_entry<V>(
    entries: Seq<(Seq<char>, V)>,
    key: Seq<char>,
    value: V,
)
    ensures
        lookup(entries, key) is None <==> forall|i: int|
            0 <= i < entries.len() ==> (#[trigger] entries[i]).0 != key,
        holds(entries, key) <==> lookup(entries, key) is Some,
        lookup(entries, key) is None ==> store(entries, key, value) == entries.push((key, value))
            && discard(entries, key) == entries,
        lookup(entries, key) is Some ==> exists|i: int|
            {
                &&& 0 <= i < entries.len()
                &&& (#[trigger] entries[i]) == (key, lookup(entries, key)->0)
                &&& forall|j: int| 0 <= j < i ==> (#[trigger] entries[j]).0 != key
                &&& store(entries, key, value) == entries.update(i, (key, value))
                &&& discard(entries, key) == entries.remove(i)
            },
{
    if lookup(entries, key) is Some {
        let i = place_of(entries, key);
        assert(crate::collections::is_first(entries, key, i));
        assert(entries[i] == (key, lookup(entries, key)->0));
    } else {
        assert forall|i: int| 0 <= i < entries.len() implies (#[trigger] entries[i]).0 != key by {
            if entries[i].0 == key {
                crate::collections::entry_is_held(entries, key, i);
            }
        }
    }
}

/// The connections to a peer.
pub open spec fn links(book: PeerBookModel, peer: Seq<char>) -> PeerConnectionRoutesModel {
    match lookup(book.routes, peer) {
        Some(routes) => routes,
        None => PeerConnectionRoutesModel { direct: Seq::empty(), relayed: Seq::empty() },
    }
}

/// Where a peer can be reached directly.
pub open spec fn places(book: PeerBookModel, peer: Seq<char>) -> Seq<Seq<u8>> {
    match lookup(book.addresses, peer) {
        Some(addresses) => addresses,
        None => Seq::empty(),
    }
}

/// How the attempts to reach a peer went.
pub open spec fn account(book: PeerBookModel, peer: Seq<char>) -> DirectPromotionBackoffModel {
    match lookup(book.backoffs, peer) {
        Some(backoff) => backoff,
        None => DirectPromotionBackoffModel {
            failures: 0,
            last_attempt: None,
            last_failure: None,
            in_flight: false,
            suspended_reported: false,
        },
    }
}

/// A peer was given time to subscribe, and five seconds have passed.
pub open spec fn has_had_its_time(book: PeerBookModel, peer: Seq<char>, now: u64) -> bool {
    lookup(book.warmups, peer) is Some && now >= lookup(book.warmups, peer)->0.started_at
        + 5_000_000_000
}

/// The seconds that a peer is left alone after so many failures.
pub open spec fn pause_after(failures: u32) -> int {
    if failures < 3 {
        30
    } else if failures < 6 {
        120
    } else {
        600
    }
}

/// Those seconds in words.
pub open spec fn pause_in_words(failures: u32) -> Seq<char> {
    if failures < 3 {
        decimal(30) + "s"@
    } else if failures < 6 {
        decimal(2) + "m"@
    } else {
        decimal(10) + "m"@
    }
}

/// A peer may be tried: nothing is under way, and the pause is over.
pub open spec fn may_be_tried(backoff: DirectPromotionBackoffModel, now: u64) -> bool {
    !backoff.in_flight && (backoff.last_attempt is None || now > backoff.last_attempt->0
        + pause_after(backoff.failures) * 1_000_000_000)
}

/// The user is told that a peer is given time.
pub open spec fn told_to_wait(peer: Seq<char>) -> EffectModel {
    said(
        "waiting up to "@ + (decimal(5) + "s"@) + " for "@ + peer
            + " to subscribe to chat before direct promotion"@,
    )
}

/// The user is told that its time is over.
pub open spec fn told_of_the_end(peer: Seq<char>) -> EffectModel {
    said("gossipsub warmup timed out for "@ + peer + "; trying direct promotion anyway"@)
}

/// A peer that is connected directly, or not at all, or has no known direct address, is left alone;
/// so is this peer itself.
#[verifier::rlimit(60)]
pub proof fn only_a_relayed_peer_is_tried(
    session: SessionModel,
    peer: Seq<char>,
    outcome: OutcomeModel,
    fresh: Seq<char>,
    at: WorldModel,
)
    requires
        peer == session.local || links(session.peers, peer).direct.len() > 0 || links(
            session.peers,
            peer,
        ).relayed.len() == 0 || places(session.peers, peer).len() == 0,
    ensures
        session.run(TaskModel::Promote { peer: peer }, outcome, fresh, at) == (Step {
            after: session,
            effects: Seq::empty(),
        }),
{
}

/// A relayed peer with direct addresses waits five seconds before it is tried, unless it has
/// subscribed.
#[verifier::rlimit(60)]
pub proof fn a_relayed_peer_waits_for_its_subscription(
    session: SessionModel,
    peer: Seq<char>,
    outcome: OutcomeModel,
    fresh: Seq<char>,
    at: WorldModel,
)
    requires
        peer != session.local,
        links(session.peers, peer).direct.len() == 0,
        links(session.peers, peer).relayed.len() > 0,
        places(session.peers, peer).len() > 0,
        !session.peers.subscribers.contains(peer),
        !has_had_its_time(session.peers, peer, at.now.mono_nanos),
    ensures
        session.run(TaskModel::Promote { peer: peer }, outcome, fresh, at) == if lookup(
            session.peers.warmups,
            peer,
        ) is Some {
            Step { after: session, effects: Seq::empty() }
        } else {
            Step {
                after: SessionModel {
                    peers: PeerBookModel {
                        warmups: store(
                            session.peers.warmups,
                            peer,
                            GossipsubWarmupModel { started_at: at.now.mono_nanos },
                        ),
                        ..session.peers
                    },
                    ..session
                },
                effects: seq![told_to_wait(peer)],
            }
        },
{
    let step = session.run(TaskModel::Promote { peer: peer }, outcome, fresh, at);
    if lookup(session.peers.warmups, peer) is None {
        assert(step.effects =~= seq![told_to_wait(peer)]);
    } else {
        assert(step.effects =~= Seq::empty());
        assert(step.after =~= session);
    }
}

/// A relayed peer with direct addresses that has subscribed, or had its time to, is dialled at all of
/// them, by preference, as soon as its pause is over and nothing is under way. After ten failures
/// it is not, which is told once.
#[verifier::rlimit(80)]
pub proof fn a_relayed_peer_is_tried(
    session: SessionModel,
    peer: Seq<char>,
    outcome: OutcomeModel,
    fresh: Seq<char>,
    at: WorldModel,
)
    requires
        peer != session.local,
        links(session.peers, peer).direct.len() == 0,
        links(session.peers, peer).relayed.len() > 0,
        places(session.peers, peer).len() > 0,
        session.peers.subscribers.contains(peer) || has_had_its_time(
            session.peers,
            peer,
            at.now.mono_nanos,
        ),
    ensures
        ({
            let step = session.run(TaskModel::Promote { peer: peer }, outcome, fresh, at);
            let before = account(session.peers, peer);
            let gone = before.failures >= 10;
            let dialled = !gone && may_be_tried(before, at.now.mono_nanos);
            let word = if session.peers.subscribers.contains(peer) {
                Seq::empty()
            } else {
                seq![told_of_the_end(peer)]
            };
            let more = if gone && !before.suspended_reported {
                seq![
                    said(
                        "direct promotion suspended for "@ + peer + " after "@ + decimal(
                            before.failures as nat,
                        ) + " failures"@ + "; waiting for new direct addresses"@,
                    ),
                ]
            } else if dialled {
                seq![
                    EffectModel::Dial {
                        peer: peer,
                        addresses: prioritized(places(session.peers, peer)),
                        always: true,
                    },
                ]
            } else {
                Seq::empty()
            };
            let after = if gone {
                DirectPromotionBackoffModel { suspended_reported: true, ..before }
            } else if dialled {
                DirectPromotionBackoffModel {
                    last_attempt: Some(at.now.mono_nanos),
                    in_flight: true,
                    ..before
                }
            } else {
                before
            };
            &&& step.effects == word + more
            &&& step.after == (SessionModel {
                peers: PeerBookModel {
                    warmups: discard(session.peers.warmups, peer),
                    backoffs: store(session.peers.backoffs, peer, after),
                    ..session.peers
                },
                agenda: if dialled {
                    seq![
                        TaskModel::Dialed {
                            peer: peer,
                            count: prioritized(places(session.peers, peer)).len() as usize,
                        },
                    ] + session.agenda
                } else {
                    session.agenda
                },
                ..session
            })
        }),
{
    let step = session.run(TaskModel::Promote { peer: peer }, outcome, fresh, at);
    let before = account(session.peers, peer);
    let count = " failures"@;
    assert(count + Seq::<char>::empty() =~= count);
    let told = "direct promotion suspended for "@ + peer + " after "@ + decimal(
        before.failures as nat,
    ) + " failures"@;
    assert(told + Seq::<char>::empty() =~= told);
    if before.failures >= 10 {
        if before.suspended_reported {
            assert(before =~= (DirectPromotionBackoffModel { suspended_reported: true, ..before }));
        }
    }
}

/// A dial that is under way is told, with the number of addresses.
pub proof fn a_dial_is_told(
    session: SessionModel,
    peer: Seq<char>,
    count: usize,
    outcome: OutcomeModel,
    fresh: Seq<char>,
    at: WorldModel,
)
    ensures
        session.run(TaskModel::Dialed { peer: peer, count: count }, outcome, fresh, at) == (Step {
            after: session,
            effects: seq![
                said(
                    "trying direct connection to "@ + peer + " ("@ + decimal(count as nat)
                        + " candidate address(es))"@,
                ),
            ],
        }),
{
}

/// A failure to reach a peer directly is put to its account and told. One that comes less than five
/// seconds after the last is not counted. The tenth is the last: the peer is left alone.
pub open spec fn a_failure_is_noted(
    before: SessionModel,
    step: Step,
    peer: Seq<char>,
    reason: Seq<char>,
    at: WorldModel,
) -> bool {
    let old = account(before.peers, peer);
    let now = at.now.mono_nanos;
    let again = old.last_failure is Some && now < old.last_failure->0 + 5_000_000_000;
    let count: int = if old.failures < u32::MAX {
        old.failures + 1
    } else {
        old.failures as int
    };
    let new = if again {
        DirectPromotionBackoffModel { in_flight: false, ..old }
    } else {
        DirectPromotionBackoffModel {
            failures: count as u32,
            last_attempt: old.last_attempt,
            last_failure: Some(now),
            in_flight: false,
            suspended_reported: count >= 10,
        }
    };
    &&& step.after == (SessionModel {
        peers: PeerBookModel {
            backoffs: store(before.peers.backoffs, peer, new),
            ..before.peers
        },
        ..before
    })
    &&& step.effects == if again {
        Seq::empty()
    } else if count < 10 {
        seq![
            said(
                "direct promotion failed for "@ + peer + " ("@ + decimal(count as nat) + "/"@
                    + decimal(10) + "): "@ + reason + "; retrying in "@ + pause_in_words(
                    count as u32,
                ),
            ),
        ]
    } else {
        seq![
            said(
                "direct promotion suspended for "@ + peer + " after "@ + decimal(count as nat)
                    + " failures"@ + (": "@ + reason) + "; waiting for new direct addresses"@,
            ),
        ]
    }
}

proof fn failures_are_noted(
    session: SessionModel,
    peer: Seq<char>,
    reason: Seq<char>,
    at: WorldModel,
)
    ensures
        a_failure_is_noted(
            session,
            session.promotion_failed(peer, reason, at),
            peer,
            reason,
            at,
        ),
{
    let old = account(session.peers, peer);
    let now = at.now.mono_nanos;
    let step = session.promotion_failed(peer, reason, at);
    let again = old.last_failure is Some && now < old.last_failure->0 + 5_000_000_000;
    assert(again == old.repeats_failure(now));
    if again {
        assert(step.effects =~= Seq::empty());
    }
}

/// A dial that could not even be asked for, a direct upgrade that failed while the peer is relayed,
/// and a connection that could not be made while one is under way, are failures to reach the peer.
/// Others are only told.
#[verifier::rlimit(60)]
pub proof fn failed_attempts_count(
    session: SessionModel,
    peer: Seq<char>,
    count: usize,
    failure: FailureModel,
    error: Seq<char>,
    fresh: Seq<char>,
    at: WorldModel,
)
    ensures
        ({
            let dial = session.recover(
                TaskModel::Dialed { peer: peer, count: count },
                failure,
                at,
            );
            let upgrade = session.network_event(
                NetworkEventModel::DirectUpgradeFailed { peer: peer, error: error },
                fresh,
                at,
            );
            let outgoing = session.network_event(
                NetworkEventModel::OutgoingConnectionError { peer: Some(peer), error: error },
                fresh,
                at,
            );
            let unknown = session.network_event(
                NetworkEventModel::OutgoingConnectionError { peer: None, error: error },
                fresh,
                at,
            );
            let relayed_only = links(session.peers, peer).direct.len() == 0 && links(
                session.peers,
                peer,
            ).relayed.len() > 0;
            &&& a_failure_is_noted(
                session,
                dial,
                peer,
                "dial request failed: "@ + failure.brief,
                at,
            )
            &&& relayed_only ==> a_failure_is_noted(
                session,
                upgrade,
                peer,
                "DCUtR failed: "@ + error,
                at,
            )
            &&& !relayed_only ==> upgrade == (Step {
                after: session,
                effects: seq![said("direct upgrade failed with "@ + peer + ": "@ + error)],
            })
            &&& account(session.peers, peer).in_flight ==> a_failure_is_noted(
                session,
                outgoing,
                peer,
                "outgoing direct dial failed: "@ + error,
                at,
            )
            &&& !account(session.peers, peer).in_flight ==> outgoing == (Step {
                after: session,
                effects: seq![said("outgoing connection error "@ + peer + ": "@ + error)],
            })
            &&& unknown == (Step {
                after: session,
                effects: seq![said("outgoing connection error unknown peer: "@ + error)],
            })
        }),
{
    failures_are_noted(session, peer, "dial request failed: "@ + failure.brief, at);
    failures_are_noted(session, peer, "DCUtR failed: "@ + error, at);
    failures_are_noted(session, peer, "outgoing direct dial failed: "@ + error, at);
}

/// A direct upgrade that succeeded is told, and the failures of the peer are forgotten.
pub proof fn an_upgrade_is_a_new_chance(
    session: SessionModel,
    peer: Seq<char>,
    connection: Seq<char>,
    fresh: Seq<char>,
    at: WorldModel,
)
    ensures
        session.network_event(
            NetworkEventModel::DirectUpgradeSucceeded { peer: peer, connection: connection },
            fresh,
            at,
        ) == (Step {
            after: SessionModel {
                peers: PeerBookModel {
                    backoffs: discard(session.peers.backoffs, peer),
                    ..session.peers
                },
                ..session
            },
            effects: seq![
                said("direct upgrade succeeded with "@ + peer + " on "@ + connection),
            ],
        }),
{
}

/// What a session knows once a connection has come up: the connection, and that messages are to be
/// sent to the peer, unless it is a rendezvous node.
pub open spec fn book_with(
    book: PeerBookModel,
    peer: Seq<char>,
    connection: u64,
    relayed: bool,
) -> PeerBookModel {
    let old = links(book, peer);
    PeerBookModel {
        routes: store(
            book.routes,
            peer,
            PeerConnectionRoutesModel {
                direct: if relayed {
                    old.direct
                } else {
                    with_item(old.direct, connection)
                },
                relayed: if relayed {
                    with_item(old.relayed, connection)
                } else {
                    old.relayed
                },
            },
        ),
        explicit: if book.rendezvous.contains(peer) || book.explicit.contains(peer) {
            book.explicit
        } else {
            book.explicit.push(peer)
        },
        ..book
    }
}

/// What is told of a peer that messages are sent to from now on.
pub open spec fn taken_up(book: PeerBookModel, peer: Seq<char>) -> Seq<EffectModel> {
    if book.rendezvous.contains(peer) || book.explicit.contains(peer) {
        Seq::empty()
    } else {
        seq![
            EffectModel::AddExplicitPeer(peer),
            said("tracking "@ + peer + " as gossip peer"@),
        ]
    }
}

/// What follows a connection: at a rendezvous node this peer registers and looks for others; the
/// peers are counted, and what this peer knows is told.
pub open spec fn follows_a_connection(session: SessionModel, peer: Seq<char>) -> Seq<TaskModel> {
    if session.peers.rendezvous.contains(peer) {
        seq![
            TaskModel::RegisterNode { node: peer },
            TaskModel::Perform(
                seq![
                    EffectModel::Discover(peer),
                    said("discovering peers via rendezvous "@ + peer + " in "@ + session.topic),
                ],
            ),
            TaskModel::CountPeers,
        ] + welcomed()
    } else {
        seq![TaskModel::CountPeers] + welcomed()
    }
}

/// A peer that is connected through a relay is given time to subscribe, if it has not, and is then
/// tried.
#[verifier::rlimit(80)]
pub proof fn a_relayed_connection_comes_up(
    session: SessionModel,
    peer: Seq<char>,
    connection: u64,
    relayed: bool,
    remote: Seq<u8>,
    fresh: Seq<char>,
    at: WorldModel,
)
    requires
        relayed || has_relay(remote),
    ensures
        ({
            let event = NetworkEventModel::ConnectionEstablished {
                peer: peer,
                connection: connection,
                relayed: relayed,
                remote: remote,
            };
            let book = book_with(session.peers, peer, connection, true);
            let waits = !session.peers.rendezvous.contains(peer)
                && !session.peers.subscribers.contains(peer) && lookup(
                session.peers.warmups,
                peer,
            ) is None;
            let step = session.network_event(event, fresh, at);
            &&& step.effects == taken_up(session.peers, peer).push(
                said("connected "@ + peer + " via relay"@),
            ) + (if waits {
                seq![told_to_wait(peer)]
            } else {
                Seq::empty()
            })
            &&& step.after == (SessionModel {
                peers: if waits {
                    PeerBookModel {
                        warmups: store(
                            session.peers.warmups,
                            peer,
                            GossipsubWarmupModel { started_at: at.now.mono_nanos },
                        ),
                        ..book
                    }
                } else {
                    book
                },
                agenda: seq![TaskModel::Promote { peer: peer }] + follows_a_connection(
                    session,
                    peer,
                ) + session.agenda,
                ..session
            })
        }),
{
    an_address_leads_to_the_last_peer(remote, peer);
    let event = NetworkEventModel::ConnectionEstablished {
        peer: peer,
        connection: connection,
        relayed: relayed,
        remote: remote,
    };
    let step = session.network_event(event, fresh, at);
    assert(session.welcome(peer) =~= follows_a_connection(session, peer));
    assert(step.after.agenda =~= seq![TaskModel::Promote { peer: peer }] + follows_a_connection(
        session,
        peer,
    ) + session.agenda);
}

/// What becomes of a direct connection. One to a peer that is also connected through a relay and
/// has not subscribed comes too early until the peer has had its time: it is closed again. A peer
/// that has subscribed needs its relays no longer.
#[verifier::rlimit(100)]
pub proof fn a_direct_connection_comes_up(
    session: SessionModel,
    peer: Seq<char>,
    connection: u64,
    remote: Seq<u8>,
    fresh: Seq<char>,
    at: WorldModel,
)
    requires
        !has_relay(remote),
    ensures
        ({
            let event = NetworkEventModel::ConnectionEstablished {
                peer: peer,
                connection: connection,
                relayed: false,
                remote: remote,
            };
            let book = book_with(session.peers, peer, connection, false);
            let trusted = PeerBookModel { backoffs: discard(book.backoffs, peer), ..book };
            let relays = links(session.peers, peer).relayed;
            let subscribed = session.peers.subscribers.contains(peer);
            let ready = has_had_its_time(session.peers, peer, at.now.mono_nanos);
            let known = taken_up(session.peers, peer);
            let rest = follows_a_connection(session, peer) + session.agenda;
            let step = session.network_event(event, fresh, at);
            &&& subscribed ==> {
                &&& step.effects == known.push(EffectModel::CloseConnections(relays))
                &&& step.after == (SessionModel {
                    peers: trusted,
                    agenda: seq![TaskModel::RelaysClosed { peer: peer, promoted: true }] + rest,
                    ..session
                })
            }
            &&& !subscribed && relays.len() == 0 ==> {
                &&& step.effects == known.push(said("connected "@ + peer + " directly"@))
                &&& step.after == (SessionModel { peers: trusted, agenda: rest, ..session })
            }
            &&& !subscribed && relays.len() > 0 && ready ==> {
                &&& step.effects == known.push(told_of_the_end(peer)).push(
                    said(
                        "promoted "@ + peer
                            + " to direct connection after gossip warmup timeout; keeping relay until chat subscription is ready"@,
                    ),
                )
                &&& step.after == (SessionModel {
                    peers: PeerBookModel { warmups: discard(book.warmups, peer), ..trusted },
                    agenda: rest,
                    ..session
                })
            }
            &&& !subscribed && relays.len() > 0 && !ready ==> {
                &&& step.effects == known + (if lookup(session.peers.warmups, peer) is None {
                    seq![told_to_wait(peer)]
                } else {
                    Seq::empty()
                }) + seq![EffectModel::CloseConnections(seq![connection])]
                &&& step.after == (SessionModel {
                    peers: if lookup(session.peers.warmups, peer) is None {
                        PeerBookModel {
                            warmups: store(
                                session.peers.warmups,
                                peer,
                                GossipsubWarmupModel { started_at: at.now.mono_nanos },
                            ),
                            ..book
                        }
                    } else {
                        book
                    },
                    agenda: seq![TaskModel::EarlyClosed { peer: peer }] + rest,
                    ..session
                })
            }
        }),
{
    an_address_leads_to_the_last_peer(remote, peer);
    let old = links(session.peers, peer);
    lookup_of_store(
        session.peers.routes,
        peer,
        PeerConnectionRoutesModel {
            direct: with_item(old.direct, connection),
            relayed: old.relayed,
        },
        peer,
    );
    assert(session.welcome(peer) =~= follows_a_connection(session, peer));
}

/// What the user is told once connections that were to be closed are closed.
#[verifier::rlimit(60)]
pub proof fn closed_connections_are_told(
    session: SessionModel,
    peer: Seq<char>,
    closed: usize,
    fresh: Seq<char>,
    at: WorldModel,
)
    ensures
        ({
            let outcome = OutcomeModel::Count(closed);
            let promoted = session.run(
                TaskModel::RelaysClosed { peer: peer, promoted: true },
                outcome,
                fresh,
                at,
            );
            let ready = session.run(
                TaskModel::RelaysClosed { peer: peer, promoted: false },
                outcome,
                fresh,
                at,
            );
            let early = session.run(TaskModel::EarlyClosed { peer: peer }, outcome, fresh, at);
            &&& promoted.after == session
            &&& ready.after == session
            &&& early.after == session
            &&& promoted.effects == seq![
                said(
                    if closed > 0 {
                        "promoted "@ + peer + " to direct connection; closing "@ + decimal(
                            closed as nat,
                        ) + " relay link(s)"@
                    } else {
                        "connected "@ + peer + " directly"@
                    },
                ),
            ]
            &&& ready.effects == if closed > 0 {
                seq![
                    said(
                        "chat ready with "@ + peer + "; closing "@ + decimal(closed as nat)
                            + " relay link(s)"@,
                    ),
                ]
            } else {
                Seq::empty()
            }
            &&& early.effects == seq![
                said(
                    if closed > 0 {
                        "closed early direct connection to "@ + peer
                            + "; waiting for chat subscription or warmup timeout"@
                    } else {
                        "early direct connection to "@ + peer
                            + " is waiting for chat subscription or warmup timeout"@
                    },
                ),
            ]
        }),
{
}

/// The relays of a peer are closed if it is reached directly, and only then.
pub proof fn relays_give_way_to_direct_connections(
    session: SessionModel,
    peer: Seq<char>,
    outcome: OutcomeModel,
    fresh: Seq<char>,
    at: WorldModel,
)
    ensures
        session.run(TaskModel::CloseRelays { peer: peer }, outcome, fresh, at) == if links(
            session.peers,
            peer,
        ).direct.len() > 0 {
            Step {
                after: SessionModel {
                    agenda: seq![TaskModel::RelaysClosed { peer: peer, promoted: false }]
                        + session.agenda,
                    ..session
                },
                effects: seq![
                    EffectModel::CloseConnections(links(session.peers, peer).relayed),
                ],
            }
        } else {
            Step { after: session, effects: Seq::empty() }
        },
{
}

/// The number of peers that is shown is that of the peers that are connected.
pub proof fn connected_peers_are_counted(
    session: SessionModel,
    outcome: OutcomeModel,
    fresh: Seq<char>,
    at: WorldModel,
)
    ensures
        session.run(TaskModel::CountPeers, outcome, fresh, at) == (Step {
            after: session,
            effects: seq![
                EffectModel::Ui(UiEventModel::PeerCount(at.connected.len() as usize)),
            ],
        }),
{
}

/// The connections to a peer once one has closed; a peer without any is forgotten.
pub open spec fn routes_without(
    book: PeerBookModel,
    peer: Seq<char>,
    connection: u64,
    relayed: bool,
) -> Seq<(Seq<char>, PeerConnectionRoutesModel)> {
    let old = links(book, peer);
    let left = PeerConnectionRoutesModel {
        direct: if relayed {
            old.direct
        } else {
            without_item(old.direct, connection)
        },
        relayed: if relayed {
            without_item(old.relayed, connection)
        } else {
            old.relayed
        },
    };
    if lookup(book.routes, peer) is None {
        book.routes
    } else if left.direct.len() == 0 && left.relayed.len() == 0 {
        discard(book.routes, peer)
    } else {
        store(book.routes, peer, left)
    }
}

/// A connection that closes is forgotten. While others to the peer are left, that is all. With the
/// last one the peer is gone: it is not waited for, nor sent to, and its claim to a name is void.
#[verifier::rlimit(80)]
pub proof fn a_connection_closes(
    session: SessionModel,
    peer: Seq<char>,
    connection: u64,
    relayed: bool,
    remote: Seq<u8>,
    remaining: u32,
    fresh: Seq<char>,
    at: WorldModel,
)
    ensures
        ({
            let event = NetworkEventModel::ConnectionClosed {
                peer: peer,
                connection: connection,
                relayed: relayed,
                remote: remote,
                remaining: remaining,
            };
            let was_relayed = relayed || has_relay(remote);
            let step = session.network_event(event, fresh, at);
            let book = PeerBookModel {
                routes: routes_without(session.peers, peer, connection, was_relayed),
                ..session.peers
            };
            let names = session.names.forget(peer, oneself(session));
            &&& remaining > 0 ==> step == (Step {
                after: SessionModel { peers: book, ..session },
                effects: seq![
                    said(
                        if was_relayed {
                            "relay"@
                        } else {
                            "direct"@
                        } + " connection closed "@ + peer + "; "@ + decimal(remaining as nat)
                            + " link(s) remain"@,
                    ),
                ],
            })
            &&& remaining == 0 ==> {
                &&& step.after == (SessionModel {
                    peers: PeerBookModel {
                        backoffs: discard(book.backoffs, peer),
                        subscribers: without_item(book.subscribers, peer),
                        warmups: discard(book.warmups, peer),
                        explicit: without_item(book.explicit, peer),
                        ..book
                    },
                    names: names,
                    pending: match session.pending {
                        Some(pending) => Some(
                            PendingPlaybackModel {
                                expected_peers: without_item(pending.expected_peers, peer),
                                ready_peers: without_item(pending.ready_peers, peer),
                                ..pending
                            },
                        ),
                        None => None,
                    },
                    agenda: seq![
                        TaskModel::MaybeStart,
                        told_at_length("playback start failed: "@),
                    ] + session.agenda,
                    ..session
                })
                &&& step.effects == (if session.peers.explicit.contains(peer) {
                    seq![EffectModel::RemoveExplicitPeer(peer)]
                } else {
                    Seq::empty()
                }) + seq![said("disconnected "@ + peer)] + (if session.names.conflicts.len() > 0
                    && names.conflicts.len() == 0 {
                    seq![said("name '"@ + session.name + "' is available again"@)]
                } else {
                    Seq::empty()
                }) + seq![
                    EffectModel::Ui(UiEventModel::PeerCount(at.connected.len() as usize)),
                ]
            }
        }),
{
    an_address_leads_to_the_last_peer(remote, peer);
}

/// A peer that subscribes to the room is told of what this peer knows, and then tried and freed of
/// its relays. One that unsubscribes is no longer a subscriber. Other rooms do not matter.
#[verifier::rlimit(60)]
pub proof fn peers_come_to_the_room_and_leave(
    session: SessionModel,
    peer: Seq<char>,
    topic: Seq<char>,
    fresh: Seq<char>,
    at: WorldModel,
)
    ensures
        ({
            let comes = session.network_event(
                NetworkEventModel::Subscribed { peer: peer, topic: topic },
                fresh,
                at,
            );
            let leaves = session.network_event(
                NetworkEventModel::Unsubscribed { peer: peer, topic: topic },
                fresh,
                at,
            );
            &&& topic != session.topic ==> comes == (Step {
                after: session,
                effects: Seq::empty(),
            }) && leaves == (Step { after: session, effects: Seq::empty() })
            &&& topic == session.topic ==> comes == (Step {
                after: SessionModel {
                    peers: PeerBookModel {
                        subscribers: with_item(session.peers.subscribers, peer),
                        warmups: discard(session.peers.warmups, peer),
                        ..session.peers
                    },
                    agenda: seq![
                        TaskModel::TriggerSync,
                        told_in_short("sync summary failed: "@),
                        TaskModel::Promote { peer: peer },
                        TaskModel::CloseRelays { peer: peer },
                    ] + session.agenda,
                    ..session
                },
                effects: seq![said("peer "@ + peer + " subscribed to chat"@)],
            })
            &&& topic == session.topic ==> leaves == (Step {
                after: SessionModel {
                    peers: PeerBookModel {
                        subscribers: without_item(session.peers.subscribers, peer),
                        ..session.peers
                    },
                    ..session
                },
                effects: seq![said("peer "@ + peer + " unsubscribed from chat"@)],
            })
        }),
{
}

proof fn those_whose_time_is_over(
    warmups: Seq<(Seq<char>, GossipsubWarmupModel)>,
    now: u64,
)
    ensures
        expired_warmups(warmups, now) == warmups.filter(
            |entry: (Seq<char>, GossipsubWarmupModel)|
                now >= entry.1.started_at + 5_000_000_000,
        ).map_values(|entry: (Seq<char>, GossipsubWarmupModel)| entry.0),
    decreases warmups.len(),
{
    reveal(Seq::filter);
    let over = |entry: (Seq<char>, GossipsubWarmupModel)|
        now >= entry.1.started_at + 5_000_000_000;
    let peer_of = |entry: (Seq<char>, GossipsubWarmupModel)| entry.0;
    if warmups.len() > 0 {
        those_whose_time_is_over(warmups.drop_last(), now);
        let before = warmups.drop_last().filter(over);
        assert(over(warmups.last()) == warmups.last().1.expired(now));
        if over(warmups.last()) {
            assert(before.push(warmups.last()).map_values(peer_of) =~= before.map_values(
                peer_of,
            ).push(warmups.last().0));
        }
    } else {
        assert(warmups.filter(over).map_values(peer_of) =~= Seq::<Seq<char>>::empty());
    }
}

/// From time to time every peer that is connected is tried, and more often every peer whose five
/// seconds to subscribe are over.
pub proof fn all_peers_are_tried_from_time_to_time(session: SessionModel, at: WorldModel)
    ensures
        ({
            let routes = session.peers.routes;
            let over = session.peers.warmups.filter(
                |entry: (Seq<char>, GossipsubWarmupModel)|
                    at.now.mono_nanos >= entry.1.started_at + 5_000_000_000,
            );
            &&& session.tick(Tick::Promotion, at) == (Step {
                after: SessionModel {
                    agenda: Seq::new(
                        routes.len(),
                        |i: int| TaskModel::Promote { peer: routes[i].0 },
                    ) + session.agenda,
                    ..session
                },
                effects: Seq::empty(),
            })
            &&& session.tick(Tick::Warmup, at) == (Step {
                after: SessionModel {
                    agenda: Seq::new(over.len(), |i: int| TaskModel::Promote { peer: over[i].0 })
                        + session.agenda,
                    ..session
                },
                effects: Seq::empty(),
            })
        }),
{
    let routes = session.peers.routes;
    let over = session.peers.warmups.filter(
        |entry: (Seq<char>, GossipsubWarmupModel)|
            at.now.mono_nanos >= entry.1.started_at + 5_000_000_000,
    );
    those_whose_time_is_over(session.peers.warmups, at.now.mono_nanos);
    assert(promotions(crate::collections::keys_of(routes)) =~= Seq::new(
        routes.len(),
        |i: int| TaskModel::Promote { peer: routes[i].0 },
    ));
    assert(promotions(expired_warmups(session.peers.warmups, at.now.mono_nanos)) =~= Seq::new(
        over.len(),
        |i: int| TaskModel::Promote { peer: over[i].0 },
    ));
}

/// The rest of a pause is what is missing from it; there is none once it is over, or if the peer was
/// never tried.
pub proof fn a_pause_runs_out(backoff: DirectPromotionBackoffModel, now: u64)
    ensures
        ({
            let pause = pause_after(backoff.failures) * 1_000_000_000;
            let rest = backoff.remaining(now);
            &&& backoff.last_attempt is None ==> rest is None
            &&& backoff.last_attempt is Some ==> {
                let since = backoff.last_attempt->0;
                &&& rest is None <==> now > since + pause
                &&& since <= now <= since + pause ==> rest == Some(since + pause - now)
                &&& now < since ==> rest == Some(pause)
            }
            &&& backoff.due(now) <==> backoff.failures < 10 && may_be_tried(backoff, now)
        }),
{
}

} // verus!
