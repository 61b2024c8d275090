//! How peers find each other: at rendezvous nodes, nearby, and by word of mouth.
use crate::address::{direct_peer_address, peer_address, prioritized};
use crate::collections::lookup_of_store;
use crate::effect::{
    EffectModel, NetworkEventModel, OutcomeModel, PeerAddressModel, RegistrationModel, TaskModel, Tick,
    WorldModel,
};
use crate::laws::addressing::{every_direct_address_is_kept, every_good_address_is_used, good_forms};
use crate::laws::basics::{one_less, one_more, said, several_more, told_either_way, told_in_short};
use crate::laws::talking::oneself;
use crate::routes::{direct_forms, with_items, PeerBookModel};
use crate::session::links::{common, followed, lookups, promotions};
use crate::session::SessionModel;
use crate::text::decimal;
use vstd::prelude::*;

verus! {

/// A registration is worth following: it is of another peer and has an address that is good for it.
pub open spec fn is_worth_following(registration: RegistrationModel, local: Seq<char>) -> bool {
    registration.peer != local && exists|i: int|
        0 <= i < registration.addresses.len() && peer_address(
            registration.peer,
            #[trigger] registration.addresses[i],
        ) is Some
}

/// The peer of a registration is followed up, at all addresses that are good for it.
pub open spec fn followed_up(registration: RegistrationModel) -> TaskModel {
    TaskModel::FollowRegistration {
        peer: registration.peer,
        addresses: good_forms(registration.peer, registration.addresses),
    }
}

/// A task follows up one of the registrations, which is worth it.
pub open spec fn follows_one_of(
    task: TaskModel,
    registrations: Seq<RegistrationModel>,
    local: Seq<char>,
) -> bool {
    exists|i: int|
        0 <= i < registrations.len() && is_worth_following(registrations[i], local) && task
            == followed_up(#[trigger] registrations[i])
}

proof fn all_are_followed(registrations: Seq<RegistrationModel>, local: Seq<char>)
    ensures
        forall|i: int|
            0 <= i < registrations.len() && is_worth_following(#[trigger] registrations[i], local)
                ==> followed(registrations, local).contains(followed_up(registrations[i])),
        forall|j: int|
            0 <= j < followed(registrations, local).len() ==> follows_one_of(
                #[trigger] followed(registrations, local)[j],
                registrations,
                local,
            ),
    decreases registrations.len(),
{
    let tasks = followed(registrations, local);
    if registrations.len() > 0 {
        let fewer = registrations.drop_last();
        let before = followed(fewer, local);
        let n = registrations.len() - 1;
        let last = registrations.last();
        all_are_followed(fewer, local);
        every_good_address_is_used(last.peer, last.addresses);
        assert forall|i: int|
            0 <= i < registrations.len() && is_worth_following(
                #[trigger] registrations[i],
                local,
            ) implies tasks.contains(followed_up(registrations[i])) by {
            if i < n {
                assert(fewer[i] == registrations[i]);
                assert(before.contains(followed_up(fewer[i])));
                let k = choose|k: int|
                    0 <= k < before.len() && before[k] == followed_up(registrations[i]);
                assert(tasks[k] == before[k]);
            } else {
                assert(tasks.last() == followed_up(last));
                assert(tasks[tasks.len() - 1] == followed_up(last));
            }
        }
        assert forall|j: int| 0 <= j < tasks.len() implies follows_one_of(
            #[trigger] tasks[j],
            registrations,
            local,
        ) by {
            if j < before.len() {
                assert(tasks[j] == before[j]);
                assert(follows_one_of(before[j], fewer, local));
                let i = choose|i: int|
                    0 <= i < fewer.len() && is_worth_following(fewer[i], local) && before[j]
                        == followed_up(#[trigger] fewer[i]);
                assert(registrations[i] == fewer[i]);
                assert(is_worth_following(registrations[i], local));
            } else {
                assert(is_worth_following(registrations[n], local));
                assert(tasks[j] == followed_up(registrations[n]));
            }
        }
    }
}

/// Every peer that a rendezvous node names is followed up, however many there are, if it is another
/// one and has an address that is good; nobody else is. The number of those is told.
#[verifier::rlimit(60)]
pub proof fn every_peer_found_is_followed_up(
    session: SessionModel,
    node: Seq<char>,
    registrations: Seq<RegistrationModel>,
    fresh: Seq<char>,
    at: WorldModel,
)
    ensures
        ({
            let event = NetworkEventModel::Discovered { node: node, registrations: registrations };
            let step = session.network_event(event, fresh, at);
            let agenda = step.after.agenda;
            let count = agenda.len() - session.agenda.len() - 1;
            &&& step.effects.len() == 0
            &&& step.after == (SessionModel { agenda: agenda, ..session })
            &&& count >= 0
            &&& agenda.skip(count + 1) == session.agenda
            &&& agenda[count] == TaskModel::Perform(
                seq![
                    said(
                        "rendezvous "@ + node + " returned "@ + decimal(count as nat)
                            + " peer address set(s)"@,
                    ),
                ],
            )
            &&& forall|i: int|
                0 <= i < registrations.len() && is_worth_following(
                    #[trigger] registrations[i],
                    session.local,
                ) ==> agenda.take(count).contains(followed_up(registrations[i]))
            &&& forall|j: int|
                0 <= j < count ==> follows_one_of(
                    #[trigger] agenda[j],
                    registrations,
                    session.local,
                )
        }),
{
    let event = NetworkEventModel::Discovered { node: node, registrations: registrations };
    let agenda = session.network_event(event, fresh, at).after.agenda;
    let count = agenda.len() - session.agenda.len() - 1;
    let tasks = followed(registrations, session.local);
    all_are_followed(registrations, session.local);
    assert(count == tasks.len());
    assert(agenda.take(count) =~= tasks);
    assert(agenda.skip(count + 1) =~= session.agenda);
    assert forall|j: int| 0 <= j < count implies follows_one_of(
        #[trigger] agenda[j],
        registrations,
        session.local,
    ) by {
        assert(agenda[j] == tasks[j]);
    }
}

/// One registration more is followed up after the others if it is worth following, and changes
/// nothing of how the others are.
#[verifier::rlimit(60)]
pub proof fn one_registration_more(
    session: SessionModel,
    node: Seq<char>,
    registrations: Seq<RegistrationModel>,
    registration: RegistrationModel,
    fresh: Seq<char>,
    at: WorldModel,
)
    ensures
        ({
            let more = NetworkEventModel::Discovered {
                node: node,
                registrations: registrations.push(registration),
            };
            let fewer = NetworkEventModel::Discovered { node: node, registrations: registrations };
            let before = session.network_event(fewer, fresh, at).after.agenda;
            let after = session.network_event(more, fresh, at).after.agenda;
            let count = before.len() - session.agenda.len() - 1;
            &&& registrations.len() == 0 ==> count == 0
            &&& after.take(count) == before.take(count)
            &&& after.len() == if is_worth_following(registration, session.local) {
                before.len() + 1
            } else {
                before.len()
            }
            &&& is_worth_following(registration, session.local) ==> after[count] == followed_up(
                registration,
            )
        }),
{
    let all = registrations.push(registration);
    assert(all.drop_last() =~= registrations);
    assert(all.last() == registration);
    every_good_address_is_used(registration.peer, registration.addresses);
    let more = NetworkEventModel::Discovered { node: node, registrations: all };
    let fewer = NetworkEventModel::Discovered { node: node, registrations: registrations };
    let before = session.network_event(fewer, fresh, at).after.agenda;
    let after = session.network_event(more, fresh, at).after.agenda;
    let tasks = followed(registrations, session.local);
    assert(before.take(tasks.len() as int) =~= tasks);
    assert(after.take(tasks.len() as int) =~= tasks);
}

/// A direct address of a peer is news if it was not known.
pub open spec fn brings_news(book: PeerBookModel, peer: Seq<char>, heard: Seq<Seq<u8>>) -> bool {
    exists|i: int|
        0 <= i < heard.len() && direct_peer_address(peer, #[trigger] heard[i]) is Some
            && !book.known_addresses(peer).contains(direct_peer_address(peer, heard[i])->0)
}

proof fn more_items_are_more<T>(items: Seq<T>, more: Seq<T>)
    ensures
        with_items(items, more).len() >= items.len(),
        with_items(items, more).len() > items.len() <==> exists|i: int|
            0 <= i < more.len() && !items.contains(#[trigger] more[i]),
    decreases more.len(),
{
    if more.len() > 0 {
        let fewer = more.drop_last();
        let before = with_items(items, fewer);
        more_items_are_more(items, fewer);
        one_more(before, more.last(), more.last());
        several_more(items, fewer, more.last());
        let n = more.len() - 1;
        if exists|i: int| 0 <= i < fewer.len() && !items.contains(#[trigger] fewer[i]) {
            let i = choose|i: int| 0 <= i < fewer.len() && !items.contains(#[trigger] fewer[i]);
            assert(more[i] == fewer[i]);
        }
        if exists|i: int| 0 <= i < more.len() && !items.contains(#[trigger] more[i]) {
            let i = choose|i: int| 0 <= i < more.len() && !items.contains(#[trigger] more[i]);
            if i < n {
                assert(fewer[i] == more[i]);
            }
        }
        if !before.contains(more.last()) {
            assert(!items.contains(more[n]));
        } else if with_items(items, fewer).len() == items.len() {
            if fewer.contains(more.last()) {
                let i = choose|i: int| 0 <= i < fewer.len() && fewer[i] == more.last();
                assert(items.contains(fewer[i]));
            }
        }
    }
}

/// What a book of peers knows of the addresses of a peer once some were heard of: those that it
/// knew, and those among them that are good without a relay. Of other peers it knows what it knew.
pub proof fn direct_addresses_are_remembered(
    book: PeerBookModel,
    peer: Seq<char>,
    heard: Seq<Seq<u8>>,
    form: Seq<u8>,
    other: Seq<char>,
)
    ensures
        ({
            let after = book.with_addresses(peer, heard);
            &&& after.known_addresses(peer).contains(form) <==> book.known_addresses(peer).contains(
                form,
            ) || exists|i: int|
                0 <= i < heard.len() && direct_peer_address(peer, #[trigger] heard[i]) == Some(form)
            &&& other != peer ==> after.known_addresses(other) == book.known_addresses(other)
            &&& after == (PeerBookModel { addresses: after.addresses, ..book })
            &&& book.news(peer, heard) > 0 <==> brings_news(book, peer, heard)
        }),
{
    let known = book.known_addresses(peer);
    let forms = direct_forms(peer, heard);
    every_direct_address_is_kept(peer, heard, form);
    several_more(known, forms, form);
    more_items_are_more(known, forms);
    if forms.len() > 0 {
        lookup_of_store(book.addresses, peer, with_items(known, forms), other);
    }
    if exists|i: int| 0 <= i < forms.len() && !known.contains(#[trigger] forms[i]) {
        let k = choose|i: int| 0 <= i < forms.len() && !known.contains(#[trigger] forms[i]);
        every_direct_address_is_kept(peer, heard, forms[k]);
        assert(forms.contains(forms[k]));
    }
    if brings_news(book, peer, heard) {
        let i = choose|i: int|
            0 <= i < heard.len() && direct_peer_address(peer, #[trigger] heard[i]) is Some
                && !known.contains(direct_peer_address(peer, heard[i])->0);
        let good = direct_peer_address(peer, heard[i])->0;
        every_direct_address_is_kept(peer, heard, good);
        let k = choose|k: int| 0 <= k < forms.len() && forms[k] == good;
        assert(!known.contains(forms[k]));
    }
}

/// A peer is known to be one that messages are always sent to, its direct addresses are remembered,
/// and if any of them is news its failures are forgotten. Nothing else of the book changes.
pub open spec fn is_noted(
    before: PeerBookModel,
    after: PeerBookModel,
    peer: Seq<char>,
    heard: Seq<Seq<u8>>,
) -> bool {
    &&& after == (PeerBookModel {
        explicit: after.explicit,
        addresses: before.with_addresses(peer, heard).addresses,
        backoffs: if brings_news(before, peer, heard) {
            crate::collections::discard(before.backoffs, peer)
        } else {
            before.backoffs
        },
        ..before
    })
    &&& after.explicit.contains(peer)
    &&& forall|other: Seq<char>|
        other != peer ==> (#[trigger] after.explicit.contains(other) == before.explicit.contains(
            other,
        ))
}

proof fn noting_is_noted(book: PeerBookModel, peer: Seq<char>, heard: Seq<Seq<u8>>)
    ensures
        ({
            let listed = PeerBookModel {
                explicit: crate::collections::with_item(book.explicit, peer),
                ..book
            }.with_addresses(peer, heard);
            is_noted(
                book,
                if book.news(peer, heard) > 0 {
                    listed.with_chance(peer)
                } else {
                    listed
                },
                peer,
                heard,
            )
        }),
{
    direct_addresses_are_remembered(book, peer, heard, Seq::empty(), peer);
    let more = crate::collections::with_item(book.explicit, peer);
    one_more(book.explicit, peer, peer);
    assert forall|other: Seq<char>| other != peer implies (#[trigger] more.contains(other)
        == book.explicit.contains(other)) by {
        one_more(book.explicit, peer, other);
    }
}

/// A peer that was found at a rendezvous node is noted. It is dialled at all of its addresses unless
/// it is connected; then it is tried for a direct connection.
#[verifier::rlimit(80)]
pub proof fn a_peer_found_is_dialled(
    session: SessionModel,
    peer: Seq<char>,
    addresses: Seq<Seq<u8>>,
    outcome: OutcomeModel,
    fresh: Seq<char>,
    at: WorldModel,
)
    ensures
        ({
            let task = TaskModel::FollowRegistration { peer: peer, addresses: addresses };
            let step = session.run(task, outcome, fresh, at);
            let new = if session.peers.explicit.contains(peer) {
                Seq::empty()
            } else {
                seq![
                    EffectModel::AddExplicitPeer(peer),
                    said("tracking "@ + peer + " as rendezvous gossip peer"@),
                ]
            };
            &&& is_noted(session.peers, step.after.peers, peer, addresses)
            &&& at.connected.contains(peer) ==> {
                &&& step.effects == new
                &&& step.after.agenda == seq![TaskModel::Promote { peer: peer }] + session.agenda
            }
            &&& !at.connected.contains(peer) ==> {
                &&& step.effects == new.push(
                    EffectModel::Dial {
                        peer: peer,
                        addresses: prioritized(addresses),
                        always: false,
                    },
                )
                &&& step.after.agenda == seq![
                    told_either_way(
                        "dialing discovered peer "@ + peer + " ("@ + decimal(addresses.len())
                            + " candidate address(es))"@,
                        "rendezvous discovered peer dial failed "@ + peer + ": "@,
                    ),
                ] + session.agenda
            }
            &&& step.after == (SessionModel {
                peers: step.after.peers,
                agenda: step.after.agenda,
                ..session
            })
        }),
{
    noting_is_noted(session.peers, peer, addresses);
}

/// Addresses of a peer that are heard of are remembered; if any is news, its failures are forgotten
/// and it is tried.
#[verifier::rlimit(60)]
pub proof fn new_addresses_are_tried(
    session: SessionModel,
    peer: Seq<char>,
    heard: Seq<Seq<u8>>,
    address: Seq<u8>,
    fresh: Seq<char>,
    at: WorldModel,
)
    ensures
        ({
            let identified = session.network_event(
                NetworkEventModel::Identified { peer: peer, addresses: heard },
                fresh,
                at,
            );
            let told = session.network_event(
                NetworkEventModel::NewExternalAddrOfPeer { peer: peer, address: address },
                fresh,
                at,
            );
            &&& identified.effects.len() == 0
            &&& told.effects.len() == 0
            &&& is_tried_if_news(session, identified.after, peer, heard)
            &&& is_tried_if_news(session, told.after, peer, seq![address])
        }),
{
    direct_addresses_are_remembered(session.peers, peer, heard, Seq::empty(), peer);
    direct_addresses_are_remembered(session.peers, peer, seq![address], Seq::empty(), peer);
}

/// The addresses of a peer are remembered, and it is tried anew if any is news.
pub open spec fn is_tried_if_news(
    before: SessionModel,
    after: SessionModel,
    peer: Seq<char>,
    heard: Seq<Seq<u8>>,
) -> bool {
    let known = before.peers.with_addresses(peer, heard);
    after == if brings_news(before.peers, peer, heard) {
        SessionModel {
            peers: PeerBookModel {
                backoffs: crate::collections::discard(known.backoffs, peer),
                ..known
            },
            agenda: seq![TaskModel::Promote { peer: peer }] + before.agenda,
            ..before
        }
    } else {
        SessionModel { peers: known, ..before }
    }
}

/// What follows when peers have met: what this peer knows is told, and its music.
pub open spec fn welcomed() -> Seq<TaskModel> {
    seq![
        TaskModel::TriggerSync,
        told_in_short("sync summary failed: "@),
        TaskModel::MusicSnapshot,
        told_in_short("music snapshot failed: "@),
    ]
}

/// Peers that are found nearby are noted one after the other, and each is told; those with new
/// addresses are tried, each once, and then all are greeted.
#[verifier::rlimit(60)]
pub proof fn peers_nearby_are_noted(
    session: SessionModel,
    found: Seq<PeerAddressModel>,
    fresh: Seq<char>,
    at: WorldModel,
)
    ensures
        ({
            let step = session.network_event(NetworkEventModel::MdnsDiscovered(found), fresh, at);
            let all = session.sightings(found);
            &&& step.effects == all.effects
            &&& step.after == (SessionModel {
                peers: all.after.peers,
                agenda: Seq::new(
                    all.candidates.len(),
                    |i: int| TaskModel::Promote { peer: all.candidates[i] },
                ) + (if found.len() > 0 {
                    welcomed()
                } else {
                    Seq::empty()
                }) + session.agenda,
                ..session
            })
            &&& found.len() == 0 ==> all.after == session && all.effects.len() == 0
                && all.candidates.len() == 0
        }),
{
    let all = session.sightings(found);
    sightings_change_the_book_alone(session, found);
    assert(promotions(all.candidates) =~= Seq::new(
        all.candidates.len(),
        |i: int| TaskModel::Promote { peer: all.candidates[i] },
    ));
    let step = session.network_event(NetworkEventModel::MdnsDiscovered(found), fresh, at);
    assert(step.after.agenda =~= promotions(all.candidates) + (if found.len() > 0 {
        welcomed()
    } else {
        Seq::empty()
    }) + session.agenda);
}

proof fn sightings_change_the_book_alone(session: SessionModel, found: Seq<PeerAddressModel>)
    ensures
        session.sightings(found).after == (SessionModel {
            peers: session.sightings(found).after.peers,
            ..session
        }),
    decreases found.len(),
{
    if found.len() > 0 {
        sightings_change_the_book_alone(session, found.drop_last());
    }
}

/// One peer more that is found nearby is noted after the others: it is told, messages are sent to
/// it from then on, and it is among those that are tried if its address is news.
#[verifier::rlimit(80)]
pub proof fn one_peer_more_nearby(
    session: SessionModel,
    found: Seq<PeerAddressModel>,
    one: PeerAddressModel,
)
    ensures
        ({
            let before = session.sightings(found);
            let after = session.sightings(found.push(one));
            let news = brings_news(before.after.peers, one.peer, seq![one.address]);
            &&& is_noted(before.after.peers, after.after.peers, one.peer, seq![one.address])
            &&& after.effects == before.effects + (if before.after.peers.explicit.contains(
                one.peer,
            ) {
                seq![said("mDNS discovered "@ + one.peer)]
            } else {
                seq![
                    EffectModel::AddExplicitPeer(one.peer),
                    said("mDNS discovered "@ + one.peer),
                ]
            })
            &&& news ==> after.candidates.contains(one.peer)
            &&& !news ==> after.candidates == before.candidates
            &&& forall|other: Seq<char>|
                other != one.peer ==> (#[trigger] after.candidates.contains(other)
                    == before.candidates.contains(other))
        }),
{
    let all = found.push(one);
    assert(all.drop_last() =~= found);
    let before = session.sightings(found);
    let after = session.sightings(all);
    noting_is_noted(before.after.peers, one.peer, seq![one.address]);
    direct_addresses_are_remembered(
        before.after.peers,
        one.peer,
        seq![one.address],
        Seq::empty(),
        one.peer,
    );
    one_more(before.candidates, one.peer, one.peer);
    assert forall|other: Seq<char>| other != one.peer implies (#[trigger] after.candidates.contains(
        other,
    ) == before.candidates.contains(other)) by {
        one_more(before.candidates, one.peer, other);
    }
}

/// A peer nearby whose address is gone is told, loses that address and its claim to a name; messages
/// are no longer sent to it unless it is connected. What happens to several is that, one after the
/// other.
#[verifier::rlimit(80)]
pub proof fn a_peer_nearby_goes(
    session: SessionModel,
    lost: Seq<PeerAddressModel>,
    one: PeerAddressModel,
    fresh: Seq<char>,
    at: WorldModel,
)
    ensures
        ({
            let before = session.network_event(NetworkEventModel::MdnsExpired(lost), fresh, at);
            let after = session.network_event(
                NetworkEventModel::MdnsExpired(lost.push(one)),
                fresh,
                at,
            );
            let book = before.after.peers;
            let leaves = !at.connected.contains(one.peer) && book.explicit.contains(one.peer);
            &&& lost.len() == 0 ==> before.after == session && before.effects.len() == 0
            &&& after.after == (SessionModel {
                names: before.after.names.forget(one.peer, oneself(session)),
                peers: after.after.peers,
                ..before.after
            })
            &&& after.after.peers == (PeerBookModel {
                addresses: book.without_address(one.peer, one.address).addresses,
                explicit: after.after.peers.explicit,
                ..book
            })
            &&& !leaves ==> after.after.peers.explicit == book.explicit
            &&& leaves && book.explicit.no_duplicates() ==> !after.after.peers.explicit.contains(
                one.peer,
            )
            &&& forall|other: Seq<char>|
                other != one.peer ==> (#[trigger] after.after.peers.explicit.contains(other)
                    == book.explicit.contains(other))
            &&& after.effects == before.effects + (if before.after.names.conflicts.len() > 0
                && after.after.names.conflicts.len() == 0 {
                seq![said("name '"@ + session.name + "' is available again"@)]
            } else {
                Seq::empty()
            }) + (if leaves {
                seq![EffectModel::RemoveExplicitPeer(one.peer)]
            } else {
                Seq::empty()
            }) + seq![said("mDNS expired "@ + one.peer)]
        }),
{
    let all = lost.push(one);
    assert(all.drop_last() =~= lost);
    let before = session.sightings_lost(lost, at);
    losing_sight_keeps_the_name(session, lost, at);
    let book = before.after.peers;
    let after = session.sightings_lost(all, at);
    one_less(book.explicit, one.peer, one.peer);
    assert forall|other: Seq<char>| other != one.peer implies (
    #[trigger] after.after.peers.explicit.contains(other) == book.explicit.contains(other)) by {
        one_less(book.explicit, one.peer, other);
    }
    let said_of_it = before.after.sighting_lost(one, at).effects;
    assert(after.effects =~= before.effects + said_of_it);
    assert(after.effects =~= before.effects + (if before.after.names.conflicts.len() > 0
        && after.after.names.conflicts.len() == 0 {
        seq![said("name '"@ + session.name + "' is available again"@)]
    } else {
        Seq::empty()
    }) + (if !at.connected.contains(one.peer) && book.explicit.contains(one.peer) {
        seq![EffectModel::RemoveExplicitPeer(one.peer)]
    } else {
        Seq::empty()
    }) + seq![said("mDNS expired "@ + one.peer)]);
}

proof fn losing_sight_keeps_the_name(
    session: SessionModel,
    lost: Seq<PeerAddressModel>,
    at: WorldModel,
)
    ensures
        session.sightings_lost(lost, at).after.name == session.name,
        session.sightings_lost(lost, at).after.identity() == session.identity(),
    decreases lost.len(),
{
    if lost.len() > 0 {
        losing_sight_keeps_the_name(session, lost.drop_last(), at);
    }
}

/// An address that is gone is forgotten, and a peer without addresses with it; others keep theirs.
pub proof fn an_address_that_is_gone_is_forgotten(
    book: PeerBookModel,
    peer: Seq<char>,
    address: Seq<u8>,
    form: Seq<u8>,
    other: Seq<char>,
)
    requires
        crate::collections::distinct_keys(book.addresses),
        book.known_addresses(peer).no_duplicates(),
    ensures
        ({
            let after = book.without_address(peer, address);
            &&& after.known_addresses(peer).contains(form) <==> book.known_addresses(peer).contains(
                form,
            ) && direct_peer_address(peer, address) != Some(form)
            &&& other != peer ==> after.known_addresses(other) == book.known_addresses(other)
        }),
{
    if let Some(gone) = direct_peer_address(peer, address) {
        let known = book.known_addresses(peer);
        let left = crate::collections::without_item(known, gone);
        one_less(known, gone, form);
        one_less(known, gone, gone);
        lookup_of_store(book.addresses, peer, left, other);
        crate::collections::lookup_of_discard(book.addresses, peer, other);
        crate::collections::lookup_of_discard(book.addresses, peer, peer);
        if left.len() == 0 {
            assert(!left.contains(form));
        }
    }
}

proof fn common_are_common(texts: Seq<Seq<char>>, others: Seq<Seq<char>>, text: Seq<char>)
    ensures
        common(texts, others).contains(text) <==> texts.contains(text) && others.contains(text),
    decreases texts.len(),
{
    if texts.len() > 0 {
        let fewer = texts.drop_last();
        let before = common(fewer, others);
        let n = texts.len() - 1;
        common_are_common(fewer, others, text);
        if others.contains(texts.last()) {
            let all = before.push(texts.last());
            assert(all[before.len() as int] == texts.last());
            if before.contains(text) {
                let i = choose|i: int| 0 <= i < before.len() && before[i] == text;
                assert(all[i] == text);
            }
            if all.contains(text) && text != texts.last() {
                let i = choose|i: int| 0 <= i < all.len() && all[i] == text;
                assert(before[i] == text);
            }
        }
        assert(texts[n] == texts.last());
        if texts.contains(text) && text != texts.last() {
            let i = choose|i: int| 0 <= i < texts.len() && texts[i] == text;
            assert(fewer[i] == text);
        }
        if fewer.contains(text) {
            let i = choose|i: int| 0 <= i < fewer.len() && fewer[i] == text;
            assert(texts[i] == text);
        }
    }
}

/// The rendezvous nodes at which this peer registers and looks for others are all that are
/// connected.
pub proof fn all_connected_nodes_are_used(session: SessionModel, at: WorldModel, node: Seq<char>)
    ensures
        session.nodes_at_hand(at).contains(node) <==> session.peers.rendezvous.contains(node)
            && at.connected.contains(node),
{
    common_are_common(session.peers.rendezvous, at.connected, node);
}

/// From time to time this peer registers at each node at hand, and does so when an address that
/// goes through a relay is confirmed.
#[verifier::rlimit(60)]
pub proof fn this_peer_registers_at_each_node(
    session: SessionModel,
    address: Seq<u8>,
    fresh: Seq<char>,
    at: WorldModel,
)
    ensures
        ({
            let nodes = session.nodes_at_hand(at);
            let tasks = Seq::new(nodes.len(), |i: int| TaskModel::RegisterNode { node: nodes[i] });
            let ticked = session.tick(Tick::Register, at);
            let confirmed = session.network_event(
                NetworkEventModel::ExternalAddrConfirmed(address),
                fresh,
                at,
            );
            &&& ticked.effects.len() == 0
            &&& ticked.after == (SessionModel { agenda: tasks + session.agenda, ..session })
            &&& confirmed.effects == seq![
                said(
                    "confirmed external address "@ + crate::address::address_text(address),
                ),
            ]
            &&& confirmed.after == if crate::laws::addressing::has_relay(address) {
                ticked.after
            } else {
                session
            }
        }),
{
    crate::laws::addressing::an_address_leads_to_the_last_peer(address, session.local);
    let nodes = session.nodes_at_hand(at);
    let tasks = Seq::new(nodes.len(), |i: int| TaskModel::RegisterNode { node: nodes[i] });
    assert(session.tick(Tick::Register, at).after.agenda =~= tasks + session.agenda);
}

/// A registration is asked for once others can reach this peer, and put off until then.
pub proof fn registration_waits_for_an_address(
    session: SessionModel,
    node: Seq<char>,
    outcome: OutcomeModel,
    fresh: Seq<char>,
    at: WorldModel,
)
    ensures
        ({
            let step = session.run(TaskModel::RegisterNode { node: node }, outcome, fresh, at);
            &&& at.external_address ==> {
                &&& step.effects == seq![EffectModel::Register(node)]
                &&& step.after == (SessionModel {
                    agenda: seq![
                        told_either_way(
                            "registering with rendezvous "@ + node + " in "@ + session.topic,
                            "rendezvous register request failed "@ + node + ": "@,
                        ),
                    ] + session.agenda,
                    ..session
                })
            }
            &&& !at.external_address ==> {
                &&& step.after == session
                &&& step.effects == seq![
                    said(
                        "rendezvous register deferred "@ + node
                            + ": waiting for confirmed external address"@,
                    ),
                ]
            }
        }),
{
}

proof fn lookups_are_pairs(nodes: Seq<Seq<char>>, topic: Seq<char>)
    ensures
        lookups(nodes, topic).len() == 2 * nodes.len(),
        forall|i: int|
            0 <= i < nodes.len() ==> lookups(nodes, topic)[2 * i] == EffectModel::Discover(
                #[trigger] nodes[i],
            ),
        forall|i: int|
            0 <= i < nodes.len() ==> lookups(nodes, topic)[2 * i + 1] == said(
                "discovering peers via rendezvous "@ + (#[trigger] nodes[i]) + " in "@ + topic,
            ),
    decreases nodes.len(),
{
    if nodes.len() > 0 {
        let fewer = nodes.drop_last();
        lookups_are_pairs(fewer, topic);
        let n = nodes.len() - 1;
        assert forall|i: int| 0 <= i < nodes.len() implies lookups(nodes, topic)[2 * i]
            == EffectModel::Discover(#[trigger] nodes[i]) by {
            if i < n {
                assert(fewer[i] == nodes[i]);
            }
        }
        assert forall|i: int| 0 <= i < nodes.len() implies lookups(nodes, topic)[2 * i + 1] == said(
            "discovering peers via rendezvous "@ + (#[trigger] nodes[i]) + " in "@ + topic,
        ) by {
            if i < n {
                assert(fewer[i] == nodes[i]);
            }
        }
    }
}

/// From time to time peers are looked for at each node at hand.
pub proof fn peers_are_looked_for_at_each_node(session: SessionModel, at: WorldModel)
    ensures
        ({
            let nodes = session.nodes_at_hand(at);
            let step = session.tick(Tick::Discover, at);
            &&& step.after == session
            &&& step.effects.len() == 2 * nodes.len()
            &&& forall|i: int|
                0 <= i < nodes.len() ==> step.effects[2 * i] == EffectModel::Discover(
                    #[trigger] nodes[i],
                )
            &&& forall|i: int|
                0 <= i < nodes.len() ==> step.effects[2 * i + 1] == said(
                    "discovering peers via rendezvous "@ + (#[trigger] nodes[i]) + " in "@
                        + session.topic,
                )
        }),
{
    lookups_are_pairs(session.nodes_at_hand(at), session.topic);
}

} // verus!
