//! Which addresses are good for what.
use crate::address::{
    address_parts, address_text, direct_peer_address, last_peer, of_preference, peer_address,
    peer_part_bytes, preference, prioritized, PartModel,
};
use crate::routes::direct_forms;
use crate::session::links::{is_relayed, peer_forms};
use crate::session::startup::peer_at;
use vstd::prelude::*;

verus! {

/// Some component of an address stands for no host in particular.
pub open spec fn is_unspecified(bytes: Seq<u8>) -> bool {
    address_parts(bytes)->0.contains(PartModel::Ip4(0)) || address_parts(bytes)->0.contains(
        PartModel::Ip6(0),
    )
}

/// Some component of an address is a relay.
pub open spec fn has_relay(bytes: Seq<u8>) -> bool {
    address_parts(bytes)->0.contains(PartModel::P2pCircuit)
}

/// Some component of an address names this peer.
pub open spec fn mentions(bytes: Seq<u8>, peer: Seq<char>) -> bool {
    address_parts(bytes)->0.contains(PartModel::P2p(peer))
}

/// This peer is the last that an address names.
pub open spec fn ends_at(bytes: Seq<u8>, peer: Seq<char>) -> bool {
    let parts = address_parts(bytes)->0;
    exists|i: int|
        0 <= i < parts.len() && (#[trigger] parts[i]) == PartModel::P2p(peer) && forall|j: int|
            i < j < parts.len() ==> !((#[trigger] parts[j]) is P2p)
}

proof fn the_last_peer_is_last(parts: Seq<PartModel>)
    ensures
        match last_peer(parts) {
            Some(peer) => exists|i: int|
                0 <= i < parts.len() && (#[trigger] parts[i]) == PartModel::P2p(peer) && forall|
                    j: int,
                |
                    i < j < parts.len() ==> !((#[trigger] parts[j]) is P2p),
            None => forall|i: int| 0 <= i < parts.len() ==> !((#[trigger] parts[i]) is P2p),
        },
    decreases parts.len(),
{
    if parts.len() > 0 {
        let n = parts.len() - 1;
        if parts.last() is P2p {
            assert(parts[n] == PartModel::P2p(parts.last()->P2p_0));
        } else {
            the_last_peer_is_last(parts.drop_last());
            if let Some(peer) = last_peer(parts.drop_last()) {
                let i = choose|i: int|
                    0 <= i < n && (#[trigger] parts.drop_last()[i]) == PartModel::P2p(peer)
                        && forall|j: int|
                        i < j < n ==> !((#[trigger] parts.drop_last()[j]) is P2p);
                assert(parts[i] == PartModel::P2p(peer));
                assert forall|j: int| i < j < parts.len() implies !((#[trigger] parts[j]) is P2p) by {
                    if j < n {
                        assert(parts.drop_last()[j] == parts[j]);
                    }
                }
            } else {
                assert forall|i: int| 0 <= i < parts.len() implies !((#[trigger] parts[i]) is P2p) by {
                    if i < n {
                        assert(parts.drop_last()[i] == parts[i]);
                    }
                }
            }
        }
    }
}

/// An address leads to the peer that it names last, and goes through a relay if any of its
/// components is one.
pub proof fn an_address_leads_to_the_last_peer(bytes: Seq<u8>, peer: Seq<char>)
    ensures
        peer_at(bytes) == Some(peer) <==> ends_at(bytes, peer),
        peer_at(bytes) is None <==> forall|p: Seq<char>| !#[trigger] mentions(bytes, p),
        is_relayed(bytes) <==> has_relay(bytes),
{
    let parts = address_parts(bytes)->0;
    the_last_peer_is_last(parts);
    if ends_at(bytes, peer) {
        let i = choose|i: int|
            0 <= i < parts.len() && (#[trigger] parts[i]) == PartModel::P2p(peer) && forall|j: int|
                i < j < parts.len() ==> !((#[trigger] parts[j]) is P2p);
        assert(parts[i] is P2p);
        if let Some(other) = last_peer(parts) {
            let k = choose|k: int|
                0 <= k < parts.len() && (#[trigger] parts[k]) == PartModel::P2p(other) && forall|
                    j: int,
                |
                    k < j < parts.len() ==> !((#[trigger] parts[j]) is P2p);
            assert(parts[k] is P2p);
            assert(i == k);
        }
    }
    if let Some(other) = last_peer(parts) {
        assert(mentions(bytes, other));
    } else {
        assert forall|p: Seq<char>| !#[trigger] mentions(bytes, p) by {
            if parts.contains(PartModel::P2p(p)) {
                let i = choose|i: int| 0 <= i < parts.len() && parts[i] == PartModel::P2p(p);
                assert(parts[i] is P2p);
            }
        }
    }
}

/// An address is dialled for a peer if it names a host and ends at that peer, as it is, or if it
/// names no peer at all, with that peer added. It is no good otherwise.
pub proof fn an_address_is_good_for_its_peer(peer: Seq<char>, bytes: Seq<u8>)
    ensures
        is_unspecified(bytes) ==> peer_address(peer, bytes) is None,
        !is_unspecified(bytes) && ends_at(bytes, peer) ==> peer_address(peer, bytes) == Some(bytes),
        !is_unspecified(bytes) && (forall|p: Seq<char>| !#[trigger] mentions(bytes, p))
            ==> peer_address(peer, bytes) == Some(bytes + peer_part_bytes(peer)),
        !ends_at(bytes, peer) && (exists|p: Seq<char>| #[trigger] mentions(bytes, p))
            ==> peer_address(peer, bytes) is None,
{
    let parts = address_parts(bytes)->0;
    an_address_leads_to_the_last_peer(bytes, peer);
    if parts.contains(PartModel::Ip4(0)) {
        let i = choose|i: int| 0 <= i < parts.len() && parts[i] == PartModel::Ip4(0);
        assert(crate::address::is_unspecified_part(parts[i]));
    }
    if parts.contains(PartModel::Ip6(0)) {
        let i = choose|i: int| 0 <= i < parts.len() && parts[i] == PartModel::Ip6(0);
        assert(crate::address::is_unspecified_part(parts[i]));
    }
    if crate::address::names_no_host(parts) {
        let i = choose|i: int|
            0 <= i < parts.len() && crate::address::is_unspecified_part(#[trigger] parts[i]);
        assert(parts.contains(parts[i]));
    }
}

/// An address is dialled for a peer without a relay if it names a host, no relay and no other peer:
/// as it is if it names the peer, else with the peer added. It is no good otherwise.
pub proof fn an_address_is_good_without_a_relay(peer: Seq<char>, bytes: Seq<u8>)
    ensures
        ({
            let fits = !is_unspecified(bytes) && !has_relay(bytes) && forall|p: Seq<char>|
                #[trigger] mentions(bytes, p) ==> p == peer;
            &&& !fits ==> direct_peer_address(peer, bytes) is None
            &&& fits && mentions(bytes, peer) ==> direct_peer_address(peer, bytes) == Some(bytes)
            &&& fits && !mentions(bytes, peer) ==> direct_peer_address(peer, bytes) == Some(
                bytes + peer_part_bytes(peer),
            )
        }),
{
    let parts = address_parts(bytes)->0;
    an_address_is_good_for_its_peer(peer, bytes);
    an_address_leads_to_the_last_peer(bytes, peer);
    if parts.contains(PartModel::Ip4(0)) {
        let i = choose|i: int| 0 <= i < parts.len() && parts[i] == PartModel::Ip4(0);
        assert(crate::address::is_unspecified_part(parts[i]));
    }
    if parts.contains(PartModel::Ip6(0)) {
        let i = choose|i: int| 0 <= i < parts.len() && parts[i] == PartModel::Ip6(0);
        assert(crate::address::is_unspecified_part(parts[i]));
    }
    if crate::address::names_no_host(parts) {
        let i = choose|i: int|
            0 <= i < parts.len() && crate::address::is_unspecified_part(#[trigger] parts[i]);
        assert(parts.contains(parts[i]));
    }
    if crate::address::names_other_peer(parts, peer) {
        let i = choose|i: int|
            0 <= i < parts.len() && crate::address::is_other_peer(#[trigger] parts[i], peer);
        assert(mentions(bytes, parts[i]->P2p_0));
    }
    if exists|p: Seq<char>| #[trigger] mentions(bytes, p) && p != peer {
        let p = choose|p: Seq<char>| #[trigger] mentions(bytes, p) && p != peer;
        let i = choose|i: int| 0 <= i < parts.len() && parts[i] == PartModel::P2p(p);
        assert(crate::address::is_other_peer(parts[i], peer));
    }
}

/// The addresses of a registration that are good for its peer, in their order.
pub open spec fn good_forms(peer: Seq<char>, addresses: Seq<Seq<u8>>) -> Seq<Seq<u8>> {
    addresses.filter(|bytes: Seq<u8>| peer_address(peer, bytes) is Some).map_values(
        |bytes: Seq<u8>| peer_address(peer, bytes)->0,
    )
}

/// Of the addresses that a peer has registered, each that is good for it is used, in order.
pub proof fn every_good_address_is_used(peer: Seq<char>, addresses: Seq<Seq<u8>>)
    ensures
        peer_forms(peer, addresses) == good_forms(peer, addresses),
        peer_forms(peer, addresses).len() > 0 <==> exists|i: int|
            0 <= i < addresses.len() && peer_address(peer, #[trigger] addresses[i]) is Some,
    decreases addresses.len(),
{
    reveal(Seq::filter);
    let good = |bytes: Seq<u8>| peer_address(peer, bytes) is Some;
    let form = |bytes: Seq<u8>| peer_address(peer, bytes)->0;
    if addresses.len() == 0 {
        assert(good_forms(peer, addresses) =~= Seq::empty());
    } else {
        let fewer = addresses.drop_last();
        every_good_address_is_used(peer, fewer);
        let n = addresses.len() - 1;
        if peer_address(peer, addresses.last()) is Some {
            assert(fewer.filter(good).push(addresses.last()).map_values(form) =~= fewer.filter(
                good,
            ).map_values(form).push(form(addresses.last())));
            assert(peer_address(peer, addresses[n]) is Some);
        } else if exists|i: int|
            0 <= i < addresses.len() && peer_address(peer, #[trigger] addresses[i]) is Some {
            let i = choose|i: int|
                0 <= i < addresses.len() && peer_address(peer, #[trigger] addresses[i]) is Some;
            assert(fewer[i] == addresses[i]);
        }
        if exists|i: int| 0 <= i < fewer.len() && peer_address(peer, #[trigger] fewer[i]) is Some {
            let i = choose|i: int|
                0 <= i < fewer.len() && peer_address(peer, #[trigger] fewer[i]) is Some;
            assert(addresses[i] == fewer[i]);
        }
    }
}

/// The direct addresses of a peer among those heard of are those that are good without a relay.
pub proof fn every_direct_address_is_kept(peer: Seq<char>, heard: Seq<Seq<u8>>, form: Seq<u8>)
    ensures
        direct_forms(peer, heard).contains(form) <==> exists|i: int|
            0 <= i < heard.len() && direct_peer_address(peer, #[trigger] heard[i]) == Some(form),
    decreases heard.len(),
{
    if heard.len() > 0 {
        let fewer = heard.drop_last();
        let n = heard.len() - 1;
        let forms = direct_forms(peer, fewer);
        every_direct_address_is_kept(peer, fewer, form);
        if let Some(last) = direct_peer_address(peer, heard.last()) {
            let all = direct_forms(peer, heard);
            assert(all == forms.push(last));
            assert(all[forms.len() as int] == last);
            if forms.contains(form) {
                let i = choose|i: int| 0 <= i < forms.len() && forms[i] == form;
                assert(all[i] == form);
            }
            if all.contains(form) && form != last {
                let i = choose|i: int| 0 <= i < all.len() && all[i] == form;
                assert(forms[i] == form);
            }
            assert(direct_peer_address(peer, heard[n]) == Some(last));
        }
        if exists|i: int|
            0 <= i < heard.len() && direct_peer_address(peer, #[trigger] heard[i]) == Some(form) {
            let i = choose|i: int|
                0 <= i < heard.len() && direct_peer_address(peer, #[trigger] heard[i]) == Some(form);
            if i < n {
                assert(fewer[i] == heard[i]);
            }
        }
        if exists|i: int|
            0 <= i < fewer.len() && direct_peer_address(peer, #[trigger] fewer[i]) == Some(form) {
            let i = choose|i: int|
                0 <= i < fewer.len() && direct_peer_address(peer, #[trigger] fewer[i]) == Some(form);
            assert(heard[i] == fewer[i]);
        }
    }
}

/// A text holds another somewhere.
pub open spec fn has_within(text: Seq<char>, part: Seq<char>) -> bool {
    exists|i: int|
        0 <= i && i + part.len() <= text.len() && #[trigger] text.subrange(i, i + part.len())
            == part
}

proof fn containing_is_having_within(text: Seq<char>, part: Seq<char>)
    ensures
        crate::text::contains_text(text, part) == has_within(text, part),
{
    if has_within(text, part) {
        let i = choose|i: int|
            0 <= i && i + part.len() <= text.len() && #[trigger] text.subrange(i, i + part.len())
                == part;
        assert(crate::text::stands_at(text, part, i));
    }
    if crate::text::contains_text(text, part) {
        let i = choose|i: int| crate::text::stands_at(text, part, i);
        assert(text.subrange(i, i + part.len()) == part);
    }
}

/// IPv6 addresses and names are preferred to IPv4 addresses and names, and those to all others.
pub proof fn addresses_are_preferred_by_kind(text: Seq<char>)
    ensures
        ({
            let six = has_within(text, "/ip6/"@) || has_within(text, "/dns6/"@);
            let four = has_within(text, "/ip4/"@) || has_within(text, "/dns4/"@);
            preference(text) == if six {
                2u8
            } else if four {
                1u8
            } else {
                0u8
            }
        }),
{
    containing_is_having_within(text, "/ip6/"@);
    containing_is_having_within(text, "/dns6/"@);
    containing_is_having_within(text, "/ip4/"@);
    containing_is_having_within(text, "/dns4/"@);
}

proof fn filtering_all<T>(items: Seq<T>, keep: spec_fn(T) -> bool, all: bool)
    requires
        forall|i: int| 0 <= i < items.len() ==> keep(#[trigger] items[i]) == all,
    ensures
        items.filter(keep) == if all {
            items
        } else {
            Seq::empty()
        },
    decreases items.len(),
{
    reveal(Seq::filter);
    if items.len() > 0 {
        assert forall|i: int| 0 <= i < items.len() - 1 implies keep(
            #[trigger] items.drop_last()[i],
        ) == all by {
            assert(items.drop_last()[i] == items[i]);
        }
        filtering_all(items.drop_last(), keep, all);
        assert(keep(items[items.len() - 1]) == all);
        assert(items.drop_last().push(items.last()) =~= items);
    } else {
        assert(items.filter(keep) =~= Seq::empty());
    }
}

/// Addresses that are preferred equally keep their order.
pub proof fn equal_addresses_keep_their_order(addresses: Seq<Seq<u8>>, score: u8)
    requires
        forall|i: int|
            0 <= i < addresses.len() ==> preference(address_text(#[trigger] addresses[i])) == score,
    ensures
        prioritized(addresses) == addresses,
{
    let two = |bytes: Seq<u8>| preference(address_text(bytes)) == 2;
    let one = |bytes: Seq<u8>| preference(address_text(bytes)) == 1;
    let none = |bytes: Seq<u8>| preference(address_text(bytes)) == 0;
    if addresses.len() > 0 {
        assert(preference(address_text(addresses[0])) == score);
    }
    filtering_all(addresses, two, score == 2);
    filtering_all(addresses, one, score == 1);
    filtering_all(addresses, none, score == 0);
    assert(prioritized(addresses) == of_preference(addresses, 2) + of_preference(addresses, 1)
        + of_preference(addresses, 0));
    assert(of_preference(addresses, 2) =~= addresses.filter(two));
    assert(of_preference(addresses, 1) =~= addresses.filter(one));
    assert(of_preference(addresses, 0) =~= addresses.filter(none));
    assert(prioritized(addresses) =~= addresses);
}

} // verus!
