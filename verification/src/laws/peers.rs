//! What holds of the connections to peers.
use crate::address::{address_text, of_preference, preference, prioritized};
use crate::collections::{distinct_keys, lookup_of_discard, lookup_of_store};
use crate::routes::{
    direct_forms, retry_seconds, with_items, DirectPromotionBackoffModel, PeerBookModel,
    PeerConnectionRoutesModel,
};
use crate::time::{
    DIRECT_PROMOTION_FAILURE_DEDUP_WINDOW, DIRECT_PROMOTION_MAX_FAILURES, NANOS_PER_SECOND,
};
use vstd::prelude::*;

verus! {

/// The more often a peer has failed, the longer it is left alone.
pub proof fn failures_lengthen_the_wait(a: u32, b: u32)
    requires
        a <= b,
    ensures
        retry_seconds(a) <= retry_seconds(b),
{
}

/// A peer that is being tried is not tried again before something comes of it.
pub proof fn one_attempt_at_a_time(backoff: DirectPromotionBackoffModel, now: u64, later: u64)
    ensures
        !backoff.attempted(now).due(later),
        !backoff.attempted(now).failed(later).in_flight,
{
}

/// After a failed attempt a peer is not tried again before the wait that goes with its failures
/// is over, and then it is, unless it has failed too often.
pub proof fn a_failed_peer_waits(
    backoff: DirectPromotionBackoffModel,
    tried: u64,
    failed: u64,
    later: u64,
)
    requires
        tried <= failed <= later,
    ensures
        ({
            let after = backoff.attempted(tried).failed(failed);
            after.due(later) <==> after.failures < DIRECT_PROMOTION_MAX_FAILURES && later - tried
                > retry_seconds(after.failures) * NANOS_PER_SECOND
        }),
{
}

/// Failures that come close together count once.
pub proof fn close_failures_count_once(
    backoff: DirectPromotionBackoffModel,
    first: u64,
    second: u64,
)
    requires
        !backoff.repeats_failure(first),
        first <= second < first + DIRECT_PROMOTION_FAILURE_DEDUP_WINDOW,
    ensures
        backoff.failed(first).failed(second).failures == backoff.failed(first).failures,
        backoff.failed(first).failures == backoff.next_failures(),
{
}

/// A peer that has failed too often is never tried again, until it is given a new chance.
pub proof fn a_suspended_peer_needs_a_chance(
    book: PeerBookModel,
    peer_id: Seq<char>,
    now: u64,
    later: u64,
)
    requires
        distinct_keys(book.backoffs),
        book.backoff_of(peer_id).failures >= DIRECT_PROMOTION_MAX_FAILURES,
    ensures
        book.promotion(peer_id, now).dial is None,
        book.with_chance(peer_id).backoff_of(peer_id).due(later),
{
    lookup_of_discard(book.backoffs, peer_id, peer_id);
}

/// A peer is dialled only if it is reached through relays alone, has direct addresses, and has
/// subscribed or had its time to; then it is dialled at all of its addresses.
pub proof fn promotion_is_for_relayed_peers(book: PeerBookModel, peer_id: Seq<char>, now: u64)
    ensures
        book.promotion(peer_id, now).dial is Some ==> {
            &&& book.routes_to(peer_id).relay_only()
            &&& book.known_addresses(peer_id).len() > 0
            &&& book.warmup_check(peer_id, now).allowed
            &&& book.backoff_of(peer_id).due(now)
            &&& book.promotion(peer_id, now).dial == Some(
                prioritized(book.known_addresses(peer_id)),
            )
        },
{
}

/// A connection that comes up and closes again leaves the connections to its peer as they were.
pub proof fn a_link_comes_and_goes(
    routes: PeerConnectionRoutesModel,
    connection: u64,
    relayed: bool,
)
    requires
        !routes.direct.contains(connection),
        !routes.relayed.contains(connection),
    ensures
        routes.with_link(connection, relayed).linked(),
        routes.with_link(connection, relayed).without_link(connection, relayed) == routes,
{
    let links = if relayed {
        routes.relayed
    } else {
        routes.direct
    };
    let more = links.push(connection);
    crate::collections::first_item_place(more, connection, links.len() as int);
    assert(crate::collections::is_first_item(more, connection, links.len() as int));
    assert(more.remove(links.len() as int) =~= links);
}

/// A peer that subscribes may be promoted at once, and its wait is over.
pub proof fn a_subscriber_need_not_wait(book: PeerBookModel, peer_id: Seq<char>, now: u64)
    ensures
        book.with_subscriber(peer_id).warmup_check(peer_id, now).allowed,
        book.with_subscriber(peer_id).warmup_check(peer_id, now).notice is None,
{
    let items = book.subscribers;
    if !items.contains(peer_id) {
        assert(items.push(peer_id).last() == peer_id);
        assert(items.push(peer_id).contains(peer_id));
    }
}

/// The direct addresses of a peer that are remembered are known afterwards, and heard of again
/// they are no news.
pub proof fn remembered_addresses_are_known(
    book: PeerBookModel,
    peer_id: Seq<char>,
    heard: Seq<Seq<u8>>,
    form: Seq<u8>,
)
    ensures
        direct_forms(peer_id, heard).contains(form) ==> book.with_addresses(
            peer_id,
            heard,
        ).known_addresses(peer_id).contains(form),
        book.with_addresses(peer_id, heard).news(peer_id, heard) == 0,
{
    let forms = direct_forms(peer_id, heard);
    let known = book.known_addresses(peer_id);
    let after = with_items(known, forms);
    if forms.len() > 0 {
        lookup_of_store(book.addresses, peer_id, after, peer_id);
    }
    with_items_contains(known, forms);
    adding_known_items(after, forms);
}

/// Every item that is added to a set is in it.
pub proof fn with_items_contains<T>(items: Seq<T>, more: Seq<T>)
    ensures
        forall|x: T| #[trigger] items.contains(x) ==> with_items(items, more).contains(x),
        forall|x: T| #[trigger] more.contains(x) ==> with_items(items, more).contains(x),
    decreases more.len(),
{
    if more.len() > 0 {
        let before = with_items(items, more.drop_last());
        let after = with_items(items, more);
        with_items_contains(items, more.drop_last());
        assert forall|x: T| before.contains(x) implies after.contains(x) by {
            if !before.contains(more.last()) {
                let i = choose|i: int| 0 <= i < before.len() && before[i] == x;
                assert(after[i] == x);
            }
        }
        assert(after.contains(more.last())) by {
            if !before.contains(more.last()) {
                assert(after.last() == more.last());
            }
        }
        assert forall|x: T| #[trigger] more.contains(x) implies after.contains(x) by {
            let i = choose|i: int| 0 <= i < more.len() && more[i] == x;
            if i < more.len() - 1 {
                assert(more.drop_last()[i] == x);
                assert(more.drop_last().contains(x));
            }
        }
    }
}

/// Adding items that a set holds does not change it.
pub proof fn adding_known_items<T>(items: Seq<T>, more: Seq<T>)
    requires
        forall|x: T| #[trigger] more.contains(x) ==> items.contains(x),
    ensures
        with_items(items, more) == items,
    decreases more.len(),
{
    if more.len() > 0 {
        assert(more.contains(more.last()));
        assert forall|x: T| #[trigger] more.drop_last().contains(x) implies items.contains(x) by {
            let i = choose|i: int| 0 <= i < more.len() - 1 && more.drop_last()[i] == x;
            assert(more[i] == x);
            assert(more.contains(x));
        }
        adding_known_items(items, more.drop_last());
    }
}

/// Ordering addresses by preference keeps each of them, and puts IPv6 before IPv4 before the
/// rest.
pub proof fn prioritizing_keeps_the_addresses(addresses: Seq<Seq<u8>>)
    ensures
        prioritized(addresses).to_multiset() =~= addresses.to_multiset(),
        prioritized(addresses).len() == addresses.len(),
        forall|i: int, j: int|
            0 <= i < j < prioritized(addresses).len() ==> preference(
                address_text(#[trigger] prioritized(addresses)[i]),
            ) >= preference(address_text(#[trigger] prioritized(addresses)[j])),
{
    broadcast use vstd::seq_lib::group_to_multiset_ensures;

    let first = of_preference(addresses, 2);
    let second = of_preference(addresses, 1);
    let third = of_preference(addresses, 0);
    let all = prioritized(addresses);
    split_by_preference(addresses);
    vstd::seq_lib::lemma_multiset_commutative(first, second);
    vstd::seq_lib::lemma_multiset_commutative(first + second, third);
    preferences_agree(addresses, 2);
    preferences_agree(addresses, 1);
    preferences_agree(addresses, 0);
    assert(all.to_multiset() =~= addresses.to_multiset());
    assert(all.len() == addresses.len()) by {
        all.to_multiset_ensures();
        addresses.to_multiset_ensures();
    }
    assert forall|i: int, j: int| 0 <= i < j < all.len() implies preference(
        address_text(#[trigger] all[i]),
    ) >= preference(address_text(#[trigger] all[j])) by {
        let n = first.len() as int;
        let m = second.len() as int;
        if i < n {
            assert(all[i] == first[i]);
            if j < n {
                assert(all[j] == first[j]);
            }
        } else if i < n + m {
            assert(all[i] == second[i - n]);
            if j < n + m {
                assert(all[j] == second[j - n]);
            } else {
                assert(all[j] == third[j - n - m]);
            }
        } else {
            assert(all[j] == third[j - n - m]);
        }
    }
}

/// The addresses of one preference have it.
proof fn preferences_agree(addresses: Seq<Seq<u8>>, score: u8)
    ensures
        forall|i: int|
            0 <= i < of_preference(addresses, score).len() ==> preference(
                address_text(#[trigger] of_preference(addresses, score)[i]),
            ) == score,
{
    broadcast use vstd::seq_lib::group_filter_ensures;

}

/// Every address has one of the three preferences.
proof fn split_by_preference(addresses: Seq<Seq<u8>>)
    ensures
        addresses.to_multiset() =~= of_preference(addresses, 2).to_multiset().add(
            of_preference(addresses, 1).to_multiset(),
        ).add(of_preference(addresses, 0).to_multiset()),
    decreases addresses.len(),
{
    broadcast use vstd::seq_lib::group_to_multiset_ensures;

    reveal(Seq::filter);
    if addresses.len() > 0 {
        split_by_preference(addresses.drop_last());
        assert(addresses =~= addresses.drop_last().push(addresses.last()));
    } else {
        assert(of_preference(addresses, 2) =~= addresses);
        assert(of_preference(addresses, 1) =~= addresses);
        assert(of_preference(addresses, 0) =~= addresses);
    }
}

} // verus!
