use link_ear::address::{
    ipv6_preference_score, is_relay_address, is_unspecified_ip_address,
    normalize_direct_peer_address, normalize_peer_address, peer_id_from_multiaddr,
    prioritize_multiaddrs, Address,
};
use link_ear::peer::{
    gossip_message_id, new_message_id, new_nonce, new_playback_session_id, new_queue_item_id,
    new_vote_id, parse_peer_id, PeerId,
};
use link_ear::routes::{
    AddressSet, DirectPromotionBackoff, DirectPromotionFailureOutcome, GossipsubWarmup, PeerBook,
    PeerConnectionRoutes,
};
use link_ear::time::Duration;
use std::collections::hash_map::DefaultHasher;
use std::hash::{Hash, Hasher};

const ALICE: &str = "12D3KooWCKULvuTT1ZDPW8zZpd215MT1QzoNeTvFbPvzhhGHmyDf";
const BOB: &str = "12D3KooWEpUHE3gptbCmfVFLxg5zqk1ESsapZpKbGVbEen4EVjVL";
const SECOND: u64 = 1_000_000_000;

fn peer(text: &str) -> PeerId {
    parse_peer_id(text).unwrap()
}

fn address(text: &str) -> Address {
    Address::parse(text).unwrap()
}

fn texts(addresses: Vec<Address>) -> Vec<String> {
    addresses.iter().map(|a| a.to_text()).collect()
}

#[test]
fn peer_identifiers_are_read() {
    assert_eq!(peer(ALICE).as_str(), ALICE);
    assert!(parse_peer_id("").is_none());
    assert!(parse_peer_id("not a peer").is_none());
    assert_ne!(peer(ALICE), peer(BOB));
}

#[test]
fn peer_identifiers_are_written_as_in_the_network() {
    let id: libp2p::PeerId = ALICE.parse().unwrap();
    assert_eq!(peer(&id.to_base58()).to_text(), ALICE);
}

#[test]
fn identifiers_name_their_peer_and_time() {
    let id = new_message_id(&peer(ALICE), 17, 1, "hello");
    let parts: Vec<&str> = id.split('-').collect();
    assert_eq!(parts.len(), 3);
    assert_eq!(parts[0], ALICE);
    assert_eq!(parts[1], "17");
    assert!(u64::from_str_radix(parts[2], 16).is_ok());
    assert_eq!(id, new_message_id(&peer(ALICE), 17, 1, "hello"));
    assert_ne!(id, new_message_id(&peer(ALICE), 17, 2, "hello"));
    assert_ne!(id, new_message_id(&peer(ALICE), 17, 1, "hallo"));

    let item = new_queue_item_id(&peer(BOB), 5, "BV1-1");
    assert!(item.starts_with(&format!("q-{BOB}-5-")));
    assert_ne!(item, new_queue_item_id(&peer(BOB), 5, "BV1-2"));

    let vote = new_vote_id(&peer(BOB), 6, 0);
    assert!(vote.starts_with(&format!("v-{BOB}-6-")));
    assert_ne!(vote, new_vote_id(&peer(BOB), 6, 1));

    assert_eq!(new_playback_session_id(ALICE, 9, "idle"), format!("{ALICE}:9:idle"));
}

#[test]
fn digests_are_those_of_the_standard_hasher() {
    let id: libp2p::PeerId = ALICE.parse().unwrap();
    let digest = |feed: &dyn Fn(&mut DefaultHasher)| {
        let mut hasher = DefaultHasher::new();
        id.hash(&mut hasher);
        feed(&mut hasher);
        hasher.finish()
    };
    let message = digest(&|hasher| {
        17_i64.hash(hasher);
        3_u64.hash(hasher);
        "hello".hash(hasher);
    });
    assert_eq!(new_message_id(&peer(ALICE), 17, 3, "hello"), format!("{ALICE}-17-{message:x}"));
    let item = digest(&|hasher| {
        5_i64.hash(hasher);
        "BV1-1".hash(hasher);
    });
    assert_eq!(new_queue_item_id(&peer(ALICE), 5, "BV1-1"), format!("q-{ALICE}-5-{item:x}"));
    let nonce = digest(&|hasher| {
        6_i64.hash(hasher);
        8_u64.hash(hasher);
    });
    assert_eq!(new_nonce(&peer(ALICE), 6, 8), nonce);
    assert_eq!(new_vote_id(&peer(ALICE), 6, 8), format!("v-{ALICE}-6-{nonce:x}"));
    let mut hasher = DefaultHasher::new();
    b"abc".to_vec().hash(&mut hasher);
    assert_eq!(gossip_message_id(b"abc"), hasher.finish().to_string());
}

#[test]
fn messages_on_the_wire_are_told_apart_by_their_bytes() {
    let id = gossip_message_id(b"abc");
    assert!(id.parse::<u64>().is_ok());
    assert_eq!(id, gossip_message_id(b"abc"));
    assert_ne!(id, gossip_message_id(b"abd"));
}

#[test]
fn addresses_are_read_and_written() {
    let a = address("/ip4/10.0.0.1/tcp/4001");
    assert_eq!(a.to_text(), "/ip4/10.0.0.1/tcp/4001");
    assert_eq!(Address::from_bytes(a.to_bytes()).unwrap(), a);
    assert!(Address::from_bytes(vec![0xff, 0xff, 0xff]).is_none());
    assert!(Address::parse("nonsense").is_err());
    let multiaddr: libp2p::Multiaddr = "/ip4/10.0.0.1/tcp/4001".parse().unwrap();
    assert_eq!(a.to_bytes(), multiaddr.to_vec());
    assert!(a.is_same(&address("/ip4/10.0.0.1/tcp/4001")));
    assert!(!a.is_same(&address("/ip4/10.0.0.1/tcp/4002")));
}

#[test]
fn relays_are_recognised() {
    assert!(!is_relay_address(&address("/ip4/10.0.0.1/tcp/4001")));
    let circuit = address(&format!("/ip4/10.0.0.1/tcp/4001/p2p/{ALICE}/p2p-circuit"));
    assert!(is_relay_address(&circuit));
    let made = address(&format!("/ip4/10.0.0.1/tcp/4001/p2p/{ALICE}")).with_circuit();
    assert_eq!(made, circuit);
}

#[test]
fn unspecified_hosts_are_recognised() {
    assert!(is_unspecified_ip_address(&address("/ip4/0.0.0.0/tcp/1")));
    assert!(is_unspecified_ip_address(&address("/ip6/::/tcp/1")));
    assert!(!is_unspecified_ip_address(&address("/ip6/::1/tcp/1")));
    assert!(!is_unspecified_ip_address(&address("/dns4/example.com/tcp/1")));
}

#[test]
fn the_last_peer_of_an_address_is_found() {
    assert_eq!(peer_id_from_multiaddr(&address("/ip4/1.2.3.4/tcp/1")), None);
    let relayed = address(&format!("/ip4/1.2.3.4/tcp/1/p2p/{ALICE}/p2p-circuit/p2p/{BOB}"));
    assert_eq!(peer_id_from_multiaddr(&relayed), Some(BOB.to_string()));
}

#[test]
fn peer_addresses_name_their_peer() {
    let plain = address("/ip4/1.2.3.4/tcp/1");
    let named = address(&format!("/ip4/1.2.3.4/tcp/1/p2p/{ALICE}"));
    assert_eq!(normalize_peer_address(&peer(ALICE), plain.clone()), Some(named.clone()));
    assert_eq!(normalize_peer_address(&peer(ALICE), named.clone()), Some(named.clone()));
    assert_eq!(normalize_peer_address(&peer(BOB), named.clone()), None);
    assert_eq!(normalize_peer_address(&peer(ALICE), address("/ip4/0.0.0.0/tcp/1")), None);
    let relayed = address(&format!("/ip4/1.2.3.4/tcp/1/p2p/{BOB}/p2p-circuit"));
    assert_eq!(normalize_peer_address(&peer(ALICE), relayed.clone()), None);
    assert_eq!(normalize_peer_address(&peer(BOB), relayed.clone()), Some(relayed));
}

#[test]
fn direct_addresses_avoid_relays_and_other_peers() {
    let plain = address("/ip4/1.2.3.4/tcp/1");
    let named = address(&format!("/ip4/1.2.3.4/tcp/1/p2p/{ALICE}"));
    assert_eq!(normalize_direct_peer_address(&peer(ALICE), plain), Some(named.clone()));
    assert_eq!(normalize_direct_peer_address(&peer(ALICE), named.clone()), Some(named.clone()));
    assert_eq!(normalize_direct_peer_address(&peer(BOB), named.clone()), None);
    let relayed = named.with_circuit();
    assert_eq!(normalize_direct_peer_address(&peer(ALICE), relayed), None);
    assert_eq!(normalize_direct_peer_address(&peer(ALICE), address("/ip6/::/tcp/1")), None);
}

#[test]
fn newer_address_families_come_first() {
    assert_eq!(ipv6_preference_score(&address("/ip6/::1/tcp/1")), 2);
    assert_eq!(ipv6_preference_score(&address("/dns6/example.com/tcp/1")), 2);
    assert_eq!(ipv6_preference_score(&address("/ip4/1.2.3.4/tcp/1")), 1);
    assert_eq!(ipv6_preference_score(&address("/dns4/example.com/tcp/1")), 1);
    assert_eq!(ipv6_preference_score(&address("/dns/example.com/tcp/1")), 0);
    let ordered = prioritize_multiaddrs(vec![
        address("/dns/a.com/tcp/1"),
        address("/ip4/1.1.1.1/tcp/1"),
        address("/ip6/::1/tcp/1"),
        address("/ip4/2.2.2.2/tcp/1"),
        address("/ip6/::2/tcp/1"),
    ]);
    assert_eq!(
        texts(ordered),
        [
            "/ip6/::1/tcp/1",
            "/ip6/::2/tcp/1",
            "/ip4/1.1.1.1/tcp/1",
            "/ip4/2.2.2.2/tcp/1",
            "/dns/a.com/tcp/1"
        ]
    );
    assert!(prioritize_multiaddrs(vec![]).is_empty());
}

#[test]
fn routes_tell_relayed_from_direct_connections() {
    let mut routes = PeerConnectionRoutes::new();
    assert!(routes.is_empty());
    routes.add(1, true);
    assert!(routes.is_relay_only());
    assert!(routes.has_relayed());
    routes.add(1, true);
    routes.add(2, true);
    assert_eq!(routes.relayed_connections(), [1, 2]);
    routes.add(3, false);
    assert!(routes.has_direct());
    assert!(!routes.is_relay_only());
    routes.remove(1, true);
    routes.remove(2, true);
    routes.remove(9, true);
    assert!(!routes.has_relayed());
    routes.remove(3, false);
    assert!(routes.is_empty());
}

#[test]
fn a_link_that_comes_and_goes_leaves_no_trace() {
    let mut book = PeerBook::new();
    book.add_link(ALICE, 1, true);
    assert!(book.routes_to(ALICE).is_relay_only());
    book.add_link(ALICE, 2, false);
    book.remove_link(ALICE, 2, false);
    assert!(book.routes_to(ALICE).is_relay_only());
    book.remove_link(ALICE, 1, true);
    assert_eq!(book, PeerBook::new());
    book.remove_link(BOB, 1, true);
    assert_eq!(book, PeerBook::new());
}

#[test]
fn waits_grow_with_failures() {
    let mut backoff = DirectPromotionBackoff::new();
    let mut waits = Vec::new();
    for failures in 0..8u32 {
        backoff.failures = failures;
        waits.push(backoff.retry_interval().as_secs());
    }
    assert_eq!(waits, [30, 30, 30, 120, 120, 120, 600, 600]);
}

#[test]
fn a_peer_is_tried_once_and_then_waits() {
    let mut backoff = DirectPromotionBackoff::new();
    assert!(backoff.should_attempt(0));
    assert_eq!(backoff.retry_remaining(0), None);
    backoff.mark_attempt(10 * SECOND);
    assert!(!backoff.should_attempt(1_000 * SECOND));
    let outcome = backoff.mark_failure(11 * SECOND);
    assert_eq!(
        outcome,
        DirectPromotionFailureOutcome::Counted {
            failures: 1,
            retry_after: Some(Duration::from_secs(30)),
        }
    );
    assert_eq!(backoff.retry_remaining(20 * SECOND), Some(Duration::from_secs(20)));
    assert_eq!(backoff.retry_remaining(40 * SECOND), Some(Duration::from_secs(0)));
    assert!(!backoff.should_attempt(40 * SECOND));
    assert!(backoff.should_attempt(40 * SECOND + 1));
}

#[test]
fn failures_close_together_count_once() {
    let mut backoff = DirectPromotionBackoff::new();
    let _first = backoff.mark_failure(SECOND);
    assert_eq!(backoff.mark_failure(6 * SECOND - 1), DirectPromotionFailureOutcome::Duplicate);
    assert_eq!(backoff.failures, 1);
    assert_eq!(
        backoff.mark_failure(6 * SECOND),
        DirectPromotionFailureOutcome::Counted {
            failures: 2,
            retry_after: Some(Duration::from_secs(30)),
        }
    );
    backoff.failures = 9;
    assert_eq!(
        backoff.mark_failure(100 * SECOND),
        DirectPromotionFailureOutcome::Counted { failures: 10, retry_after: None }
    );
    assert!(!backoff.should_attempt(u64::MAX));
    backoff.failures = u32::MAX;
    let _last = backoff.mark_failure(200 * SECOND);
    assert_eq!(backoff.failures, u32::MAX);
}

#[test]
fn warmups_expire_after_five_seconds() {
    let warmup = GossipsubWarmup::new(SECOND);
    assert!(!warmup.is_expired(SECOND));
    assert!(!warmup.is_expired(6 * SECOND - 1));
    assert!(warmup.is_expired(6 * SECOND));
}

#[test]
fn direct_addresses_are_remembered_once() {
    let mut book = PeerBook::new();
    let heard = vec![
        address("/ip4/1.2.3.4/tcp/1"),
        address(&format!("/ip4/1.2.3.4/tcp/1/p2p/{ALICE}")),
        address("/ip4/0.0.0.0/tcp/1"),
        address("/ip6/::1/tcp/1"),
    ];
    assert_eq!(book.remember_direct_addresses(&peer(ALICE), &heard), 2);
    assert_eq!(book.remember_direct_addresses(&peer(ALICE), &heard), 0);
    assert_eq!(book.remember_direct_addresses(&peer(ALICE), &vec![]), 0);
    let known: &AddressSet = book.addresses.get(ALICE).unwrap();
    assert_eq!(known.items.len(), 2);
    book.forget_direct_address(&peer(ALICE), address("/ip4/1.2.3.4/tcp/1"));
    assert_eq!(book.addresses.get(ALICE).unwrap().items.len(), 1);
    book.forget_direct_address(&peer(ALICE), address("/ip6/::1/tcp/1"));
    assert!(book.addresses.get(ALICE).is_none());
    book.forget_direct_address(&peer(BOB), address("/ip6/::1/tcp/1"));
}

#[test]
fn a_relayed_peer_is_promoted_after_its_wait() {
    let mut book = PeerBook::new();
    book.add_link(ALICE, 1, true);
    assert_eq!(book.plan_promotion(ALICE, 0).dial, None);
    let _new = book.remember_direct_addresses(
        &peer(ALICE),
        &vec![address("/ip4/1.2.3.4/tcp/1"), address("/ip6/::1/tcp/1")],
    );
    let first = book.plan_promotion(ALICE, 0);
    assert_eq!(
        first.notice,
        Some(format!(
            "waiting up to 5s for {ALICE} to subscribe to chat before direct promotion"
        ))
    );
    assert_eq!(first.dial, None);
    let early = book.plan_promotion(ALICE, 4 * SECOND);
    assert_eq!((early.notice, early.suspension, early.dial), (None, None, None));
    let due = book.plan_promotion(ALICE, 5 * SECOND);
    assert_eq!(
        due.notice,
        Some(format!(
            "gossipsub warmup timed out for {ALICE}; trying direct promotion anyway"
        ))
    );
    assert_eq!(
        texts(due.dial.unwrap()),
        [format!("/ip6/::1/tcp/1/p2p/{ALICE}"), format!("/ip4/1.2.3.4/tcp/1/p2p/{ALICE}")]
    );
    assert!(book.is_attempting(ALICE));
    assert!(!book.is_attempting(BOB));
}

#[test]
fn a_subscriber_is_promoted_at_once() {
    let mut book = PeerBook::new();
    book.add_link(ALICE, 1, true);
    let _new = book.remember_direct_addresses(&peer(ALICE), &vec![address("/ip6/::1/tcp/1")]);
    assert!(book.start_gossip_warmup(ALICE, 0));
    assert!(!book.start_gossip_warmup(ALICE, 1));
    book.add_subscriber(ALICE);
    let plan = book.plan_promotion(ALICE, 1);
    assert_eq!(plan.notice, None);
    assert!(plan.dial.is_some());
    book.add_link(ALICE, 2, false);
    assert_eq!(book.plan_promotion(ALICE, 1_000 * SECOND).dial, None);
}

#[test]
fn a_peer_is_suspended_after_ten_failures() {
    let mut book = PeerBook::new();
    book.add_link(ALICE, 1, true);
    book.add_subscriber(ALICE);
    let _new = book.remember_direct_addresses(&peer(ALICE), &vec![address("/ip6/::1/tcp/1")]);
    let mut notice = None;
    for i in 1..=10u64 {
        notice = book.record_direct_promotion_failure(ALICE, "no route", i * 10 * SECOND);
        if i == 1 {
            assert_eq!(
                notice,
                Some(format!(
                    "direct promotion failed for {ALICE} (1/10): no route; retrying in 30s"
                ))
            );
        }
        if i == 4 {
            assert_eq!(
                notice,
                Some(format!(
                    "direct promotion failed for {ALICE} (4/10): no route; retrying in 2m"
                ))
            );
        }
    }
    assert_eq!(
        notice,
        Some(format!(
            "direct promotion suspended for {ALICE} after 10 failures: no route; waiting for new direct addresses"
        ))
    );
    assert_eq!(book.record_direct_promotion_failure(ALICE, "again", 101 * SECOND), None);
    let plan = book.plan_promotion(ALICE, 9_999 * SECOND);
    assert_eq!((plan.notice, plan.suspension, plan.dial), (None, None, None));
    book.give_chance(ALICE);
    assert!(book.plan_promotion(ALICE, 9_999 * SECOND).dial.is_some());
}

#[test]
fn a_suspension_is_reported_once() {
    let mut book = PeerBook::new();
    book.add_link(ALICE, 1, true);
    book.add_subscriber(ALICE);
    let _new = book.remember_direct_addresses(&peer(ALICE), &vec![address("/ip6/::1/tcp/1")]);
    let mut backoff = DirectPromotionBackoff::new();
    backoff.failures = 12;
    book.backoffs.insert(ALICE, backoff);
    assert_eq!(
        book.plan_promotion(ALICE, 0).suspension,
        Some(format!(
            "direct promotion suspended for {ALICE} after 12 failures; waiting for new direct addresses"
        ))
    );
    assert_eq!(book.plan_promotion(ALICE, 0).suspension, None);
}

#[test]
fn a_peer_that_goes_is_forgotten() {
    let mut book = PeerBook::new();
    let _new = book.explicit.insert(ALICE);
    book.add_subscriber(ALICE);
    let _started = book.start_gossip_warmup(BOB, 0);
    assert!(book.drop_peer(ALICE));
    assert!(!book.drop_peer(BOB));
    assert_eq!(book, PeerBook::new());
}
