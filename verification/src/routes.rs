//! The peers, the connections to them, and the promotion of relayed connections to direct ones.
use crate::address::{
    direct_peer_address, normalize_direct_peer_address, prioritize_multiaddrs, prioritized, Address,
};
use crate::collections::{
    copy_all, deep, discard, first_item_place, group_deep, holds, is_first_item, lookup, store,
    with_item, without_item, Table, TextSet,
};
use crate::peer::PeerId;
use crate::text::{decimal, decimal_text};
use crate::time::{
    elapsed_nanos, format_retry_duration, retry_duration_text,
    DIRECT_PROMOTION_FAILURE_DEDUP_WINDOW, DIRECT_PROMOTION_MAX_FAILURES,
    DIRECT_PROMOTION_MEDIUM_RETRY_FAILURES, DIRECT_PROMOTION_MEDIUM_RETRY_SECONDS,
    DIRECT_PROMOTION_RETRY_SECONDS, DIRECT_PROMOTION_SLOW_RETRY_FAILURES,
    DIRECT_PROMOTION_SLOW_RETRY_SECONDS, Duration, GOSSIP_WARMUP_TIMEOUT_SECONDS, NANOS_PER_SECOND,
};
use vstd::prelude::*;
use vstd::string::*;

verus! {

/// The connections to a peer.
#[derive(Debug, PartialEq, Eq)]
pub struct PeerConnectionRoutes {
    pub direct: Vec<u64>,
    pub relayed: Vec<u64>,
}

/// The content of [`PeerConnectionRoutes`].
#[verifier::ext_equal]
pub struct PeerConnectionRoutesModel {
    pub direct: Seq<u64>,
    pub relayed: Seq<u64>,
}

impl View for PeerConnectionRoutes {
    type V = PeerConnectionRoutesModel;

    open spec fn view(&self) -> PeerConnectionRoutesModel {
        PeerConnectionRoutesModel {
            direct: deep(self.direct@),
            relayed: deep(self.relayed@),
        }
    }
}

impl DeepView for PeerConnectionRoutes {
    type V = PeerConnectionRoutesModel;

    open spec fn deep_view(&self) -> PeerConnectionRoutesModel {
        self@
    }
}

impl Clone for PeerConnectionRoutes {
    fn clone(&self) -> (copy: Self)
        ensures
            copy@ == self@,
    {
        PeerConnectionRoutes {
            direct: copy_all(&self.direct),
            relayed: copy_all(&self.relayed),
        }
    }
}

/// How the attempts to reach a peer directly went. Times are on the monotonic clock.
#[derive(Debug, PartialEq, Eq)]
pub struct DirectPromotionBackoff {
    pub failures: u32,
    pub last_attempt: Option<u64>,
    pub last_failure: Option<u64>,
    pub in_flight: bool,
    /// The user knows that the peer is no longer tried.
    pub suspended_reported: bool,
}

/// The content of [`DirectPromotionBackoff`].
#[verifier::ext_equal]
pub struct DirectPromotionBackoffModel {
    pub failures: u32,
    pub last_attempt: Option<u64>,
    pub last_failure: Option<u64>,
    pub in_flight: bool,
    pub suspended_reported: bool,
}

impl View for DirectPromotionBackoff {
    type V = DirectPromotionBackoffModel;

    open spec fn view(&self) -> DirectPromotionBackoffModel {
        DirectPromotionBackoffModel {
            failures: self.failures,
            last_attempt: self.last_attempt.deep_view(),
            last_failure: self.last_failure.deep_view(),
            in_flight: self.in_flight,
            suspended_reported: self.suspended_reported,
        }
    }
}

impl DeepView for DirectPromotionBackoff {
    type V = DirectPromotionBackoffModel;

    open spec fn deep_view(&self) -> DirectPromotionBackoffModel {
        self@
    }
}

impl Clone for DirectPromotionBackoff {
    fn clone(&self) -> (copy: Self)
        ensures
            copy@ == self@,
    {
        DirectPromotionBackoff {
            failures: self.failures,
            last_attempt: self.last_attempt,
            last_failure: self.last_failure,
            in_flight: self.in_flight,
            suspended_reported: self.suspended_reported,
        }
    }
}

/// The time that a relayed peer is given to subscribe to the chat.
#[derive(Debug, PartialEq, Eq)]
pub struct GossipsubWarmup {
    pub started_at: u64,
}

/// The content of [`GossipsubWarmup`].
#[verifier::ext_equal]
pub struct GossipsubWarmupModel {
    pub started_at: u64,
}

impl View for GossipsubWarmup {
    type V = GossipsubWarmupModel;

    open spec fn view(&self) -> GossipsubWarmupModel {
        GossipsubWarmupModel {
            started_at: self.started_at,
        }
    }
}

impl DeepView for GossipsubWarmup {
    type V = GossipsubWarmupModel;

    open spec fn deep_view(&self) -> GossipsubWarmupModel {
        self@
    }
}

impl Clone for GossipsubWarmup {
    fn clone(&self) -> (copy: Self)
        ensures
            copy@ == self@,
    {
        GossipsubWarmup {
            started_at: self.started_at,
        }
    }
}

fn place_of_id(ids: &Vec<u64>, id: u64) -> (place: Option<usize>)
    ensures
        match place {
            Some(i) => is_first_item(deep(ids@), id, i as int) && deep(ids@).contains(id),
            None => !deep(ids@).contains(id),
        },
{
    let mut i: usize = 0;
    while i < ids.len()
        invariant
            i <= ids@.len(),
            forall|j: int| 0 <= j < i ==> deep(ids@)[j] != id,
        decreases ids.len() - i,
    {
        if ids[i] == id {
            assert(deep(ids@)[i as int] == id);
            return Some(i);
        }
        i = i + 1;
    }
    None
}

fn insert_id(ids: &mut Vec<u64>, id: u64)
    ensures
        deep(final(ids)@) == with_item(deep(old(ids)@), id),
{
    broadcast use group_deep;

    if place_of_id(ids, id).is_none() {
        ids.push(id);
    }
}

fn remove_id(ids: &mut Vec<u64>, id: u64)
    ensures
        deep(final(ids)@) == without_item(deep(old(ids)@), id),
{
    broadcast use group_deep;

    match place_of_id(ids, id) {
        Some(i) => {
            proof {
                first_item_place(deep(old(ids)@), id, i as int);
            }
            let _id: u64 = ids.remove(i);
        },
        None => {},
    }
}

impl PeerConnectionRoutesModel {
    /// No connection.
    pub open spec fn empty() -> PeerConnectionRoutesModel {
        PeerConnectionRoutesModel { direct: Seq::empty(), relayed: Seq::empty() }
    }

    /// One more connection.
    pub open spec fn with_link(self, connection: u64, relayed: bool) -> PeerConnectionRoutesModel {
        if relayed {
            PeerConnectionRoutesModel { relayed: with_item(self.relayed, connection), ..self }
        } else {
            PeerConnectionRoutesModel { direct: with_item(self.direct, connection), ..self }
        }
    }

    /// One connection less.
    pub open spec fn without_link(
        self,
        connection: u64,
        relayed: bool,
    ) -> PeerConnectionRoutesModel {
        if relayed {
            PeerConnectionRoutesModel { relayed: without_item(self.relayed, connection), ..self }
        } else {
            PeerConnectionRoutesModel { direct: without_item(self.direct, connection), ..self }
        }
    }

    /// There are connections, and all of them go through a relay.
    pub open spec fn relay_only(self) -> bool {
        self.direct.len() == 0 && self.relayed.len() > 0
    }

    /// There is a connection.
    pub open spec fn linked(self) -> bool {
        self.direct.len() > 0 || self.relayed.len() > 0
    }
}

impl PeerConnectionRoutes {
    /// No connection.
    pub fn new() -> (routes: PeerConnectionRoutes)
        ensures
            routes@ == PeerConnectionRoutesModel::empty(),
    {
        let routes = PeerConnectionRoutes { direct: Vec::new(), relayed: Vec::new() };
        assert(routes@ =~= PeerConnectionRoutesModel::empty());
        routes
    }

    /// Notes a connection.
    pub fn add(&mut self, connection_id: u64, is_relayed: bool)
        ensures
            final(self)@ == old(self)@.with_link(connection_id, is_relayed),
    {
        if is_relayed {
            insert_id(&mut self.relayed, connection_id);
        } else {
            insert_id(&mut self.direct, connection_id);
        }
    }

    /// Forgets a connection.
    pub fn remove(&mut self, connection_id: u64, was_relayed: bool)
        ensures
            final(self)@ == old(self)@.without_link(connection_id, was_relayed),
    {
        if was_relayed {
            remove_id(&mut self.relayed, connection_id);
        } else {
            remove_id(&mut self.direct, connection_id);
        }
    }

    /// Whether there is no connection.
    pub fn is_empty(&self) -> (empty: bool)
        ensures
            empty == !self@.linked(),
    {
        self.direct.len() == 0 && self.relayed.len() == 0
    }

    /// Whether there are connections and all of them go through a relay.
    pub fn is_relay_only(&self) -> (only: bool)
        ensures
            only == self@.relay_only(),
    {
        self.direct.len() == 0 && self.relayed.len() != 0
    }

    /// Whether there is a direct connection.
    pub fn has_direct(&self) -> (direct: bool)
        ensures
            direct == (self@.direct.len() > 0),
    {
        self.direct.len() != 0
    }

    /// Whether there is a connection through a relay.
    pub fn has_relayed(&self) -> (relayed: bool)
        ensures
            relayed == (self@.relayed.len() > 0),
    {
        self.relayed.len() != 0
    }

    /// The connections through relays.
    pub fn relayed_connections(&self) -> (connections: Vec<u64>)
        ensures
            deep(connections@) == self@.relayed,
    {
        copy_all(&self.relayed)
    }
}

/// The seconds that have to pass between two attempts after so many failures.
pub open spec fn retry_seconds(failures: u32) -> u64 {
    if failures < DIRECT_PROMOTION_MEDIUM_RETRY_FAILURES {
        DIRECT_PROMOTION_RETRY_SECONDS
    } else if failures < DIRECT_PROMOTION_SLOW_RETRY_FAILURES {
        DIRECT_PROMOTION_MEDIUM_RETRY_SECONDS
    } else {
        DIRECT_PROMOTION_SLOW_RETRY_SECONDS
    }
}

/// What came of a failed attempt at a direct connection.
#[derive(Debug, PartialEq, Eq)]
pub enum DirectPromotionFailureOutcome {
    /// It counts. The peer is tried again after a while, unless it has failed too often.
    Counted { failures: u32, retry_after: Option<Duration> },
    /// It is the same failure as the one just before.
    Duplicate,
}

impl DirectPromotionBackoffModel {
    /// A peer that was never tried.
    pub open spec fn fresh() -> DirectPromotionBackoffModel {
        DirectPromotionBackoffModel {
            failures: 0,
            last_attempt: None,
            last_failure: None,
            in_flight: false,
            suspended_reported: false,
        }
    }

    /// The nanoseconds until the peer may be tried again; nothing once they have passed.
    pub open spec fn remaining(self, now: u64) -> Option<int> {
        match self.last_attempt {
            Some(last) => if elapsed_nanos(last, now) <= retry_seconds(self.failures)
                * NANOS_PER_SECOND {
                Some(retry_seconds(self.failures) * NANOS_PER_SECOND - elapsed_nanos(last, now))
            } else {
                None
            },
            None => None,
        }
    }

    /// The peer may be tried.
    pub open spec fn due(self, now: u64) -> bool {
        &&& !self.in_flight
        &&& self.failures < DIRECT_PROMOTION_MAX_FAILURES
        &&& self.remaining(now) is None
    }

    /// An attempt has begun.
    pub open spec fn attempted(self, now: u64) -> DirectPromotionBackoffModel {
        DirectPromotionBackoffModel { last_attempt: Some(now), in_flight: true, ..self }
    }

    /// A failure right after another one does not count.
    pub open spec fn repeats_failure(self, now: u64) -> bool {
        self.last_failure is Some && elapsed_nanos(self.last_failure->0, now)
            < DIRECT_PROMOTION_FAILURE_DEDUP_WINDOW
    }

    /// The number of failures with one more.
    pub open spec fn next_failures(self) -> u32 {
        if self.failures < u32::MAX {
            (self.failures + 1) as u32
        } else {
            u32::MAX
        }
    }

    /// An attempt has failed.
    pub open spec fn failed(self, now: u64) -> DirectPromotionBackoffModel {
        if self.repeats_failure(now) {
            DirectPromotionBackoffModel { in_flight: false, ..self }
        } else {
            DirectPromotionBackoffModel {
                failures: self.next_failures(),
                last_failure: Some(now),
                in_flight: false,
                suspended_reported: false,
                ..self
            }
        }
    }
}

impl DirectPromotionBackoff {
    /// A peer that was never tried.
    pub fn new() -> (backoff: DirectPromotionBackoff)
        ensures
            backoff@ == DirectPromotionBackoffModel::fresh(),
    {
        DirectPromotionBackoff {
            failures: 0,
            last_attempt: None,
            last_failure: None,
            in_flight: false,
            suspended_reported: false,
        }
    }

    /// How long to wait between two attempts.
    pub fn retry_interval(&self) -> (interval: Duration)
        ensures
            interval.wf(),
            interval == (Duration { secs: retry_seconds(self@.failures), nanos: 0 }),
    {
        if self.failures < DIRECT_PROMOTION_MEDIUM_RETRY_FAILURES {
            Duration::from_secs(DIRECT_PROMOTION_RETRY_SECONDS)
        } else if self.failures < DIRECT_PROMOTION_SLOW_RETRY_FAILURES {
            Duration::from_secs(DIRECT_PROMOTION_MEDIUM_RETRY_SECONDS)
        } else {
            Duration::from_secs(DIRECT_PROMOTION_SLOW_RETRY_SECONDS)
        }
    }

    /// How long to wait until the peer may be tried again; nothing once the time has passed.
    pub fn retry_remaining(&self, now: u64) -> (remaining: Option<Duration>)
        ensures
            match remaining {
                Some(wait) => wait.wf() && self@.remaining(now) == Some(wait.nanoseconds() as int),
                None => self@.remaining(now) is None,
            },
    {
        match self.last_attempt {
            Some(last) => {
                let elapsed: u64 = now.saturating_sub(last);
                let interval: u64 = self.retry_interval().secs * NANOS_PER_SECOND;
                if elapsed <= interval {
                    Some(Duration::from_nanos(interval - elapsed))
                } else {
                    None
                }
            },
            None => None,
        }
    }

    /// Whether the peer may be tried.
    pub fn should_attempt(&self, now: u64) -> (due: bool)
        ensures
            due == self@.due(now),
    {
        !self.in_flight && self.failures < DIRECT_PROMOTION_MAX_FAILURES && self.retry_remaining(
            now,
        ).is_none()
    }

    /// Notes that an attempt begins.
    pub fn mark_attempt(&mut self, now: u64)
        ensures
            final(self)@ == old(self)@.attempted(now),
    {
        self.last_attempt = Some(now);
        self.in_flight = true;
    }

    /// Notes that an attempt has failed, and says what came of it.
    pub fn mark_failure(&mut self, now: u64) -> (outcome: DirectPromotionFailureOutcome)
        ensures
            final(self)@ == old(self)@.failed(now),
            match outcome {
                DirectPromotionFailureOutcome::Counted { failures, retry_after } => {
                    &&& !old(self)@.repeats_failure(now)
                    &&& failures == final(self)@.failures
                    &&& match retry_after {
                        Some(wait) => failures < DIRECT_PROMOTION_MAX_FAILURES && wait == (
                        Duration { secs: retry_seconds(failures), nanos: 0 }),
                        None => failures >= DIRECT_PROMOTION_MAX_FAILURES,
                    }
                },
                DirectPromotionFailureOutcome::Duplicate => old(self)@.repeats_failure(now),
            },
    {
        self.in_flight = false;
        if let Some(last) = self.last_failure {
            if now.saturating_sub(last) < DIRECT_PROMOTION_FAILURE_DEDUP_WINDOW {
                return DirectPromotionFailureOutcome::Duplicate;
            }
        }
        self.last_failure = Some(now);
        self.failures = self.failures.saturating_add(1);
        self.suspended_reported = false;
        let retry_after: Option<Duration> = if self.failures < DIRECT_PROMOTION_MAX_FAILURES {
            Some(self.retry_interval())
        } else {
            None
        };
        DirectPromotionFailureOutcome::Counted { failures: self.failures, retry_after }
    }
}

impl GossipsubWarmupModel {
    /// The peer has had its time to subscribe.
    pub open spec fn expired(self, now: u64) -> bool {
        elapsed_nanos(self.started_at, now) >= GOSSIP_WARMUP_TIMEOUT_SECONDS * NANOS_PER_SECOND
    }
}

impl GossipsubWarmup {
    /// A wait that begins at `now`.
    pub fn new(now: u64) -> (warmup: GossipsubWarmup)
        ensures
            warmup@ == (GossipsubWarmupModel { started_at: now }),
    {
        GossipsubWarmup { started_at: now }
    }

    /// Whether the peer has had its time to subscribe.
    pub fn is_expired(&self, now: u64) -> (expired: bool)
        ensures
            expired == self@.expired(now),
    {
        now.saturating_sub(self.started_at) >= GOSSIP_WARMUP_TIMEOUT_SECONDS * NANOS_PER_SECOND
    }
}

/// The addresses at which a peer can be reached directly.
#[derive(Debug, PartialEq, Eq)]
pub struct AddressSet {
    pub items: Vec<Address>,
}

impl View for AddressSet {
    type V = Seq<Seq<u8>>;

    open spec fn view(&self) -> Seq<Seq<u8>> {
        deep(self.items@)
    }
}

impl DeepView for AddressSet {
    type V = Seq<Seq<u8>>;

    open spec fn deep_view(&self) -> Seq<Seq<u8>> {
        self@
    }
}

impl Clone for AddressSet {
    fn clone(&self) -> (copy: Self)
        ensures
            copy@ == self@,
    {
        AddressSet { items: copy_all(&self.items) }
    }
}

impl AddressSet {
    /// No address.
    pub fn new() -> (set: AddressSet)
        ensures
            set@ == Seq::<Seq<u8>>::empty(),
    {
        let set = AddressSet { items: Vec::new() };
        assert(set@ =~= Seq::<Seq<u8>>::empty());
        set
    }

    fn place(&self, address: &Address) -> (place: Option<usize>)
        ensures
            match place {
                Some(i) => is_first_item(self@, address@, i as int) && self@.contains(address@),
                None => !self@.contains(address@),
            },
    {
        let mut i: usize = 0;
        while i < self.items.len()
            invariant
                i <= self@.len(),
                forall|j: int| 0 <= j < i ==> self@[j] != address@,
            decreases self.items.len() - i,
        {
            if self.items[i].is_same(address) {
                assert(self@[i as int] == address@);
                return Some(i);
            }
            i = i + 1;
        }
        None
    }

    /// Adds an address, and says whether it was new.
    pub fn insert(&mut self, address: Address) -> (added: bool)
        ensures
            added == !old(self)@.contains(address@),
            final(self)@ == with_item(old(self)@, address@),
    {
        broadcast use group_deep;

        if self.place(&address).is_some() {
            return false;
        }
        self.items.push(address);
        true
    }

    /// Takes an address out.
    pub fn remove(&mut self, address: &Address)
        ensures
            final(self)@ == without_item(old(self)@, address@),
    {
        broadcast use group_deep;

        match self.place(address) {
            Some(i) => {
                proof {
                    first_item_place(old(self)@, address@, i as int);
                }
                let _gone = self.items.remove(i);
            },
            None => {},
        }
    }
}

/// The direct addresses of a peer among some that were heard of, in their normal form.
pub open spec fn direct_forms(peer_id: Seq<char>, heard: Seq<Seq<u8>>) -> Seq<Seq<u8>>
    decreases heard.len(),
{
    if heard.len() == 0 {
        Seq::empty()
    } else {
        match direct_peer_address(peer_id, heard.last()) {
            Some(address) => direct_forms(peer_id, heard.drop_last()).push(address),
            None => direct_forms(peer_id, heard.drop_last()),
        }
    }
}

/// A set with several items added one by one.
pub open spec fn with_items<T>(items: Seq<T>, more: Seq<T>) -> Seq<T>
    decreases more.len(),
{
    if more.len() == 0 {
        items
    } else {
        with_item(with_items(items, more.drop_last()), more.last())
    }
}

/// Adding items does not make a set smaller.
pub proof fn with_items_grows<T>(items: Seq<T>, more: Seq<T>)
    ensures
        with_items(items, more).len() >= items.len(),
        with_items(items, more).len() <= items.len() + more.len(),
    decreases more.len(),
{
    if more.len() > 0 {
        with_items_grows(items, more.drop_last());
    }
}

fn keep_direct_forms(peer_id: &PeerId, heard: &Vec<Address>) -> (forms: Vec<Address>)
    ensures
        deep(forms@) == direct_forms(peer_id@, deep(heard@)),
        forms@.len() <= heard@.len(),
{
    let ghost all = deep(heard@);
    let mut forms: Vec<Address> = Vec::new();
    let mut i: usize = 0;
    assert(deep(forms@) =~= direct_forms(peer_id@, all.take(0)));
    while i < heard.len()
        invariant
            i <= heard@.len(),
            forms@.len() <= i,
            all == deep(heard@),
            deep(forms@) == direct_forms(peer_id@, all.take(i as int)),
        decreases heard.len() - i,
    {
        broadcast use group_deep;

        proof {
            assert(all.take(i + 1).drop_last() =~= all.take(i as int));
            assert(all.take(i + 1).last() == heard@[i as int]@);
        }
        if let Some(address) = normalize_direct_peer_address(peer_id, heard[i].clone()) {
            forms.push(address);
        }
        i = i + 1;
    }
    assert(all.take(i as int) =~= all);
    forms
}

/// What is known of the peers and of the connections to them.
#[derive(Debug, PartialEq, Eq)]
pub struct PeerBook {
    /// The peers that messages are always sent to.
    pub explicit: TextSet,
    /// The connections to each peer.
    pub routes: Table<PeerConnectionRoutes>,
    /// The peers that follow the chat.
    pub subscribers: TextSet,
    /// Where each peer can be reached directly.
    pub addresses: Table<AddressSet>,
    /// How the attempts to reach each peer directly went.
    pub backoffs: Table<DirectPromotionBackoff>,
    /// Since when each relayed peer has been given time to subscribe.
    pub warmups: Table<GossipsubWarmup>,
    /// The nodes at which peers find each other.
    pub rendezvous: TextSet,
}

/// The content of [`PeerBook`].
#[verifier::ext_equal]
pub struct PeerBookModel {
    pub explicit: Seq<Seq<char>>,
    pub routes: Seq<(Seq<char>, PeerConnectionRoutesModel)>,
    pub subscribers: Seq<Seq<char>>,
    pub addresses: Seq<(Seq<char>, Seq<Seq<u8>>)>,
    pub backoffs: Seq<(Seq<char>, DirectPromotionBackoffModel)>,
    pub warmups: Seq<(Seq<char>, GossipsubWarmupModel)>,
    pub rendezvous: Seq<Seq<char>>,
}

impl View for PeerBook {
    type V = PeerBookModel;

    open spec fn view(&self) -> PeerBookModel {
        PeerBookModel {
            explicit: self.explicit@,
            routes: self.routes@,
            subscribers: self.subscribers@,
            addresses: self.addresses@,
            backoffs: self.backoffs@,
            warmups: self.warmups@,
            rendezvous: self.rendezvous@,
        }
    }
}

/// What the user is told when a peer is given time to subscribe.
pub open spec fn warmup_text(peer_id: Seq<char>) -> Seq<char> {
    "waiting up to "@ + retry_duration_text(GOSSIP_WARMUP_TIMEOUT_SECONDS as nat) + " for "@
        + peer_id + " to subscribe to chat before direct promotion"@
}

/// What the user is told when that time is over.
pub open spec fn warmup_over_text(peer_id: Seq<char>) -> Seq<char> {
    "gossipsub warmup timed out for "@ + peer_id + "; trying direct promotion anyway"@
}

/// What the user is told when a peer is no longer tried, and why if that is news.
pub open spec fn suspended_text(
    peer_id: Seq<char>,
    failures: u32,
    reason: Option<Seq<char>>,
) -> Seq<char> {
    "direct promotion suspended for "@ + peer_id + " after "@ + decimal(failures as nat)
        + " failures"@ + match reason {
        Some(r) => ": "@ + r,
        None => Seq::empty(),
    } + "; waiting for new direct addresses"@
}

/// What the user is told when an attempt has failed and there will be another.
pub open spec fn retry_text(peer_id: Seq<char>, failures: u32, reason: Seq<char>) -> Seq<char> {
    "direct promotion failed for "@ + peer_id + " ("@ + decimal(failures as nat) + "/"@ + decimal(
        DIRECT_PROMOTION_MAX_FAILURES as nat,
    ) + "): "@ + reason + "; retrying in "@ + retry_duration_text(retry_seconds(failures) as nat)
}

/// Writes what the user is told when a peer is given time to subscribe.
pub fn warmup_notice(peer_id: &str) -> (text: String)
    ensures
        text@ == warmup_text(peer_id@),
{
    proof {
        vstd::arithmetic::div_mod::lemma_div_multiples_vanish(
            GOSSIP_WARMUP_TIMEOUT_SECONDS as int,
            NANOS_PER_SECOND as int,
        );
    }
    let patience = format_retry_duration(Duration::from_secs(GOSSIP_WARMUP_TIMEOUT_SECONDS));
    "waiting up to ".to_owned().concat(patience.as_str()).concat(" for ").concat(peer_id).concat(
        " to subscribe to chat before direct promotion",
    )
}

fn suspended_notice(peer_id: &str, failures: u32, reason: Option<&str>) -> (text: String)
    ensures
        text@ == suspended_text(
            peer_id@,
            failures,
            match reason {
                Some(r) => Some(r@),
                None => None,
            },
        ),
{
    let why = match reason {
        Some(r) => ": ".to_owned().concat(r),
        None => String::new(),
    };
    "direct promotion suspended for ".to_owned().concat(peer_id).concat(" after ").concat(
        decimal_text(failures as u128).as_str(),
    ).concat(" failures").concat(why.as_str()).concat("; waiting for new direct addresses")
}

fn retry_notice(peer_id: &str, failures: u32, reason: &str) -> (text: String)
    ensures
        text@ == retry_text(peer_id@, failures, reason@),
{
    let backoff = DirectPromotionBackoff { failures, ..DirectPromotionBackoff::new() };
    let interval = backoff.retry_interval();
    proof {
        vstd::arithmetic::div_mod::lemma_div_multiples_vanish(
            retry_seconds(failures) as int,
            NANOS_PER_SECOND as int,
        );
    }
    "direct promotion failed for ".to_owned().concat(peer_id).concat(" (").concat(
        decimal_text(failures as u128).as_str(),
    ).concat("/").concat(decimal_text(DIRECT_PROMOTION_MAX_FAILURES as u128).as_str()).concat(
        "): ",
    ).concat(reason).concat("; retrying in ").concat(format_retry_duration(interval).as_str())
}

/// Whether a peer may be promoted as far as its subscription goes, and what the user is told.
#[verifier::ext_equal]
pub struct WarmupCheck {
    pub after: PeerBookModel,
    pub allowed: bool,
    pub notice: Option<Seq<char>>,
}

/// What is to be done about a relayed peer: what the user is told, and the addresses to dial.
#[verifier::ext_equal]
pub struct PromotionPlan {
    pub after: PeerBookModel,
    pub notice: Option<Seq<char>>,
    pub suspension: Option<Seq<char>>,
    pub dial: Option<Seq<Seq<u8>>>,
}

impl PeerBookModel {
    /// Nothing is known.
    pub open spec fn empty() -> PeerBookModel {
        PeerBookModel {
            explicit: Seq::empty(),
            routes: Seq::empty(),
            subscribers: Seq::empty(),
            addresses: Seq::empty(),
            backoffs: Seq::empty(),
            warmups: Seq::empty(),
            rendezvous: Seq::empty(),
        }
    }

    /// The connections to a peer.
    pub open spec fn routes_to(self, peer_id: Seq<char>) -> PeerConnectionRoutesModel {
        match lookup(self.routes, peer_id) {
            Some(routes) => routes,
            None => PeerConnectionRoutesModel::empty(),
        }
    }

    /// A connection has come up.
    pub open spec fn with_link(
        self,
        peer_id: Seq<char>,
        connection: u64,
        relayed: bool,
    ) -> PeerBookModel {
        PeerBookModel {
            routes: store(
                self.routes,
                peer_id,
                self.routes_to(peer_id).with_link(connection, relayed),
            ),
            ..self
        }
    }

    /// A connection has closed. A peer without connections is forgotten.
    pub open spec fn without_link(
        self,
        peer_id: Seq<char>,
        connection: u64,
        relayed: bool,
    ) -> PeerBookModel {
        let routes = self.routes_to(peer_id).without_link(connection, relayed);
        if !holds(self.routes, peer_id) {
            self
        } else if routes.linked() {
            PeerBookModel { routes: store(self.routes, peer_id, routes), ..self }
        } else {
            PeerBookModel { routes: discard(self.routes, peer_id), ..self }
        }
    }

    /// Addresses of a peer were heard of.
    pub open spec fn with_addresses(
        self,
        peer_id: Seq<char>,
        heard: Seq<Seq<u8>>,
    ) -> PeerBookModel {
        let forms = direct_forms(peer_id, heard);
        if forms.len() == 0 {
            self
        } else {
            PeerBookModel {
                addresses: store(
                    self.addresses,
                    peer_id,
                    with_items(self.known_addresses(peer_id), forms),
                ),
                ..self
            }
        }
    }

    /// The direct addresses of a peer.
    pub open spec fn known_addresses(self, peer_id: Seq<char>) -> Seq<Seq<u8>> {
        match lookup(self.addresses, peer_id) {
            Some(addresses) => addresses,
            None => Seq::empty(),
        }
    }

    /// The number of new direct addresses of a peer among those that were heard of.
    pub open spec fn news(self, peer_id: Seq<char>, heard: Seq<Seq<u8>>) -> int {
        with_items(self.known_addresses(peer_id), direct_forms(peer_id, heard)).len()
            - self.known_addresses(peer_id).len()
    }

    /// An address of a peer is no longer good. A peer without addresses is forgotten.
    pub open spec fn without_address(self, peer_id: Seq<char>, bytes: Seq<u8>) -> PeerBookModel {
        match direct_peer_address(peer_id, bytes) {
            Some(form) => {
                let left = without_item(self.known_addresses(peer_id), form);
                if !holds(self.addresses, peer_id) {
                    self
                } else if left.len() > 0 {
                    PeerBookModel { addresses: store(self.addresses, peer_id, left), ..self }
                } else {
                    PeerBookModel { addresses: discard(self.addresses, peer_id), ..self }
                }
            },
            None => self,
        }
    }

    /// New addresses of a peer were heard of, which gives it a new chance.
    pub open spec fn with_chance(self, peer_id: Seq<char>) -> PeerBookModel {
        PeerBookModel { backoffs: discard(self.backoffs, peer_id), ..self }
    }

    /// A peer is given time to subscribe, unless it was before.
    pub open spec fn with_warmup(self, peer_id: Seq<char>, now: u64) -> PeerBookModel {
        if holds(self.warmups, peer_id) {
            self
        } else {
            PeerBookModel {
                warmups: store(self.warmups, peer_id, GossipsubWarmupModel { started_at: now }),
                ..self
            }
        }
    }

    /// Whether a peer may be promoted: it has subscribed, or it has had its time to.
    pub open spec fn warmup_check(self, peer_id: Seq<char>, now: u64) -> WarmupCheck {
        let done = PeerBookModel { warmups: discard(self.warmups, peer_id), ..self };
        if self.subscribers.contains(peer_id) {
            WarmupCheck { after: done, allowed: true, notice: None }
        } else {
            match lookup(self.warmups, peer_id) {
                None => WarmupCheck {
                    after: self.with_warmup(peer_id, now),
                    allowed: false,
                    notice: Some(warmup_text(peer_id)),
                },
                Some(warmup) => if warmup.expired(now) {
                    WarmupCheck {
                        after: done,
                        allowed: true,
                        notice: Some(warmup_over_text(peer_id)),
                    }
                } else {
                    WarmupCheck { after: self, allowed: false, notice: None }
                },
            }
        }
    }

    /// How the attempts to reach a peer directly went.
    pub open spec fn backoff_of(self, peer_id: Seq<char>) -> DirectPromotionBackoffModel {
        match lookup(self.backoffs, peer_id) {
            Some(backoff) => backoff,
            None => DirectPromotionBackoffModel::fresh(),
        }
    }

    /// The book with another account of the attempts to reach a peer.
    pub open spec fn with_backoff(
        self,
        peer_id: Seq<char>,
        backoff: DirectPromotionBackoffModel,
    ) -> PeerBookModel {
        PeerBookModel { backoffs: store(self.backoffs, peer_id, backoff), ..self }
    }

    /// What is to be done about a peer that is due for an attempt or not.
    pub open spec fn backoff_check(self, peer_id: Seq<char>, now: u64) -> PromotionPlan {
        let backoff = self.backoff_of(peer_id);
        let nothing = PromotionPlan {
            after: self.with_backoff(peer_id, backoff),
            notice: None,
            suspension: None,
            dial: None,
        };
        if backoff.failures >= DIRECT_PROMOTION_MAX_FAILURES {
            if backoff.suspended_reported {
                nothing
            } else {
                PromotionPlan {
                    after: self.with_backoff(
                        peer_id,
                        DirectPromotionBackoffModel { suspended_reported: true, ..backoff },
                    ),
                    suspension: Some(suspended_text(peer_id, backoff.failures, None)),
                    ..nothing
                }
            }
        } else if backoff.due(now) {
            PromotionPlan {
                after: self.with_backoff(peer_id, backoff.attempted(now)),
                dial: Some(prioritized(self.known_addresses(peer_id))),
                ..nothing
            }
        } else {
            nothing
        }
    }

    /// What is to be done about a peer that can perhaps be reached directly: nothing unless it
    /// is reached through relays only and has direct addresses.
    pub open spec fn promotion(self, peer_id: Seq<char>, now: u64) -> PromotionPlan {
        let check = self.warmup_check(peer_id, now);
        if !self.routes_to(peer_id).relay_only() || self.known_addresses(peer_id).len() == 0 {
            PromotionPlan { after: self, notice: None, suspension: None, dial: None }
        } else if !check.allowed {
            PromotionPlan {
                after: check.after,
                notice: check.notice,
                suspension: None,
                dial: None,
            }
        } else {
            PromotionPlan {
                notice: check.notice,
                ..check.after.backoff_check(peer_id, now)
            }
        }
    }

    /// The account of a peer once an attempt has failed. The user hears of a suspension at once.
    pub open spec fn backoff_after_failure(
        self,
        peer_id: Seq<char>,
        now: u64,
    ) -> DirectPromotionBackoffModel {
        let failed = self.backoff_of(peer_id).failed(now);
        if !self.backoff_of(peer_id).repeats_failure(now) && failed.failures
            >= DIRECT_PROMOTION_MAX_FAILURES {
            DirectPromotionBackoffModel { suspended_reported: true, ..failed }
        } else {
            failed
        }
    }

    /// An attempt to reach a peer directly has failed.
    pub open spec fn with_failure(self, peer_id: Seq<char>, now: u64) -> PeerBookModel {
        self.with_backoff(peer_id, self.backoff_after_failure(peer_id, now))
    }

    /// What the user is told of the failure.
    pub open spec fn failure_notice(
        self,
        peer_id: Seq<char>,
        reason: Seq<char>,
        now: u64,
    ) -> Option<Seq<char>> {
        let failures = self.backoff_of(peer_id).failed(now).failures;
        if self.backoff_of(peer_id).repeats_failure(now) {
            None
        } else if failures < DIRECT_PROMOTION_MAX_FAILURES {
            Some(retry_text(peer_id, failures, reason))
        } else {
            Some(suspended_text(peer_id, failures, Some(reason)))
        }
    }

    /// A peer has gone.
    pub open spec fn without_peer(self, peer_id: Seq<char>) -> PeerBookModel {
        PeerBookModel {
            backoffs: discard(self.backoffs, peer_id),
            subscribers: without_item(self.subscribers, peer_id),
            warmups: discard(self.warmups, peer_id),
            explicit: without_item(self.explicit, peer_id),
            ..self
        }
    }

    /// A peer has subscribed to the chat.
    pub open spec fn with_subscriber(self, peer_id: Seq<char>) -> PeerBookModel {
        PeerBookModel {
            subscribers: with_item(self.subscribers, peer_id),
            warmups: discard(self.warmups, peer_id),
            ..self
        }
    }
}

/// The outcome of [`PeerBook::plan_promotion`].
#[derive(Debug, PartialEq, Eq)]
pub struct Promotion {
    /// What the user is told of the peer's time to subscribe.
    pub notice: Option<String>,
    /// What the user is told if the peer is no longer tried.
    pub suspension: Option<String>,
    /// The addresses to dial.
    pub dial: Option<Vec<Address>>,
}

impl PeerBook {
    /// Nothing is known.
    pub fn new() -> (book: PeerBook)
        ensures
            book@ == PeerBookModel::empty(),
    {
        PeerBook {
            explicit: TextSet::new(),
            routes: Table::new(),
            subscribers: TextSet::new(),
            addresses: Table::new(),
            backoffs: Table::new(),
            warmups: Table::new(),
            rendezvous: TextSet::new(),
        }
    }

    /// The connections to a peer.
    pub fn routes_to(&self, peer_id: &str) -> (routes: PeerConnectionRoutes)
        ensures
            routes@ == self@.routes_to(peer_id@),
    {
        match self.routes.get(peer_id) {
            Some(routes) => routes.clone(),
            None => PeerConnectionRoutes::new(),
        }
    }

    /// Notes a connection that has come up.
    pub fn add_link(&mut self, peer_id: &str, connection: u64, relayed: bool)
        ensures
            final(self)@ == old(self)@.with_link(peer_id@, connection, relayed),
    {
        let mut routes = self.routes_to(peer_id);
        routes.add(connection, relayed);
        self.routes.insert(peer_id, routes);
    }

    /// Notes a connection that has closed.
    pub fn remove_link(&mut self, peer_id: &str, connection: u64, relayed: bool)
        ensures
            final(self)@ == old(self)@.without_link(peer_id@, connection, relayed),
    {
        if !self.routes.contains(peer_id) {
            return ;
        }
        let mut routes = self.routes_to(peer_id);
        routes.remove(connection, relayed);
        if routes.is_empty() {
            let _gone = self.routes.remove(peer_id);
        } else {
            self.routes.insert(peer_id, routes);
        }
    }

    fn known_addresses(&self, peer_id: &str) -> (addresses: AddressSet)
        ensures
            addresses@ == self@.known_addresses(peer_id@),
    {
        match self.addresses.get(peer_id) {
            Some(addresses) => addresses.clone(),
            None => AddressSet::new(),
        }
    }

    /// Notes the direct ones among some addresses of a peer, and counts those that are new.
    pub fn remember_direct_addresses(&mut self, peer_id: &PeerId, addresses: &Vec<Address>) -> (new:
        usize)
        ensures
            final(self)@ == old(self)@.with_addresses(peer_id@, deep(addresses@)),
            new == old(self)@.news(peer_id@, deep(addresses@)),
    {
        broadcast use group_deep;

        let mut forms = keep_direct_forms(peer_id, addresses);
        if forms.len() == 0 {
            return 0;
        }
        let ghost all = deep(forms@);
        let mut known = self.known_addresses(peer_id.as_str());
        let ghost before = known@;
        let total: usize = forms.len();
        let mut done: usize = 0;
        let mut new: usize = 0;
        assert(all.take(0) =~= Seq::<Seq<u8>>::empty());
        while forms.len() > 0
            invariant
                done + forms@.len() == total,
                total == all.len(),
                deep(forms@) == all.skip(done as int),
                known@ == with_items(before, all.take(done as int)),
                new == known@.len() - before.len(),
                new <= done,
            decreases forms.len(),
        {
            broadcast use group_deep;

            let address = forms.remove(0);
            proof {
                assert(address@ == all.skip(done as int)[0]);
                assert(all.take(done + 1).last() == address@);
                assert(all.take(done + 1).drop_last() =~= all.take(done as int));
                assert(all.skip(done as int).remove(0) =~= all.skip(done + 1));
            }
            if known.insert(address) {
                new = new + 1;
            }
            done = done + 1;
        }
        assert(all.take(done as int) =~= all);
        self.addresses.insert(peer_id.as_str(), known);
        new
    }

    /// Drops an address of a peer that is no longer good.
    pub fn forget_direct_address(&mut self, peer_id: &PeerId, address: Address)
        ensures
            final(self)@ == old(self)@.without_address(peer_id@, address@),
    {
        let form = match normalize_direct_peer_address(peer_id, address) {
            Some(form) => form,
            None => return ,
        };
        if !self.addresses.contains(peer_id.as_str()) {
            return ;
        }
        let mut known = self.known_addresses(peer_id.as_str());
        known.remove(&form);
        if known.items.len() == 0 {
            let _gone = self.addresses.remove(peer_id.as_str());
        } else {
            self.addresses.insert(peer_id.as_str(), known);
        }
    }

    /// Gives a peer a new chance to be reached directly.
    pub fn give_chance(&mut self, peer_id: &str)
        ensures
            final(self)@ == old(self)@.with_chance(peer_id@),
    {
        let _account = self.backoffs.remove(peer_id);
    }

    /// Gives a peer time to subscribe, and says whether it had none before.
    pub fn start_gossip_warmup(&mut self, peer_id: &str, now: u64) -> (started: bool)
        ensures
            started == !holds(old(self)@.warmups, peer_id@),
            final(self)@ == old(self)@.with_warmup(peer_id@, now),
    {
        if self.warmups.contains(peer_id) {
            return false;
        }
        self.warmups.insert(peer_id, GossipsubWarmup::new(now));
        true
    }

    /// Whether a peer may be promoted as far as its subscription goes, and what the user is told.
    pub fn gossip_warmup_allows_promotion(&mut self, peer_id: &str, now: u64) -> (check: (
        bool,
        Option<String>,
    ))
        ensures
            final(self)@ == old(self)@.warmup_check(peer_id@, now).after,
            check.0 == old(self)@.warmup_check(peer_id@, now).allowed,
            check.1.deep_view() == old(self)@.warmup_check(peer_id@, now).notice,
    {
        if self.subscribers.contains(peer_id) {
            let _warmup = self.warmups.remove(peer_id);
            return (true, None);
        }
        let expired: bool = match self.warmups.get(peer_id) {
            Some(warmup) => warmup.is_expired(now),
            None => {
                let _started = self.start_gossip_warmup(peer_id, now);
                return (false, Some(warmup_notice(peer_id)));
            },
        };
        if !expired {
            return (false, None);
        }
        let _warmup = self.warmups.remove(peer_id);
        (
            true,
            Some(
                "gossipsub warmup timed out for ".to_owned().concat(peer_id).concat(
                    "; trying direct promotion anyway",
                ),
            ),
        )
    }

    fn backoff_of(&self, peer_id: &str) -> (backoff: DirectPromotionBackoff)
        ensures
            backoff@ == self@.backoff_of(peer_id@),
    {
        match self.backoffs.get(peer_id) {
            Some(backoff) => backoff.clone(),
            None => DirectPromotionBackoff::new(),
        }
    }

    /// Whether an attempt to reach a peer directly is under way.
    pub fn is_attempting(&self, peer_id: &str) -> (attempting: bool)
        ensures
            attempting == self@.backoff_of(peer_id@).in_flight,
    {
        self.backoff_of(peer_id).in_flight
    }

    fn check_backoff(&mut self, peer_id: &str, now: u64) -> (promotion: Promotion)
        ensures
            final(self)@ == old(self)@.backoff_check(peer_id@, now).after,
            promotion.notice.deep_view() == old(self)@.backoff_check(peer_id@, now).notice,
            promotion.suspension.deep_view() == old(self)@.backoff_check(peer_id@, now).suspension,
            promotion.dial.deep_view() == old(self)@.backoff_check(peer_id@, now).dial,
    {
        let mut backoff = self.backoff_of(peer_id);
        let mut promotion = Promotion { notice: None, suspension: None, dial: None };
        if backoff.failures >= DIRECT_PROMOTION_MAX_FAILURES {
            if !backoff.suspended_reported {
                backoff.suspended_reported = true;
                promotion.suspension = Some(suspended_notice(peer_id, backoff.failures, None));
            }
        } else if backoff.should_attempt(now) {
            backoff.mark_attempt(now);
            let addresses = prioritize_multiaddrs(self.known_addresses(peer_id).items);
            promotion.dial = Some(addresses);
            assert(promotion.dial.deep_view() =~= Some(
                prioritized(old(self)@.known_addresses(peer_id@)),
            ));
        }
        self.backoffs.insert(peer_id, backoff);
        promotion
    }

    /// Decides what is to be done about a peer that can perhaps be reached directly.
    pub fn plan_promotion(&mut self, peer_id: &str, now: u64) -> (promotion: Promotion)
        ensures
            final(self)@ == old(self)@.promotion(peer_id@, now).after,
            promotion.notice.deep_view() == old(self)@.promotion(peer_id@, now).notice,
            promotion.suspension.deep_view() == old(self)@.promotion(peer_id@, now).suspension,
            promotion.dial.deep_view() == old(self)@.promotion(peer_id@, now).dial,
    {
        if !self.routes_to(peer_id).is_relay_only() || self.known_addresses(peer_id).items.len()
            == 0 {
            return Promotion { notice: None, suspension: None, dial: None };
        }
        let (allowed, notice) = self.gossip_warmup_allows_promotion(peer_id, now);
        if !allowed {
            return Promotion { notice, suspension: None, dial: None };
        }
        let mut promotion = self.check_backoff(peer_id, now);
        promotion.notice = notice;
        promotion
    }

    /// Notes that an attempt to reach a peer directly has failed, and gives what the user is
    /// told, if anything.
    pub fn record_direct_promotion_failure(&mut self, peer_id: &str, reason: &str, now: u64) -> (
        notice: Option<String>)
        ensures
            final(self)@ == old(self)@.with_failure(peer_id@, now),
            notice.deep_view() == old(self)@.failure_notice(peer_id@, reason@, now),
    {
        let mut backoff = self.backoff_of(peer_id);
        let outcome = backoff.mark_failure(now);
        let notice = match outcome {
            DirectPromotionFailureOutcome::Duplicate => None,
            DirectPromotionFailureOutcome::Counted { failures, retry_after } => match retry_after {
                Some(_) => Some(retry_notice(peer_id, failures, reason)),
                None => {
                    backoff.suspended_reported = true;
                    Some(suspended_notice(peer_id, failures, Some(reason)))
                },
            },
        };
        self.backoffs.insert(peer_id, backoff);
        notice
    }

    /// Forgets a peer that has gone, and says whether messages were always sent to it.
    pub fn drop_peer(&mut self, peer_id: &str) -> (was_explicit: bool)
        ensures
            final(self)@ == old(self)@.without_peer(peer_id@),
            was_explicit == old(self)@.explicit.contains(peer_id@),
    {
        let _account = self.backoffs.remove(peer_id);
        let _subscribed = self.subscribers.remove(peer_id);
        let _warmup = self.warmups.remove(peer_id);
        self.explicit.remove(peer_id)
    }

    /// Notes that a peer has subscribed to the chat.
    pub fn add_subscriber(&mut self, peer_id: &str)
        ensures
            final(self)@ == old(self)@.with_subscriber(peer_id@),
    {
        let _new = self.subscribers.insert(peer_id);
        let _warmup = self.warmups.remove(peer_id);
    }
}

} // verus!
