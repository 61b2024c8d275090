//! Peer identifiers, and the identifiers made from them.
use crate::text::{
    decimal, decimal_text, hex_text, numeral, signed_decimal, signed_decimal_text,
};
use std::collections::hash_map::DefaultHasher;
use std::hash::{Hash, Hasher};
use vstd::prelude::*;
use vstd::std_specs::hash::DefaultHasherAdditionalSpecFns;
use vstd::string::*;

verus! {

/// What `libp2p::PeerId` reads a text as, written the way it writes identifiers; nothing if the
/// text names no peer.
pub uninterp spec fn parsed_peer_id(text: Seq<char>) -> Option<Seq<char>>;

/// Calls `libp2p::PeerId::from_str` on `text` and writes the identifier by its `Display`: the
/// base-58 form of its bytes. What is written this way reads as itself.
#[verifier::external_body]
fn canonical_peer_id(text: &str) -> (canonical: Option<String>)
    ensures
        canonical.deep_view() == parsed_peer_id(text@),
        canonical matches Some(c) ==> parsed_peer_id(c@) == Some(c@),
{
    text.parse::<libp2p::PeerId>().ok().map(|id| id.to_string())
}

/// The identifier of a peer, in its written form.
#[derive(Debug, PartialEq, Eq)]
pub struct PeerId {
    text: String,
}

impl View for PeerId {
    type V = Seq<char>;

    closed spec fn view(&self) -> Seq<char> {
        self.text@
    }
}

impl DeepView for PeerId {
    type V = Seq<char>;

    open spec fn deep_view(&self) -> Seq<char> {
        self@
    }
}

impl Clone for PeerId {
    fn clone(&self) -> (copy: Self)
        ensures
            copy@ == self@,
    {
        proof {
            use_type_invariant(self);
        }
        PeerId { text: self.text.clone() }
    }
}

impl PeerId {
    #[verifier::type_invariant]
    spec fn names_a_peer(self) -> bool {
        parsed_peer_id(self.text@) == Some(self.text@)
    }

    /// The written form, which reads as this identifier.
    pub fn as_str(&self) -> (text: &str)
        ensures
            text@ == self@,
            parsed_peer_id(text@) == Some(text@),
    {
        proof {
            use_type_invariant(self);
        }
        self.text.as_str()
    }

    /// The written form, as a text of its own.
    pub fn to_text(&self) -> (text: String)
        ensures
            text@ == self@,
    {
        self.text.clone()
    }
}

/// The peer that a text names, if any: the empty text names none.
pub open spec fn peer_named(value: Seq<char>) -> Option<Seq<char>> {
    if value.len() == 0 {
        None
    } else {
        parsed_peer_id(value)
    }
}

/// Reads a peer identifier.
pub fn parse_peer_id(value: &str) -> (peer: Option<PeerId>)
    ensures
        peer.deep_view() == peer_named(value@),
{
    if value.is_empty() {
        return None;
    }
    match canonical_peer_id(value) {
        Some(text) => Some(PeerId { text }),
        None => None,
    }
}

/// A hasher that was given `before` has been given `after` once `Hash::hash` of the
/// `libp2p::PeerId` with this written form is done. What it is given depends on the machine's
/// word size and byte order, so this relates rather than computes.
pub uninterp spec fn gives_peer(before: Seq<Seq<u8>>, peer_id: Seq<char>, after: Seq<Seq<u8>>) -> bool;

/// A hasher that was given `before` has been given `after` once `Hash::hash` of an `i64` is done.
/// What it is given depends on the machine's byte order.
pub uninterp spec fn gives_i64(before: Seq<Seq<u8>>, value: i64, after: Seq<Seq<u8>>) -> bool;

/// A hasher that was given `before` has been given `after` once `Hash::hash` of a `u64` is done.
/// What it is given depends on the machine's byte order.
pub uninterp spec fn gives_u64(before: Seq<Seq<u8>>, value: u64, after: Seq<Seq<u8>>) -> bool;

/// A hasher that was given `before` has been given `after` once `Hash::hash` of a `str` is done.
/// How the end of the text is marked is not documented.
pub uninterp spec fn gives_text(before: Seq<Seq<u8>>, value: Seq<char>, after: Seq<Seq<u8>>) -> bool;

/// A hasher that was given `before` has been given `after` once `Hash::hash` of a slice of bytes
/// is done. How the length is given depends on the machine.
pub uninterp spec fn gives_bytes(before: Seq<Seq<u8>>, value: Seq<u8>, after: Seq<Seq<u8>>) -> bool;

/// Calls `Hash::hash` of `libp2p::PeerId`: the hasher is given the peer and nothing else.
#[verifier::external_body]
fn hash_peer(peer_id: &str, hasher: &mut DefaultHasher)
    requires
        parsed_peer_id(peer_id@) is Some,
    ensures
        gives_peer(old(hasher)@, peer_id@, final(hasher)@),
{
    peer_id.parse::<libp2p::PeerId>().unwrap().hash(hasher)
}

/// Calls `Hash::hash` of `i64`: the hasher is given the number and nothing else.
#[verifier::external_body]
fn hash_i64(value: i64, hasher: &mut DefaultHasher)
    ensures
        gives_i64(old(hasher)@, value, final(hasher)@),
{
    value.hash(hasher)
}

/// Calls `Hash::hash` of `u64`: the hasher is given the number and nothing else.
#[verifier::external_body]
fn hash_u64(value: u64, hasher: &mut DefaultHasher)
    ensures
        gives_u64(old(hasher)@, value, final(hasher)@),
{
    value.hash(hasher)
}

/// Calls `Hash::hash` of `str`: the hasher is given the text and nothing else.
#[verifier::external_body]
fn hash_text(value: &str, hasher: &mut DefaultHasher)
    ensures
        gives_text(old(hasher)@, value@, final(hasher)@),
{
    value.hash(hasher)
}

/// Calls `Hash::hash` of a slice of bytes: the hasher is given the bytes and nothing else.
#[verifier::external_body]
fn hash_bytes(value: &[u8], hasher: &mut DefaultHasher)
    ensures
        gives_bytes(old(hasher)@, value@, final(hasher)@),
{
    value.hash(hasher)
}

/// `digest` is what a fresh hasher comes to once it is given a peer, a time, a sequence number
/// and a text, in this order.
pub open spec fn is_message_digest(
    digest: u64,
    peer_id: Seq<char>,
    sent_at: i64,
    sequence: u64,
    text: Seq<char>,
) -> bool {
    exists|a: Seq<Seq<u8>>, b: Seq<Seq<u8>>, c: Seq<Seq<u8>>, d: Seq<Seq<u8>>|
        #![trigger
            gives_peer(Seq::empty(), peer_id, a),
            gives_i64(a, sent_at, b),
            gives_u64(b, sequence, c),
            gives_text(c, text, d)
        ]
        gives_peer(Seq::empty(), peer_id, a) && gives_i64(a, sent_at, b) && gives_u64(
            b,
            sequence,
            c,
        ) && gives_text(c, text, d) && digest == DefaultHasher::spec_finish(d)
}

/// `digest` is what a fresh hasher comes to once it is given a peer, a time and the identifier of
/// a track, in this order.
pub open spec fn is_queue_item_digest(
    digest: u64,
    peer_id: Seq<char>,
    now: i64,
    track_id: Seq<char>,
) -> bool {
    exists|a: Seq<Seq<u8>>, b: Seq<Seq<u8>>, c: Seq<Seq<u8>>|
        #![trigger
            gives_peer(Seq::empty(), peer_id, a),
            gives_i64(a, now, b),
            gives_text(b, track_id, c)
        ]
        gives_peer(Seq::empty(), peer_id, a) && gives_i64(a, now, b) && gives_text(b, track_id, c)
            && digest == DefaultHasher::spec_finish(c)
}

/// `digest` is what a fresh hasher comes to once it is given a peer, a time and a sequence
/// number, in this order.
pub open spec fn is_nonce(digest: u64, peer_id: Seq<char>, now: i64, sequence: u64) -> bool {
    exists|a: Seq<Seq<u8>>, b: Seq<Seq<u8>>, c: Seq<Seq<u8>>|
        #![trigger
            gives_peer(Seq::empty(), peer_id, a),
            gives_i64(a, now, b),
            gives_u64(b, sequence, c)
        ]
        gives_peer(Seq::empty(), peer_id, a) && gives_i64(a, now, b) && gives_u64(b, sequence, c)
            && digest == DefaultHasher::spec_finish(c)
}

/// Makes the digest of a chat message.
fn message_digest(peer_id: &PeerId, sent_at: i64, sequence: u64, text: &str) -> (digest: u64)
    ensures
        is_message_digest(digest, peer_id@, sent_at, sequence, text@),
{
    proof {
        use_type_invariant(peer_id);
    }
    let mut hasher = DefaultHasher::new();
    hash_peer(peer_id.text.as_str(), &mut hasher);
    hash_i64(sent_at, &mut hasher);
    hash_u64(sequence, &mut hasher);
    hash_text(text, &mut hasher);
    hasher.finish()
}

/// Makes the digest of a request to queue a track.
fn queue_item_digest(peer_id: &PeerId, now: i64, track_id: &str) -> (digest: u64)
    ensures
        is_queue_item_digest(digest, peer_id@, now, track_id@),
{
    proof {
        use_type_invariant(peer_id);
    }
    let mut hasher = DefaultHasher::new();
    hash_peer(peer_id.text.as_str(), &mut hasher);
    hash_i64(now, &mut hasher);
    hash_text(track_id, &mut hasher);
    hasher.finish()
}

/// Makes a digest that differs from call to call with the time and the sequence number.
pub fn new_nonce(peer_id: &PeerId, now: i64, sequence: u64) -> (digest: u64)
    ensures
        is_nonce(digest, peer_id@, now, sequence),
{
    proof {
        use_type_invariant(peer_id);
    }
    let mut hasher = DefaultHasher::new();
    hash_peer(peer_id.text.as_str(), &mut hasher);
    hash_i64(now, &mut hasher);
    hash_u64(sequence, &mut hasher);
    hasher.finish()
}

/// `id` is an identifier of a message on the wire: the numeral of what a fresh hasher comes to
/// once it is given the bytes of the message.
pub open spec fn is_gossip_message_id(id: Seq<char>, data: Seq<u8>) -> bool {
    exists|after: Seq<Seq<u8>>|
        #![trigger gives_bytes(Seq::empty(), data, after)]
        gives_bytes(Seq::empty(), data, after) && id == decimal(
            DefaultHasher::spec_finish(after) as nat,
        )
}

/// Makes the identifier of a message on the wire.
pub fn gossip_message_id(data: &[u8]) -> (id: String)
    ensures
        is_gossip_message_id(id@, data@),
{
    let mut hasher = DefaultHasher::new();
    hash_bytes(data, &mut hasher);
    decimal_text(hasher.finish() as u128)
}

/// The identifier of a chat message: who sent it, when, and a digest.
pub open spec fn message_id_text(peer_id: Seq<char>, sent_at: i64, digest: u64) -> Seq<char> {
    peer_id + "-"@ + signed_decimal(sent_at as int) + "-"@ + numeral(digest as nat, 16)
}

/// Writes the identifier of a chat message.
pub fn message_id(peer_id: &str, sent_at: i64, digest: u64) -> (id: String)
    ensures
        id@ == message_id_text(peer_id@, sent_at, digest),
{
    peer_id.to_owned().concat("-").concat(signed_decimal_text(sent_at).as_str()).concat("-").concat(
        hex_text(digest).as_str(),
    )
}

/// `id` is an identifier of a chat message.
pub open spec fn is_message_id(
    id: Seq<char>,
    peer_id: Seq<char>,
    sent_at: i64,
    sequence: u64,
    text: Seq<char>,
) -> bool {
    exists|digest: u64|
        is_message_digest(digest, peer_id, sent_at, sequence, text) && id == message_id_text(
            peer_id,
            sent_at,
            digest,
        )
}

/// Makes the identifier of a chat message.
pub fn new_message_id(peer_id: &PeerId, sent_at: i64, sequence: u64, text: &str) -> (id: String)
    ensures
        is_message_id(id@, peer_id@, sent_at, sequence, text@),
{
    let digest: u64 = message_digest(peer_id, sent_at, sequence, text);
    message_id(peer_id.as_str(), sent_at, digest)
}

/// The identifier of an item in the queue: who asked for it, when, and a digest.
pub open spec fn queue_item_id_text(peer_id: Seq<char>, now: i64, digest: u64) -> Seq<char> {
    "q-"@ + message_id_text(peer_id, now, digest)
}

/// Writes the identifier of an item in the queue.
pub fn queue_item_id(peer_id: &str, now: i64, digest: u64) -> (id: String)
    ensures
        id@ == queue_item_id_text(peer_id@, now, digest),
{
    "q-".to_owned().concat(message_id(peer_id, now, digest).as_str())
}

/// `id` is an identifier of an item in the queue.
pub open spec fn is_queue_item_id(
    id: Seq<char>,
    peer_id: Seq<char>,
    now: i64,
    track_id: Seq<char>,
) -> bool {
    exists|digest: u64|
        is_queue_item_digest(digest, peer_id, now, track_id) && id == queue_item_id_text(
            peer_id,
            now,
            digest,
        )
}

/// Makes the identifier of an item in the queue.
pub fn new_queue_item_id(peer_id: &PeerId, now: i64, track_id: &str) -> (id: String)
    ensures
        is_queue_item_id(id@, peer_id@, now, track_id@),
{
    let digest: u64 = queue_item_digest(peer_id, now, track_id);
    queue_item_id(peer_id.as_str(), now, digest)
}

/// The identifier of a vote: who proposed it, when, and a digest.
pub open spec fn vote_id_text(peer_id: Seq<char>, created_at: i64, digest: u64) -> Seq<char> {
    "v-"@ + message_id_text(peer_id, created_at, digest)
}

/// Writes the identifier of a vote.
pub fn vote_id(peer_id: &str, created_at: i64, digest: u64) -> (id: String)
    ensures
        id@ == vote_id_text(peer_id@, created_at, digest),
{
    "v-".to_owned().concat(message_id(peer_id, created_at, digest).as_str())
}

/// `id` is an identifier of a vote.
pub open spec fn is_vote_id(
    id: Seq<char>,
    peer_id: Seq<char>,
    created_at: i64,
    sequence: u64,
) -> bool {
    exists|digest: u64|
        is_nonce(digest, peer_id, created_at, sequence) && id == vote_id_text(
            peer_id,
            created_at,
            digest,
        )
}

/// Makes the identifier of a vote.
pub fn new_vote_id(peer_id: &PeerId, created_at: i64, sequence: u64) -> (id: String)
    ensures
        is_vote_id(id@, peer_id@, created_at, sequence),
{
    let digest: u64 = new_nonce(peer_id, created_at, sequence);
    vote_id(peer_id.as_str(), created_at, digest)
}

/// The identifier of a playback session: who leads it, when it began, and what it plays.
pub open spec fn playback_session_id_text(
    peer_id: Seq<char>,
    issued_at: i64,
    track_id: Seq<char>,
) -> Seq<char> {
    peer_id + ":"@ + signed_decimal(issued_at as int) + ":"@ + track_id
}

/// Makes the identifier of a playback session.
pub fn new_playback_session_id(peer_id: &str, issued_at: i64, track_id: &str) -> (id: String)
    ensures
        id@ == playback_session_id_text(peer_id@, issued_at, track_id@),
{
    peer_id.to_owned().concat(":").concat(signed_decimal_text(issued_at).as_str()).concat(
        ":",
    ).concat(track_id)
}

} // verus!
