//! The names that peers go by, and who keeps a name that two of them want.
use crate::collections::{deep, discard, group_deep, keys_of, store, Table, TextSet};
use crate::model::{PeerNameClaim, PeerNameClaimModel};
use crate::peer::{parse_peer_id, peer_named};
use crate::text::{comes_before, text_before};
use crate::time::{normalize_timestamp_micros, timestamp_micros};
use vstd::prelude::*;
use vstd::string::*;

verus! {

/// The rank of a peer's claim to a name: when it joined, then its identifier. A peer that does
/// not say when it joined ranks last.
pub open spec fn priority(peer_id: Seq<char>, joined_at: Option<i64>) -> (i64, Seq<char>) {
    match joined_at {
        Some(joined) => (timestamp_micros(joined), peer_id),
        None => (i64::MAX, peer_id),
    }
}

/// `a` ranks before `b`.
pub open spec fn ranks_before(a: (i64, Seq<char>), b: (i64, Seq<char>)) -> bool {
    a.0 < b.0 || (a.0 == b.0 && text_before(a.1, b.1))
}

/// The rank of a peer's claim to a name.
pub fn name_priority(peer_id: &str, joined_at: Option<i64>) -> (rank: (i64, String))
    ensures
        (rank.0, rank.1@) == priority(peer_id@, joined_at),
{
    match joined_at {
        Some(joined) => (normalize_timestamp_micros(joined), peer_id.to_owned()),
        None => (i64::MAX, peer_id.to_owned()),
    }
}

/// Whether a remote peer's claim to a name ranks before the local one.
pub fn remote_has_name_priority(
    remote_peer_id: &str,
    remote_joined_at: Option<i64>,
    local_peer_id: &str,
    local_joined_at: i64,
) -> (first: bool)
    ensures
        first == ranks_before(
            priority(remote_peer_id@, remote_joined_at),
            priority(local_peer_id@, Some(local_joined_at)),
        ),
{
    let remote = name_priority(remote_peer_id, remote_joined_at);
    let local = name_priority(local_peer_id, Some(local_joined_at));
    remote.0 < local.0 || (remote.0 == local.0 && comes_before(remote.1.as_str(), local.1.as_str()))
}

/// Who this peer is to others.
pub struct LocalIdentity {
    pub peer_id: Seq<char>,
    pub name: Seq<char>,
    pub joined_at: i64,
}

/// The claim of a peer to the local name ranks before the local one.
pub open spec fn outranks(entry: (Seq<char>, PeerNameClaimModel), local: LocalIdentity) -> bool {
    match peer_named(entry.0) {
        Some(remote) => entry.1.name == local.name && ranks_before(
            priority(remote, entry.1.joined_at),
            priority(local.peer_id, Some(local.joined_at)),
        ),
        None => false,
    }
}

/// The peers whose claims to the local name rank before the local one.
pub open spec fn conflicts_among(
    claims: Seq<(Seq<char>, PeerNameClaimModel)>,
    local: LocalIdentity,
) -> Seq<Seq<char>> {
    keys_of(claims.filter(|entry: (Seq<char>, PeerNameClaimModel)| outranks(entry, local)))
}

/// The names that peers claim, and the peers that keep this peer from using its name.
#[derive(Debug, PartialEq, Eq)]
pub struct NameRegistry {
    pub claims: Table<PeerNameClaim>,
    pub conflicts: TextSet,
}

/// The content of [`NameRegistry`].
#[verifier::ext_equal]
pub struct NameRegistryModel {
    pub claims: Seq<(Seq<char>, PeerNameClaimModel)>,
    pub conflicts: Seq<Seq<char>>,
}

impl View for NameRegistry {
    type V = NameRegistryModel;

    open spec fn view(&self) -> NameRegistryModel {
        NameRegistryModel { claims: self.claims@, conflicts: self.conflicts@ }
    }
}

impl NameRegistryModel {
    /// A registry without claims.
    pub open spec fn empty() -> NameRegistryModel {
        NameRegistryModel { claims: Seq::empty(), conflicts: Seq::empty() }
    }

    /// Another peer may use the local name and this one may not.
    pub open spec fn blocked(self) -> bool {
        self.conflicts.len() > 0
    }

    /// The registry with the conflicts that follow from its claims.
    pub open spec fn refreshed(self, local: LocalIdentity) -> NameRegistryModel {
        NameRegistryModel { conflicts: conflicts_among(self.claims, local), ..self }
    }

    /// The registry once a peer has made a claim. Claims in the name of this peer are ignored.
    pub open spec fn remember(
        self,
        peer_id: Seq<char>,
        claim: PeerNameClaimModel,
        local: LocalIdentity,
    ) -> NameRegistryModel {
        if peer_id == local.peer_id {
            self
        } else {
            NameRegistryModel {
                claims: store(self.claims, peer_id, claim),
                ..self
            }.refreshed(local)
        }
    }

    /// The registry once a peer has gone.
    pub open spec fn forget(self, peer_id: Seq<char>, local: LocalIdentity) -> NameRegistryModel {
        NameRegistryModel { claims: discard(self.claims, peer_id), ..self }.refreshed(local)
    }
}

/// What the user is told once the name is usable again.
pub open spec fn name_available_text(name: Seq<char>) -> Seq<char> {
    "name '"@ + name + "' is available again"@
}

/// What the user is told when the name turns out to belong to a peer that joined earlier.
pub open spec fn name_conflict_text(winner: Seq<char>, name: Seq<char>) -> Seq<char> {
    "name conflict: peer "@ + winner + " joined earlier with '"@ + name + "'"@
}

/// What the user is told when the registry changes.
pub open spec fn name_notice(
    before: NameRegistryModel,
    after: NameRegistryModel,
    name: Seq<char>,
) -> Option<Seq<char>> {
    if !before.blocked() && after.blocked() {
        Some(name_conflict_text(after.conflicts[0], name))
    } else if before.blocked() && !after.blocked() {
        Some(name_available_text(name))
    } else {
        None
    }
}

/// Writes what the user is told once the name is usable again.
pub fn name_available(name: &str) -> (text: String)
    ensures
        text@ == name_available_text(name@),
{
    "name '".to_owned().concat(name).concat("' is available again")
}

impl NameRegistry {
    /// A registry without claims.
    pub fn new() -> (registry: NameRegistry)
        ensures
            registry@ == NameRegistryModel::empty(),
    {
        NameRegistry { claims: Table::new(), conflicts: TextSet::new() }
    }

    /// Whether another peer keeps this one from using its name.
    pub fn is_blocked(&self) -> (blocked: bool)
        ensures
            blocked == self@.blocked(),
    {
        !self.conflicts.is_empty()
    }

    /// Works out anew which claims rank before the local one.
    pub fn refresh_local_name_conflicts(
        &mut self,
        local_peer_id: &str,
        local_name: &str,
        local_joined_at: i64,
    )
        ensures
            final(self)@ == old(self)@.refreshed(
                LocalIdentity {
                    peer_id: local_peer_id@,
                    name: local_name@,
                    joined_at: local_joined_at,
                },
            ),
    {
        let ghost local = LocalIdentity {
            peer_id: local_peer_id@,
            name: local_name@,
            joined_at: local_joined_at,
        };
        let ghost wins = |entry: (Seq<char>, PeerNameClaimModel)| outranks(entry, local);
        let wanted = local_name.to_owned();
        let mut conflicts: Vec<String> = Vec::new();
        let mut i: usize = 0;
        proof {
            reveal(Seq::filter);
            assert(deep(conflicts@) =~= keys_of(self.claims@.take(0).filter(wins)));
        }
        while i < self.claims.entries.len()
            invariant
                i <= self.claims@.len(),
                self.claims == old(self).claims,
                wanted@ == local_name@,
                local == (LocalIdentity {
                    peer_id: local_peer_id@,
                    name: local_name@,
                    joined_at: local_joined_at,
                }),
                wins == (|entry: (Seq<char>, PeerNameClaimModel)| outranks(entry, local)),
                deep(conflicts@) == keys_of(self.claims@.take(i as int).filter(wins)),
            decreases self.claims.entries.len() - i,
        {
            broadcast use group_deep;

            let ghost so_far = self.claims@.take(i as int).filter(wins);
            let ghost entry = self.claims@[i as int];
            proof {
                reveal(Seq::filter);
                assert(self.claims@.take(i + 1).drop_last() =~= self.claims@.take(i as int));
                assert(self.claims@.take(i + 1).last() == entry);
                assert(keys_of(so_far.push(entry)) =~= keys_of(so_far).push(entry.0));
            }
            if let Some(remote) = parse_peer_id(self.claims.entries[i].0.as_str()) {
                let claim = &self.claims.entries[i].1;
                if claim.name == wanted && remote_has_name_priority(
                    remote.as_str(),
                    claim.joined_at,
                    local_peer_id,
                    local_joined_at,
                ) {
                    conflicts.push(self.claims.entries[i].0.clone());
                }
            }
            i = i + 1;
        }
        assert(self.claims@.take(i as int) =~= self.claims@);
        self.conflicts = TextSet { items: conflicts };
    }

    /// Notes the claim of a peer to a name, and gives what the user is to be told, if anything.
    pub fn remember_peer_name(
        &mut self,
        peer_id: &str,
        name: &str,
        joined_at: Option<i64>,
        local_peer_id: &str,
        local_name: &str,
        local_joined_at: i64,
    ) -> (notice: Option<String>)
        ensures
            final(self)@ == old(self)@.remember(
                peer_id@,
                PeerNameClaimModel { name: name@, joined_at: joined_at },
                LocalIdentity {
                    peer_id: local_peer_id@,
                    name: local_name@,
                    joined_at: local_joined_at,
                },
            ),
            notice.deep_view() == name_notice(old(self)@, final(self)@, local_name@),
    {
        if peer_id.to_owned() == local_peer_id.to_owned() {
            return None;
        }
        let was_blocked = self.is_blocked();
        self.claims.insert(peer_id, PeerNameClaim { name: name.to_owned(), joined_at });
        self.refresh_local_name_conflicts(local_peer_id, local_name, local_joined_at);
        let is_blocked = self.is_blocked();
        if !was_blocked && is_blocked {
            Some(
                "name conflict: peer ".to_owned().concat(self.conflicts.items[0].as_str()).concat(
                    " joined earlier with '",
                ).concat(local_name).concat("'"),
            )
        } else if was_blocked && !is_blocked {
            Some(name_available(local_name))
        } else {
            None
        }
    }

    /// Drops the claim of a peer that has gone, and says whether that frees the local name.
    pub fn forget_peer_name(
        &mut self,
        peer_id: &str,
        local_peer_id: &str,
        local_name: &str,
        local_joined_at: i64,
    ) -> (freed: bool)
        ensures
            final(self)@ == old(self)@.forget(
                peer_id@,
                LocalIdentity {
                    peer_id: local_peer_id@,
                    name: local_name@,
                    joined_at: local_joined_at,
                },
            ),
            freed == (old(self)@.blocked() && !final(self)@.blocked()),
    {
        let was_blocked = self.is_blocked();
        let _claim = self.claims.remove(peer_id);
        self.refresh_local_name_conflicts(local_peer_id, local_name, local_joined_at);
        was_blocked && !self.is_blocked()
    }
}

} // verus!
