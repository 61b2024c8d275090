//! Network addresses of peers.
use crate::collections::{deep, group_deep};
use crate::peer::PeerId;
use crate::text::{contains, contains_text};
use vstd::prelude::*;
use vstd::string::*;

verus! {

/// A component of an address, as far as it is looked at.
#[derive(Debug, PartialEq, Eq)]
pub enum AddressPart {
    /// An IPv4 address, as a number.
    Ip4(u32),
    /// An IPv6 address, as a number.
    Ip6(u128),
    /// The peer at this point of the address, in written form.
    P2p(String),
    /// What stands before is a relay.
    P2pCircuit,
    /// Any other component.
    Other,
}

/// A component of an address.
pub enum PartModel {
    Ip4(u32),
    Ip6(u128),
    P2p(Seq<char>),
    P2pCircuit,
    Other,
}

impl DeepView for AddressPart {
    type V = PartModel;

    open spec fn deep_view(&self) -> PartModel {
        match self {
            AddressPart::Ip4(bits) => PartModel::Ip4(*bits),
            AddressPart::Ip6(bits) => PartModel::Ip6(*bits),
            AddressPart::P2p(peer_id) => PartModel::P2p(peer_id@),
            AddressPart::P2pCircuit => PartModel::P2pCircuit,
            AddressPart::Other => PartModel::Other,
        }
    }
}

/// The components that `libp2p::Multiaddr` reads in the bytes of an address; nothing if the bytes
/// are no address.
pub uninterp spec fn address_parts(bytes: Seq<u8>) -> Option<Seq<PartModel>>;

/// The written form that `libp2p::Multiaddr` gives to the bytes of an address.
pub uninterp spec fn address_text(bytes: Seq<u8>) -> Seq<char>;

/// The bytes that `libp2p::Multiaddr` writes for a component that names a peer.
pub uninterp spec fn peer_part_bytes(peer_id: Seq<char>) -> Seq<u8>;

/// Calls `libp2p::Multiaddr::try_from` on the bytes and goes through `Multiaddr::iter`.
#[verifier::external_body]
fn read_parts(bytes: &Vec<u8>) -> (parts: Option<Vec<AddressPart>>)
    ensures
        match parts {
            Some(list) => address_parts(bytes@) == Some(deep(list@)),
            None => address_parts(bytes@) is None,
        },
{
    let address = libp2p::Multiaddr::try_from(bytes.clone()).ok()?;
    Some(address.iter().map(|part| match part {
        libp2p::multiaddr::Protocol::Ip4(ip) => AddressPart::Ip4(u32::from(ip)),
        libp2p::multiaddr::Protocol::Ip6(ip) => AddressPart::Ip6(u128::from(ip)),
        libp2p::multiaddr::Protocol::P2p(id) => AddressPart::P2p(id.to_string()),
        libp2p::multiaddr::Protocol::P2pCircuit => AddressPart::P2pCircuit,
        _ => AddressPart::Other,
    }).collect())
}

/// What `libp2p::Multiaddr` reads a text as: the bytes of an address, or why it is none.
pub uninterp spec fn address_of_text(text: Seq<char>) -> Result<Seq<u8>, Seq<char>>;

/// Calls `libp2p::Multiaddr::from_str` on the text. What it reads are the bytes of an address.
#[verifier::external_body]
fn read_text(text: &str) -> (bytes: Result<Vec<u8>, String>)
    ensures
        match bytes {
            Ok(list) => address_of_text(text@) == Ok::<Seq<u8>, Seq<char>>(list@) && address_parts(
                list@,
            ) is Some,
            Err(reason) => address_of_text(text@) == Err::<Seq<u8>, Seq<char>>(reason@),
        },
{
    text.parse::<libp2p::Multiaddr>().map(|address| address.to_vec()).map_err(|err| err.to_string())
}

/// Calls `Display` of `libp2p::Multiaddr`.
#[verifier::external_body]
fn write_text(bytes: &Vec<u8>) -> (text: String)
    requires
        address_parts(bytes@) is Some,
    ensures
        text@ == address_text(bytes@),
{
    libp2p::Multiaddr::try_from(bytes.clone()).unwrap().to_string()
}

/// Calls `libp2p::Multiaddr::with` with a component that names a peer: it is added at the end.
#[verifier::external_body]
fn append_peer(bytes: &Vec<u8>, peer_id: &str) -> (longer: Vec<u8>)
    requires
        address_parts(bytes@) is Some,
        crate::peer::parsed_peer_id(peer_id@) == Some(peer_id@),
    ensures
        longer@ == bytes@ + peer_part_bytes(peer_id@),
        address_parts(longer@) == Some(address_parts(bytes@)->0.push(PartModel::P2p(peer_id@))),
{
    let address = libp2p::Multiaddr::try_from(bytes.clone()).unwrap();
    address.with(libp2p::multiaddr::Protocol::P2p(peer_id.parse().unwrap())).to_vec()
}

/// Calls `libp2p::Multiaddr::with` with the relay component: it is added at the end, in the two
/// bytes of its code.
#[verifier::external_body]
fn append_circuit(bytes: &Vec<u8>) -> (longer: Vec<u8>)
    requires
        address_parts(bytes@) is Some,
    ensures
        longer@ == bytes@ + seq![0xa2u8, 0x02u8],
        address_parts(longer@) == Some(address_parts(bytes@)->0.push(PartModel::P2pCircuit)),
{
    let address = libp2p::Multiaddr::try_from(bytes.clone()).unwrap();
    address.with(libp2p::multiaddr::Protocol::P2pCircuit).to_vec()
}

/// The address of a peer, in its binary form.
#[derive(Debug, PartialEq, Eq)]
pub struct Address {
    bytes: Vec<u8>,
}

impl View for Address {
    type V = Seq<u8>;

    closed spec fn view(&self) -> Seq<u8> {
        self.bytes@
    }
}

impl DeepView for Address {
    type V = Seq<u8>;

    open spec fn deep_view(&self) -> Seq<u8> {
        self@
    }
}

impl Clone for Address {
    fn clone(&self) -> (copy: Self)
        ensures
            copy@ == self@,
    {
        proof {
            use_type_invariant(self);
        }
        let bytes = self.bytes.clone();
        assert(bytes@ =~= self.bytes@);
        Address { bytes }
    }
}

impl Address {
    #[verifier::type_invariant]
    spec fn is_address(self) -> bool {
        address_parts(self.bytes@) is Some
    }

    /// The address with these bytes; nothing if they are no address.
    pub fn from_bytes(bytes: Vec<u8>) -> (address: Option<Address>)
        ensures
            match address {
                Some(a) => a@ == bytes@ && address_parts(bytes@) is Some,
                None => address_parts(bytes@) is None,
            },
    {
        match read_parts(&bytes) {
            Some(_) => Some(Address { bytes }),
            None => None,
        }
    }

    /// The address that a text writes, or why it writes none.
    pub fn parse(text: &str) -> (address: Result<Address, String>)
        ensures
            match address {
                Ok(a) => address_of_text(text@) == Ok::<Seq<u8>, Seq<char>>(a@),
                Err(reason) => address_of_text(text@) == Err::<Seq<u8>, Seq<char>>(reason@),
            },
    {
        match read_text(text) {
            Ok(bytes) => Ok(Address { bytes }),
            Err(reason) => Err(reason),
        }
    }

    /// The bytes of the address.
    pub fn to_bytes(&self) -> (bytes: Vec<u8>)
        ensures
            bytes@ == self@,
    {
        let bytes = self.bytes.clone();
        assert(bytes@ =~= self.bytes@);
        bytes
    }

    /// Whether two addresses have the same bytes.
    pub fn is_same(&self, other: &Address) -> (same: bool)
        ensures
            same == (self@ == other@),
    {
        if self.bytes.len() != other.bytes.len() {
            return false;
        }
        let mut i: usize = 0;
        while i < self.bytes.len()
            invariant
                i <= self@.len(),
                self@.len() == other@.len(),
                self@ == self.bytes@,
                other@ == other.bytes@,
                forall|j: int| 0 <= j < i ==> self@[j] == other@[j],
            decreases self.bytes.len() - i,
        {
            if self.bytes[i] != other.bytes[i] {
                return false;
            }
            i = i + 1;
        }
        assert(self@ =~= other@);
        true
    }

    /// The components of the address.
    pub fn parts(&self) -> (parts: Vec<AddressPart>)
        ensures
            address_parts(self@) == Some(deep(parts@)),
    {
        proof {
            use_type_invariant(self);
        }
        match read_parts(&self.bytes) {
            Some(parts) => parts,
            None => Vec::new(),
        }
    }

    /// The written form of the address.
    pub fn to_text(&self) -> (text: String)
        ensures
            text@ == address_text(self@),
    {
        proof {
            use_type_invariant(self);
        }
        write_text(&self.bytes)
    }

    /// The address with a component at its end that names a peer.
    pub fn with_peer(&self, peer_id: &PeerId) -> (longer: Address)
        ensures
            longer@ == self@ + peer_part_bytes(peer_id@),
            address_parts(longer@) == Some(
                address_parts(self@)->0.push(PartModel::P2p(peer_id@)),
            ),
    {
        proof {
            use_type_invariant(self);
        }
        Address { bytes: append_peer(&self.bytes, peer_id.as_str()) }
    }

    /// The address by which the peer at this address is used as a relay.
    pub fn with_circuit(&self) -> (longer: Address)
        ensures
            longer@ == self@ + seq![0xa2u8, 0x02u8],
            address_parts(longer@) == Some(address_parts(self@)->0.push(PartModel::P2pCircuit)),
    {
        proof {
            use_type_invariant(self);
        }
        Address { bytes: append_circuit(&self.bytes) }
    }
}

/// The parts go through a relay.
pub open spec fn goes_through_relay(parts: Seq<PartModel>) -> bool {
    exists|i: int| 0 <= i < parts.len() && parts[i] == PartModel::P2pCircuit
}

/// The part is the address that stands for no host in particular.
pub open spec fn is_unspecified_part(part: PartModel) -> bool {
    part == PartModel::Ip4(0) || part == PartModel::Ip6(0)
}

/// Some part names no host in particular.
pub open spec fn names_no_host(parts: Seq<PartModel>) -> bool {
    exists|i: int| 0 <= i < parts.len() && is_unspecified_part(#[trigger] parts[i])
}

/// The peer named last in the parts.
pub open spec fn last_peer(parts: Seq<PartModel>) -> Option<Seq<char>>
    decreases parts.len(),
{
    if parts.len() == 0 {
        None
    } else if let PartModel::P2p(peer_id) = parts.last() {
        Some(peer_id)
    } else {
        last_peer(parts.drop_last())
    }
}

/// Whether the parts go through a relay.
pub fn relay_in_parts(parts: &Vec<AddressPart>) -> (found: bool)
    ensures
        found == goes_through_relay(deep(parts@)),
{
    let mut i: usize = 0;
    while i < parts.len()
        invariant
            i <= parts@.len(),
            forall|j: int| 0 <= j < i ==> deep(parts@)[j] != PartModel::P2pCircuit,
        decreases parts.len() - i,
    {
        if let AddressPart::P2pCircuit = &parts[i] {
            assert(deep(parts@)[i as int] == PartModel::P2pCircuit);
            return true;
        }
        i = i + 1;
    }
    false
}

/// Whether some part names no host in particular.
pub fn unspecified_in_parts(parts: &Vec<AddressPart>) -> (found: bool)
    ensures
        found == names_no_host(deep(parts@)),
{
    let mut i: usize = 0;
    while i < parts.len()
        invariant
            i <= parts@.len(),
            forall|j: int| 0 <= j < i ==> !is_unspecified_part(#[trigger] deep(parts@)[j]),
        decreases parts.len() - i,
    {
        let unspecified = match &parts[i] {
            AddressPart::Ip4(bits) => *bits == 0,
            AddressPart::Ip6(bits) => *bits == 0,
            _ => false,
        };
        if unspecified {
            assert(is_unspecified_part(deep(parts@)[i as int]));
            return true;
        }
        i = i + 1;
    }
    false
}

/// The peer named last in the parts.
pub fn last_peer_in_parts(parts: &Vec<AddressPart>) -> (peer_id: Option<String>)
    ensures
        peer_id.deep_view() == last_peer(deep(parts@)),
{
    let mut i: usize = parts.len();
    assert(deep(parts@).take(i as int) =~= deep(parts@));
    while i > 0
        invariant
            i <= parts@.len(),
            last_peer(deep(parts@)) == last_peer(deep(parts@).take(i as int)),
        decreases i,
    {
        i = i - 1;
        assert(deep(parts@).take(i + 1).drop_last() =~= deep(parts@).take(i as int));
        assert(deep(parts@).take(i + 1).last() == deep(parts@)[i as int]);
        if let AddressPart::P2p(peer_id) = &parts[i] {
            return Some(peer_id.clone());
        }
    }
    None
}

/// Whether the address goes through a relay.
pub fn is_relay_address(address: &Address) -> (relayed: bool)
    ensures
        relayed == goes_through_relay(address_parts(address@)->0),
{
    relay_in_parts(&address.parts())
}

/// Whether the address names no host in particular.
pub fn is_unspecified_ip_address(address: &Address) -> (unspecified: bool)
    ensures
        unspecified == names_no_host(address_parts(address@)->0),
{
    unspecified_in_parts(&address.parts())
}

/// The peer that the address leads to.
pub fn peer_id_from_multiaddr(address: &Address) -> (peer_id: Option<String>)
    ensures
        peer_id.deep_view() == last_peer(address_parts(address@)->0),
{
    last_peer_in_parts(&address.parts())
}

/// What an address of a peer is to be used as.
#[derive(Debug, PartialEq, Eq)]
pub enum Fitness {
    /// As it stands.
    Complete,
    /// With the peer added at its end.
    LacksPeer,
    /// Not at all.
    Unfit,
}

/// An address fits a peer if it names a host and leads to that peer, or to none.
pub open spec fn fitness(peer_id: Seq<char>, parts: Seq<PartModel>) -> Fitness {
    if names_no_host(parts) {
        Fitness::Unfit
    } else {
        match last_peer(parts) {
            Some(last) => if last == peer_id {
                Fitness::Complete
            } else {
                Fitness::Unfit
            },
            None => Fitness::LacksPeer,
        }
    }
}

/// Some part names the peer.
pub open spec fn names_peer(parts: Seq<PartModel>, peer_id: Seq<char>) -> bool {
    exists|i: int| 0 <= i < parts.len() && parts[i] == PartModel::P2p(peer_id)
}

/// The part names a peer other than this one.
pub open spec fn is_other_peer(part: PartModel, peer_id: Seq<char>) -> bool {
    part matches PartModel::P2p(named) && named != peer_id
}

/// Some part names another peer.
pub open spec fn names_other_peer(parts: Seq<PartModel>, peer_id: Seq<char>) -> bool {
    exists|i: int| 0 <= i < parts.len() && is_other_peer(#[trigger] parts[i], peer_id)
}

/// An address fits a peer directly if it names a host, uses no relay and names no other peer.
pub open spec fn direct_fitness(peer_id: Seq<char>, parts: Seq<PartModel>) -> Fitness {
    if goes_through_relay(parts) || names_no_host(parts) || names_other_peer(parts, peer_id) {
        Fitness::Unfit
    } else if names_peer(parts, peer_id) {
        Fitness::Complete
    } else {
        Fitness::LacksPeer
    }
}

/// How an address with these parts fits a peer.
pub fn fitness_of_parts(peer_id: &str, parts: &Vec<AddressPart>) -> (fit: Fitness)
    ensures
        fit == fitness(peer_id@, deep(parts@)),
{
    if unspecified_in_parts(parts) {
        return Fitness::Unfit;
    }
    match last_peer_in_parts(parts) {
        Some(last) => if last == peer_id.to_owned() {
            Fitness::Complete
        } else {
            Fitness::Unfit
        },
        None => Fitness::LacksPeer,
    }
}

/// How an address with these parts fits a peer directly.
pub fn direct_fitness_of_parts(peer_id: &str, parts: &Vec<AddressPart>) -> (fit: Fitness)
    ensures
        fit == direct_fitness(peer_id@, deep(parts@)),
{
    if relay_in_parts(parts) || unspecified_in_parts(parts) {
        return Fitness::Unfit;
    }
    let wanted = peer_id.to_owned();
    let mut has_target_peer_id = false;
    let mut i: usize = 0;
    while i < parts.len()
        invariant
            i <= parts@.len(),
            wanted@ == peer_id@,
            !goes_through_relay(deep(parts@)),
            !names_no_host(deep(parts@)),
            forall|j: int| 0 <= j < i ==> !is_other_peer(#[trigger] deep(parts@)[j], peer_id@),
            has_target_peer_id == exists|j: int|
                0 <= j < i && deep(parts@)[j] == PartModel::P2p(peer_id@),
        decreases parts.len() - i,
    {
        if let AddressPart::P2p(named) = &parts[i] {
            if *named != wanted {
                assert(is_other_peer(deep(parts@)[i as int], peer_id@));
                return Fitness::Unfit;
            }
            assert(deep(parts@)[i as int] == PartModel::P2p(peer_id@));
            has_target_peer_id = true;
        }
        i = i + 1;
    }
    if has_target_peer_id {
        Fitness::Complete
    } else {
        Fitness::LacksPeer
    }
}

/// The bytes of an address that fits so far.
pub open spec fn fitted(peer_id: Seq<char>, bytes: Seq<u8>, fit: Fitness) -> Option<Seq<u8>> {
    match fit {
        Fitness::Complete => Some(bytes),
        Fitness::LacksPeer => Some(bytes + peer_part_bytes(peer_id)),
        Fitness::Unfit => None,
    }
}

fn fit_address(peer_id: &PeerId, address: Address, fit: Fitness) -> (fitting: Option<Address>)
    ensures
        fitting.deep_view() == fitted(peer_id@, address@, fit),
{
    match fit {
        Fitness::Complete => Some(address),
        Fitness::LacksPeer => Some(address.with_peer(peer_id)),
        Fitness::Unfit => None,
    }
}

/// The address of a peer as it is dialled.
pub open spec fn peer_address(peer_id: Seq<char>, bytes: Seq<u8>) -> Option<Seq<u8>> {
    fitted(peer_id, bytes, fitness(peer_id, address_parts(bytes)->0))
}

/// The address of a peer as it is dialled without a relay.
pub open spec fn direct_peer_address(peer_id: Seq<char>, bytes: Seq<u8>) -> Option<Seq<u8>> {
    fitted(peer_id, bytes, direct_fitness(peer_id, address_parts(bytes)->0))
}

/// Brings an address of a peer into the form in which it is dialled.
pub fn normalize_peer_address(peer_id: &PeerId, address: Address) -> (normal: Option<Address>)
    ensures
        normal.deep_view() == peer_address(peer_id@, address@),
{
    let fit = fitness_of_parts(peer_id.as_str(), &address.parts());
    fit_address(peer_id, address, fit)
}

/// Brings an address of a peer into the form in which it is dialled without a relay.
pub fn normalize_direct_peer_address(peer_id: &PeerId, address: Address) -> (normal: Option<
    Address,
>)
    ensures
        normal.deep_view() == direct_peer_address(peer_id@, address@),
{
    let fit = direct_fitness_of_parts(peer_id.as_str(), &address.parts());
    fit_address(peer_id, address, fit)
}

/// An address that has been brought into its direct form stays as it is when that is done again.
/// `longer` are the parts once the peer is added at the end.
pub proof fn direct_form_is_stable(peer_id: Seq<char>, parts: Seq<PartModel>)
    requires
        direct_fitness(peer_id, parts) != Fitness::Unfit,
    ensures
        direct_fitness(peer_id, parts) == Fitness::LacksPeer ==> direct_fitness(
            peer_id,
            parts.push(PartModel::P2p(peer_id)),
        ) == Fitness::Complete,
        direct_fitness(peer_id, parts) == Fitness::LacksPeer ==> last_peer(
            parts.push(PartModel::P2p(peer_id)),
        ) == Some(peer_id),
{
    let longer = parts.push(PartModel::P2p(peer_id));
    assert(longer.last() == PartModel::P2p(peer_id));
    assert(longer[parts.len() as int] == PartModel::P2p(peer_id));
    if goes_through_relay(longer) {
        let i = choose|i: int| 0 <= i < longer.len() && longer[i] == PartModel::P2pCircuit;
        assert(parts[i] == PartModel::P2pCircuit);
    }
    if names_no_host(longer) {
        let i = choose|i: int| 0 <= i < longer.len() && is_unspecified_part(#[trigger] longer[i]);
        assert(is_unspecified_part(parts[i]));
    }
    if names_other_peer(longer, peer_id) {
        let i = choose|i: int|
            0 <= i < longer.len() && is_other_peer(#[trigger] longer[i], peer_id);
        assert(is_other_peer(parts[i], peer_id));
    }
}

/// How much an address is preferred: IPv6 before IPv4 before anything else.
pub open spec fn preference(text: Seq<char>) -> u8 {
    if contains_text(text, "/ip6/"@) || contains_text(text, "/dns6/"@) {
        2
    } else if contains_text(text, "/ip4/"@) || contains_text(text, "/dns4/"@) {
        1
    } else {
        0
    }
}

/// How much an address with this written form is preferred.
pub fn preference_of_text(text: &str) -> (score: u8)
    ensures
        score == preference(text@),
{
    if contains(text, "/ip6/") || contains(text, "/dns6/") {
        2
    } else if contains(text, "/ip4/") || contains(text, "/dns4/") {
        1
    } else {
        0
    }
}

/// How much an address is preferred.
pub fn ipv6_preference_score(address: &Address) -> (score: u8)
    ensures
        score == preference(address_text(address@)),
{
    preference_of_text(address.to_text().as_str())
}

/// The addresses of one preference, in their order.
pub open spec fn of_preference(addresses: Seq<Seq<u8>>, score: u8) -> Seq<Seq<u8>> {
    addresses.filter(|bytes: Seq<u8>| preference(address_text(bytes)) == score)
}

/// The addresses by preference, and in their order within one preference.
pub open spec fn prioritized(addresses: Seq<Seq<u8>>) -> Seq<Seq<u8>> {
    of_preference(addresses, 2) + of_preference(addresses, 1) + of_preference(addresses, 0)
}

fn select_preference(addresses: &Vec<Address>, score: u8) -> (selected: Vec<Address>)
    ensures
        deep(selected@) == of_preference(deep(addresses@), score),
{
    broadcast use group_deep;

    let mut selected: Vec<Address> = Vec::new();
    let ghost all = deep(addresses@);
    let ghost keep = |bytes: Seq<u8>| preference(address_text(bytes)) == score;
    let mut i: usize = 0;
    proof {
        reveal(Seq::filter);
        assert(deep(selected@) =~= all.take(0).filter(keep));
    }
    while i < addresses.len()
        invariant
            i <= addresses@.len(),
            all == deep(addresses@),
            keep == (|bytes: Seq<u8>| preference(address_text(bytes)) == score),
            deep(selected@) == all.take(i as int).filter(keep),
        decreases addresses.len() - i,
    {
        proof {
            reveal(Seq::filter);
            assert(all.take(i + 1).drop_last() =~= all.take(i as int));
            assert(all.take(i + 1).last() == addresses@[i as int]@);
        }
        if ipv6_preference_score(&addresses[i]) == score {
            selected.push(addresses[i].clone());
        }
        i = i + 1;
    }
    assert(all.take(i as int) =~= all);
    selected
}

/// Orders addresses by preference.
pub fn prioritize_multiaddrs(addresses: Vec<Address>) -> (ordered: Vec<Address>)
    ensures
        deep(ordered@) == prioritized(deep(addresses@)),
{
    broadcast use group_deep;

    let mut ordered = select_preference(&addresses, 2);
    let mut second = select_preference(&addresses, 1);
    let mut third = select_preference(&addresses, 0);
    ordered.append(&mut second);
    ordered.append(&mut third);
    ordered
}

} // verus!
