//! Joining a room.
use crate::address::{
    address_of_text, address_parts, address_text, last_peer, peer_id_from_multiaddr,
    prioritize_multiaddrs, prioritized, Address,
};
use crate::collections::{deep, group_deep, with_item};
use crate::effect::{Effect, EffectModel, Task, TaskModel};
use crate::history::{History, HistoryModel};
use crate::model::{UiEvent, UiEventModel};
use crate::names::{NameRegistry, NameRegistryModel};
use crate::peer::PeerId;
use crate::queue::{MusicQueue, MusicQueueModel};
use crate::routes::{PeerBook, PeerBookModel};
use crate::session::{
    announce, announcement, just, nothing, perform, tell, telling, Session, SessionModel, Step,
};
use crate::sync::{SyncBook, SyncBookModel};
use vstd::prelude::*;
use vstd::string::*;

verus! {

/// How a peer joins a room.
#[derive(Debug, PartialEq, Eq)]
pub struct BackendConfig {
    /// The name that it goes by.
    pub name: String,
    /// The room.
    pub topic: String,
    /// Where to listen; a few usual places if there are none.
    pub listen: Vec<Address>,
    /// The peers to dial.
    pub peer: Vec<Address>,
    /// The relays to use, which are rendezvous nodes too.
    pub relay: Vec<Address>,
    /// Peers nearby are not looked for.
    pub no_mdns: bool,
}

/// Where to listen if nothing else is said.
pub open spec fn usual_places() -> Seq<Seq<char>> {
    seq![
        "/ip6/::/tcp/0"@,
        "/ip6/::/udp/0/quic-v1"@,
        "/ip4/0.0.0.0/tcp/0"@,
        "/ip4/0.0.0.0/udp/0/quic-v1"@,
    ]
}

/// The addresses that texts write, or why the first that writes none does not.
pub open spec fn all_parsed(texts: Seq<Seq<char>>) -> Result<Seq<Seq<u8>>, Seq<char>>
    decreases texts.len(),
{
    if texts.len() == 0 {
        Ok(Seq::empty())
    } else {
        match all_parsed(texts.drop_last()) {
            Ok(before) => match address_of_text(texts.last()) {
                Ok(bytes) => Ok(before.push(bytes)),
                Err(reason) => Err(reason),
            },
            Err(reason) => Err(reason),
        }
    }
}

/// An effect, and what the user is told of it.
pub open spec fn attempt(effect: EffectModel, done: Seq<char>, failed: Seq<char>) -> Seq<TaskModel> {
    seq![perform(seq![effect]), announcement(done, failed)]
}

/// Listens at an address.
pub open spec fn listening(bytes: Seq<u8>) -> Seq<TaskModel> {
    attempt(
        EffectModel::Listen(bytes),
        "listening requested on "@ + address_text(bytes),
        "listen failed on "@ + address_text(bytes) + ": "@,
    )
}

/// The address by which the peer at an address is used as a relay.
pub open spec fn circuit(bytes: Seq<u8>) -> Seq<u8> {
    bytes + seq![0xa2u8, 0x02u8]
}

/// The peer that an address leads to.
pub open spec fn peer_at(bytes: Seq<u8>) -> Option<Seq<char>> {
    last_peer(address_parts(bytes)->0)
}

/// Asks a relay for a reservation. A relay without a name is no rendezvous node.
pub open spec fn reserving(bytes: Seq<u8>) -> Seq<TaskModel> {
    let warning = if peer_at(bytes) is Some {
        Seq::empty()
    } else {
        seq![
            perform(
                seq![
                    telling(
                        "relay address has no /p2p peer id; rendezvous disabled for "@
                            + address_text(bytes),
                    ),
                ],
            ),
        ]
    };
    warning + attempt(
        EffectModel::Listen(circuit(bytes)),
        "requesting relay reservation via "@ + address_text(circuit(bytes)),
        "relay reservation request failed "@ + address_text(circuit(bytes)) + ": "@,
    )
}

/// Dials an address.
pub open spec fn dialling(bytes: Seq<u8>) -> Seq<TaskModel> {
    attempt(
        EffectModel::DialAddress(bytes),
        "dialing peer "@ + address_text(bytes),
        "peer dial failed "@ + address_text(bytes) + ": "@,
    )
}

/// Listens at some addresses in turn.
pub open spec fn all_listening(addresses: Seq<Seq<u8>>) -> Seq<TaskModel>
    decreases addresses.len(),
{
    if addresses.len() == 0 {
        Seq::empty()
    } else {
        all_listening(addresses.drop_last()) + listening(addresses.last())
    }
}

/// Asks some relays for reservations in turn.
pub open spec fn all_reserving(addresses: Seq<Seq<u8>>) -> Seq<TaskModel>
    decreases addresses.len(),
{
    if addresses.len() == 0 {
        Seq::empty()
    } else {
        all_reserving(addresses.drop_last()) + reserving(addresses.last())
    }
}

/// Dials some addresses in turn.
pub open spec fn all_dialling(addresses: Seq<Seq<u8>>) -> Seq<TaskModel>
    decreases addresses.len(),
{
    if addresses.len() == 0 {
        Seq::empty()
    } else {
        all_dialling(addresses.drop_last()) + dialling(addresses.last())
    }
}

/// The rendezvous nodes among some relays.
pub open spec fn nodes_among(nodes: Seq<Seq<char>>, relays: Seq<Seq<u8>>) -> Seq<Seq<char>>
    decreases relays.len(),
{
    if relays.len() == 0 {
        nodes
    } else {
        match peer_at(relays.last()) {
            Some(node) => with_item(nodes_among(nodes, relays.drop_last()), node),
            None => nodes_among(nodes, relays.drop_last()),
        }
    }
}

impl SessionModel {
    /// A peer that has just joined.
    pub open spec fn joined(
        local: Seq<char>,
        name: Seq<char>,
        topic: Seq<char>,
        joined_at: i64,
    ) -> SessionModel {
        SessionModel {
            local: local,
            name: name,
            joined_at: joined_at,
            topic: topic,
            history: HistoryModel::empty(),
            names: NameRegistryModel::empty(),
            peers: PeerBookModel::empty(),
            queue: MusicQueueModel::empty(),
            playback: None,
            pending: None,
            playback_version: 0,
            vote: None,
            sync: SyncBookModel::empty(),
            message_seq: 0,
            nonce_seq: 0,
            agenda: Seq::empty(),
        }
    }

    /// What a peer does first: it shows who it is, follows the room, and then opens its doors.
    pub open spec fn start(
        self,
        listen: Seq<Seq<u8>>,
        relay: Seq<Seq<u8>>,
        peer: Seq<Seq<u8>>,
        audio_error: Option<Seq<char>>,
    ) -> Step {
        self.deferring(
            seq![TaskModel::Open { listen: listen, relay: relay, peer: peer }],
        ).asking(
            match audio_error {
                Some(error) => seq![telling("audio output unavailable: "@ + error)],
                None => Seq::empty(),
            } + seq![
                EffectModel::Ui(UiEventModel::LocalPeerId(self.local)),
                self.queue_view(),
                EffectModel::Subscribe,
            ],
        )
    }

    /// The peer listens, asks relays for reservations and dials, preferred addresses first.
    pub open spec fn open_doors(
        self,
        listen: Seq<Seq<u8>>,
        relay: Seq<Seq<u8>>,
        peer: Seq<Seq<u8>>,
    ) -> SessionModel {
        SessionModel {
            peers: PeerBookModel {
                rendezvous: nodes_among(self.peers.rendezvous, prioritized(relay)),
                ..self.peers
            },
            ..self
        }.deferring(
            all_listening(listen) + all_reserving(prioritized(relay)) + all_dialling(
                prioritized(peer),
            ),
        )
    }

    /// Where the peer listens.
    pub open spec fn places(listen: Seq<Seq<u8>>) -> Result<Seq<Seq<u8>>, Seq<char>> {
        if listen.len() == 0 {
            all_parsed(usual_places())
        } else {
            Ok(prioritized(listen))
        }
    }
}

fn attempted(effect: Effect, done: String, failed: String) -> (tasks: Vec<Task>)
    ensures
        deep(tasks@) == attempt(effect@, done@, failed@),
{
    let tasks = vec![Task::Perform(just(effect)), announce(done, failed)];
    assert(deep(tasks@) =~= attempt(effect@, done@, failed@));
    tasks
}

fn parse_all(texts: &Vec<String>) -> (addresses: Result<Vec<Address>, String>)
    ensures
        match addresses {
            Ok(list) => all_parsed(deep(texts@)) == Ok::<Seq<Seq<u8>>, Seq<char>>(deep(list@)),
            Err(reason) => all_parsed(deep(texts@)) == Err::<Seq<Seq<u8>>, Seq<char>>(reason@),
        },
{
    let ghost all = deep(texts@);
    let mut addresses: Vec<Address> = Vec::new();
    let mut i: usize = 0;
    assert(deep(addresses@) =~= Seq::<Seq<u8>>::empty());
    assert(all.take(0) =~= Seq::<Seq<char>>::empty());
    while i < texts.len()
        invariant
            i <= texts@.len(),
            all == deep(texts@),
            all_parsed(all.take(i as int)) == Ok::<Seq<Seq<u8>>, Seq<char>>(deep(addresses@)),
        decreases texts.len() - i,
    {
        broadcast use group_deep;

        proof {
            assert(all.take(i + 1).drop_last() =~= all.take(i as int));
            assert(all.take(i + 1).last() == texts@[i as int]@);
        }
        match Address::parse(texts[i].as_str()) {
            Ok(address) => {
                addresses.push(address);
            },
            Err(reason) => {
                proof {
                    first_failure(all, i + 1, reason@);
                }
                return Err(reason);
            },
        }
        i = i + 1;
    }
    assert(all.take(i as int) =~= all);
    Ok(addresses)
}

/// The first text that writes no address decides.
proof fn first_failure(texts: Seq<Seq<char>>, n: int, reason: Seq<char>)
    requires
        0 <= n <= texts.len(),
        all_parsed(texts.take(n)) == Err::<Seq<Seq<u8>>, Seq<char>>(reason),
    ensures
        all_parsed(texts) == Err::<Seq<Seq<u8>>, Seq<char>>(reason),
    decreases texts.len() - n,
{
    if n < texts.len() {
        assert(texts.take(n + 1).drop_last() =~= texts.take(n));
        first_failure(texts, n + 1, reason);
    } else {
        assert(texts.take(n) =~= texts);
    }
}

/// Finds where the peer listens, preferred addresses first.
pub fn listen_places(listen: Vec<Address>) -> (places: Result<Vec<Address>, String>)
    ensures
        match places {
            Ok(list) => SessionModel::places(deep(listen@)) == Ok::<Seq<Seq<u8>>, Seq<char>>(
                deep(list@),
            ),
            Err(reason) => SessionModel::places(deep(listen@)) == Err::<Seq<Seq<u8>>, Seq<char>>(
                reason@,
            ),
        },
{
    if listen.len() != 0 {
        return Ok(prioritize_multiaddrs(listen));
    }
    let usual = vec![
        "/ip6/::/tcp/0".to_owned(),
        "/ip6/::/udp/0/quic-v1".to_owned(),
        "/ip4/0.0.0.0/tcp/0".to_owned(),
        "/ip4/0.0.0.0/udp/0/quic-v1".to_owned(),
    ];
    assert(deep(usual@) =~= usual_places());
    parse_all(&usual)
}

fn listen_at(addresses: &Vec<Address>) -> (tasks: Vec<Task>)
    ensures
        deep(tasks@) == all_listening(deep(addresses@)),
{
    let ghost all = deep(addresses@);
    let mut tasks: Vec<Task> = Vec::new();
    let mut i: usize = 0;
    assert(deep(tasks@) =~= all_listening(all.take(0)));
    while i < addresses.len()
        invariant
            i <= addresses@.len(),
            all == deep(addresses@),
            deep(tasks@) == all_listening(all.take(i as int)),
        decreases addresses.len() - i,
    {
        broadcast use group_deep;

        proof {
            assert(all.take(i + 1).drop_last() =~= all.take(i as int));
            assert(all.take(i + 1).last() == addresses@[i as int]@);
        }
        let text = addresses[i].to_text();
        let mut more = attempted(
            Effect::Listen(addresses[i].clone()),
            "listening requested on ".to_owned().concat(text.as_str()),
            "listen failed on ".to_owned().concat(text.as_str()).concat(": "),
        );
        tasks.append(&mut more);
        i = i + 1;
    }
    assert(all.take(i as int) =~= all);
    tasks
}

fn reserve_at(address: &Address) -> (tasks: Vec<Task>)
    ensures
        deep(tasks@) == reserving(address@),
{
    broadcast use group_deep;

    let mut tasks: Vec<Task> = Vec::new();
    assert(deep(tasks@) =~= Seq::<TaskModel>::empty());
    if peer_id_from_multiaddr(address).is_none() {
        tasks.push(
            Task::Perform(
                just(
                    tell(
                        "relay address has no /p2p peer id; rendezvous disabled for ".to_owned().concat(
                            address.to_text().as_str(),
                        ),
                    ),
                ),
            ),
        );
    }
    let relayed = address.with_circuit();
    let text = relayed.to_text();
    let mut more = attempted(
        Effect::Listen(relayed),
        "requesting relay reservation via ".to_owned().concat(text.as_str()),
        "relay reservation request failed ".to_owned().concat(text.as_str()).concat(": "),
    );
    tasks.append(&mut more);
    assert(deep(tasks@) =~= reserving(address@));
    tasks
}

fn reserve_all(addresses: &Vec<Address>) -> (tasks: Vec<Task>)
    ensures
        deep(tasks@) == all_reserving(deep(addresses@)),
{
    let ghost all = deep(addresses@);
    let mut tasks: Vec<Task> = Vec::new();
    let mut i: usize = 0;
    assert(deep(tasks@) =~= all_reserving(all.take(0)));
    while i < addresses.len()
        invariant
            i <= addresses@.len(),
            all == deep(addresses@),
            deep(tasks@) == all_reserving(all.take(i as int)),
        decreases addresses.len() - i,
    {
        broadcast use group_deep;

        proof {
            assert(all.take(i + 1).drop_last() =~= all.take(i as int));
            assert(all.take(i + 1).last() == addresses@[i as int]@);
        }
        let mut more = reserve_at(&addresses[i]);
        tasks.append(&mut more);
        i = i + 1;
    }
    assert(all.take(i as int) =~= all);
    tasks
}

fn dial_all(addresses: &Vec<Address>) -> (tasks: Vec<Task>)
    ensures
        deep(tasks@) == all_dialling(deep(addresses@)),
{
    let ghost all = deep(addresses@);
    let mut tasks: Vec<Task> = Vec::new();
    let mut i: usize = 0;
    assert(deep(tasks@) =~= all_dialling(all.take(0)));
    while i < addresses.len()
        invariant
            i <= addresses@.len(),
            all == deep(addresses@),
            deep(tasks@) == all_dialling(all.take(i as int)),
        decreases addresses.len() - i,
    {
        broadcast use group_deep;

        proof {
            assert(all.take(i + 1).drop_last() =~= all.take(i as int));
            assert(all.take(i + 1).last() == addresses@[i as int]@);
        }
        let text = addresses[i].to_text();
        let mut more = attempted(
            Effect::DialAddress(addresses[i].clone()),
            "dialing peer ".to_owned().concat(text.as_str()),
            "peer dial failed ".to_owned().concat(text.as_str()).concat(": "),
        );
        tasks.append(&mut more);
        i = i + 1;
    }
    assert(all.take(i as int) =~= all);
    tasks
}

impl Session {
    /// A peer that joins a room at `joined_at`, and what it does first. `audio_error` is why it
    /// has no player, if it has none.
    pub fn start(
        config: BackendConfig,
        local: PeerId,
        joined_at: i64,
        audio_error: Option<String>,
    ) -> (started: (Session, Vec<Effect>))
        ensures
            (Step { after: started.0@, effects: deep(started.1@) }) == SessionModel::joined(
                local@,
                config.name@,
                config.topic@,
                joined_at,
            ).start(
                deep(config.listen@),
                deep(config.relay@),
                deep(config.peer@),
                audio_error.deep_view(),
            ),
    {
        broadcast use group_deep;

        let agenda: Vec<Task> = Vec::new();
        assert(deep(agenda@) =~= Seq::<TaskModel>::empty());
        let mut session = Session {
            local,
            name: config.name,
            joined_at,
            topic: config.topic,
            history: History::new(),
            names: NameRegistry::new(),
            peers: PeerBook::new(),
            queue: MusicQueue::new(),
            playback: None,
            pending: None,
            playback_version: 0,
            vote: None,
            sync: SyncBook::new(),
            message_seq: 0,
            nonce_seq: 0,
            agenda,
        };
        let ghost fresh = session@;
        let mut effects = match audio_error {
            Some(error) => just(tell("audio output unavailable: ".to_owned().concat(error.as_str()))),
            None => nothing(),
        };
        effects.push(Effect::Ui(UiEvent::LocalPeerId(session.local.to_text())));
        effects.push(session.show_queue());
        effects.push(Effect::Subscribe);
        session.defer(
            vec![Task::Open { listen: config.listen, relay: config.relay, peer: config.peer }],
        );
        assert(deep(effects@) =~= fresh.start(
            deep(config.listen@),
            deep(config.relay@),
            deep(config.peer@),
            audio_error.deep_view(),
        ).effects);
        (session, effects)
    }

    /// Listens, asks relays for reservations and dials.
    pub fn open_doors(&mut self, listen: Vec<Address>, relay: Vec<Address>, peer: Vec<Address>)
        ensures
            final(self)@ == old(self)@.open_doors(deep(listen@), deep(relay@), deep(peer@)),
    {
        broadcast use group_deep;

        let relays = prioritize_multiaddrs(relay);
        let peers = prioritize_multiaddrs(peer);
        let ghost all = deep(relays@);
        let ghost before = self@;
        let mut i: usize = 0;
        assert(all.take(0) =~= Seq::<Seq<u8>>::empty());
        while i < relays.len()
            invariant
                i <= relays@.len(),
                all == deep(relays@),
                self@ == (SessionModel {
                    peers: PeerBookModel {
                        rendezvous: nodes_among(before.peers.rendezvous, all.take(i as int)),
                        ..before.peers
                    },
                    ..before
                }),
            decreases relays.len() - i,
        {
            proof {
                assert(all.take(i + 1).drop_last() =~= all.take(i as int));
                assert(all.take(i + 1).last() == relays@[i as int]@);
            }
            if let Some(node) = peer_id_from_multiaddr(&relays[i]) {
                let _new = self.peers.rendezvous.insert(node.as_str());
            }
            i = i + 1;
        }
        assert(all.take(i as int) =~= all);
        let mut tasks = listen_at(&listen);
        let mut reservations = reserve_all(&relays);
        let mut dials = dial_all(&peers);
        tasks.append(&mut reservations);
        tasks.append(&mut dials);
        self.defer(tasks);
    }
}

} // verus!
