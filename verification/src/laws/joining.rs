//! How a peer joins a room.
use crate::address::{address_of_text, address_text, prioritized};
use crate::effect::{EffectModel, FailureModel, OutcomeModel, TaskModel, WorldModel};
use crate::history::HistoryModel;
use crate::laws::addressing::{an_address_leads_to_the_last_peer, ends_at, mentions};
use crate::laws::basics::{one_more, said, told_either_way};
use crate::laws::queueing::queue_told;
use crate::model::UiEventModel;
use crate::names::NameRegistryModel;
use crate::queue::MusicQueueModel;
use crate::routes::PeerBookModel;
use crate::session::startup::{
    all_dialling, all_listening, all_parsed, all_reserving, nodes_among, usual_places,
};
use crate::session::{SessionModel, Step};
use crate::sync::SyncBookModel;
use vstd::prelude::*;

verus! {

/// A peer that joins knows nothing yet. It shows who it is and an empty queue, follows the room,
/// and opens its doors next. That it has no player is told first.
#[verifier::rlimit(60)]
pub proof fn a_peer_begins_with_nothing(
    local: Seq<char>,
    name: Seq<char>,
    topic: Seq<char>,
    joined_at: i64,
    listen: Seq<Seq<u8>>,
    relay: Seq<Seq<u8>>,
    peer: Seq<Seq<u8>>,
    audio_error: Option<Seq<char>>,
)
    ensures
        ({
            let step = SessionModel::joined(local, name, topic, joined_at).start(
                listen,
                relay,
                peer,
                audio_error,
            );
            &&& step.after == (SessionModel {
                local: local,
                name: name,
                joined_at: joined_at,
                topic: topic,
                history: HistoryModel { records: Seq::empty(), seen: Seq::empty() },
                names: NameRegistryModel { claims: Seq::empty(), conflicts: Seq::empty() },
                peers: PeerBookModel {
                    explicit: Seq::empty(),
                    routes: Seq::empty(),
                    subscribers: Seq::empty(),
                    addresses: Seq::empty(),
                    backoffs: Seq::empty(),
                    warmups: Seq::empty(),
                    rendezvous: Seq::empty(),
                },
                queue: MusicQueueModel { items: Seq::empty(), version: 0, updated_at: 0 },
                playback: None,
                pending: None,
                playback_version: 0,
                vote: None,
                sync: SyncBookModel {
                    history_requests: Seq::empty(),
                    queue_requests: Seq::empty(),
                    due: Seq::empty(),
                },
                message_seq: 0,
                nonce_seq: 0,
                agenda: seq![TaskModel::Open { listen: listen, relay: relay, peer: peer }],
            })
            &&& step.effects == (match audio_error {
                Some(error) => seq![said("audio output unavailable: "@ + error)],
                None => Seq::empty(),
            }) + seq![
                EffectModel::Ui(UiEventModel::LocalPeerId(local)),
                EffectModel::Ui(UiEventModel::Queue(queue_told(step.after))),
                EffectModel::Subscribe,
            ]
        }),
{
    let step = SessionModel::joined(local, name, topic, joined_at).start(
        listen,
        relay,
        peer,
        audio_error,
    );
    assert(step.after.agenda =~= seq![
        TaskModel::Open { listen: listen, relay: relay, peer: peer },
    ]);
}

/// Something is tried at an address, and what came of it is told.
pub open spec fn tried_and_told(
    effect: EffectModel,
    done: Seq<char>,
    failed: Seq<char>,
    bytes: Seq<u8>,
) -> Seq<TaskModel> {
    seq![
        TaskModel::Perform(seq![effect]),
        told_either_way(done + address_text(bytes), failed + address_text(bytes) + ": "@),
    ]
}

/// A relay is asked for a reservation by listening through it. One without an identifier is told of
/// first.
pub open spec fn asked_for_a_reservation(bytes: Seq<u8>) -> Seq<TaskModel> {
    let through = bytes.push(0xa2u8).push(0x02u8);
    (if exists|p: Seq<char>| #[trigger] mentions(bytes, p) {
        Seq::empty()
    } else {
        seq![
            TaskModel::Perform(
                seq![
                    said(
                        "relay address has no /p2p peer id; rendezvous disabled for "@
                            + address_text(bytes),
                    ),
                ],
            ),
        ]
    }) + tried_and_told(
        EffectModel::Listen(through),
        "requesting relay reservation via "@,
        "relay reservation request failed "@,
        through,
    )
}

/// However many places there are, a peer listens at each, asks each relay for a reservation and
/// dials each address, in turn.
#[verifier::rlimit(60)]
pub proof fn each_door_is_opened(addresses: Seq<Seq<u8>>, bytes: Seq<u8>)
    ensures
        all_listening(Seq::empty()).len() == 0,
        all_reserving(Seq::empty()).len() == 0,
        all_dialling(Seq::empty()).len() == 0,
        all_listening(addresses.push(bytes)) == all_listening(addresses) + tried_and_told(
            EffectModel::Listen(bytes),
            "listening requested on "@,
            "listen failed on "@,
            bytes,
        ),
        all_reserving(addresses.push(bytes)) == all_reserving(addresses) + asked_for_a_reservation(
            bytes,
        ),
        all_dialling(addresses.push(bytes)) == all_dialling(addresses) + tried_and_told(
            EffectModel::DialAddress(bytes),
            "dialing peer "@,
            "peer dial failed "@,
            bytes,
        ),
{
    let all = addresses.push(bytes);
    assert(all.drop_last() =~= addresses);
    assert(all.last() == bytes);
    an_address_leads_to_the_last_peer(bytes, Seq::empty());
    assert(crate::session::startup::circuit(bytes) =~= bytes.push(0xa2u8).push(0x02u8));
    assert(crate::session::startup::listening(bytes) =~= tried_and_told(
        EffectModel::Listen(bytes),
        "listening requested on "@,
        "listen failed on "@,
        bytes,
    ));
    assert(crate::session::startup::reserving(bytes) =~= asked_for_a_reservation(bytes));
    assert(crate::session::startup::dialling(bytes) =~= tried_and_told(
        EffectModel::DialAddress(bytes),
        "dialing peer "@,
        "peer dial failed "@,
        bytes,
    ));
}

/// The rendezvous nodes are those that were known, and every peer that a relay address leads to.
pub proof fn every_relay_is_a_rendezvous_node(
    nodes: Seq<Seq<char>>,
    relays: Seq<Seq<u8>>,
    node: Seq<char>,
)
    ensures
        nodes_among(nodes, relays).contains(node) <==> nodes.contains(node) || exists|i: int|
            0 <= i < relays.len() && ends_at(#[trigger] relays[i], node),
    decreases relays.len(),
{
    if relays.len() > 0 {
        let fewer = relays.drop_last();
        let n = relays.len() - 1;
        let last = relays.last();
        every_relay_is_a_rendezvous_node(nodes, fewer, node);
        an_address_leads_to_the_last_peer(last, node);
        if let Some(peer) = crate::session::startup::peer_at(last) {
            one_more(nodes_among(nodes, fewer), peer, node);
        }
        assert(relays[n] == last);
        if exists|i: int| 0 <= i < fewer.len() && ends_at(#[trigger] fewer[i], node) {
            let i = choose|i: int| 0 <= i < fewer.len() && ends_at(#[trigger] fewer[i], node);
            assert(relays[i] == fewer[i]);
        }
        if exists|i: int| 0 <= i < relays.len() && ends_at(#[trigger] relays[i], node) {
            let i = choose|i: int| 0 <= i < relays.len() && ends_at(#[trigger] relays[i], node);
            if i < n {
                assert(fewer[i] == relays[i]);
            }
        }
    }
}

/// The texts that write addresses are read one by one, and the first that does not is the reason to
/// fail.
pub proof fn addresses_are_read_one_by_one(texts: Seq<Seq<char>>, text: Seq<char>)
    ensures
        all_parsed(Seq::empty()) == Ok::<Seq<Seq<u8>>, Seq<char>>(Seq::empty()),
        all_parsed(texts) is Err ==> all_parsed(texts.push(text)) == all_parsed(texts),
        all_parsed(texts) is Ok ==> all_parsed(texts.push(text)) == match address_of_text(text) {
            Ok(bytes) => Ok::<Seq<Seq<u8>>, Seq<char>>(all_parsed(texts)->Ok_0.push(bytes)),
            Err(reason) => Err::<Seq<Seq<u8>>, Seq<char>>(reason),
        },
{
    assert(texts.push(text).drop_last() =~= texts);
}

/// A peer that opens its doors listens where it was told to, or else at any address and port by TCP
/// and QUIC, IPv6 first. Relays and peers are taken by preference.
#[verifier::rlimit(80)]
pub proof fn a_peer_opens_its_doors(
    session: SessionModel,
    listen: Seq<Seq<u8>>,
    relay: Seq<Seq<u8>>,
    peer: Seq<Seq<u8>>,
    outcome: OutcomeModel,
    fresh: Seq<char>,
    at: WorldModel,
)
    ensures
        ({
            let task = TaskModel::Open { listen: listen, relay: relay, peer: peer };
            let step = session.run(task, outcome, fresh, at);
            let usual = all_parsed(
                seq![
                    "/ip6/::/tcp/0"@,
                    "/ip6/::/udp/0/quic-v1"@,
                    "/ip4/0.0.0.0/tcp/0"@,
                    "/ip4/0.0.0.0/udp/0/quic-v1"@,
                ],
            );
            let places = if listen.len() > 0 {
                prioritized(listen)
            } else {
                usual->Ok_0
            };
            &&& listen.len() > 0 || usual is Ok ==> {
                &&& step.effects.len() == 0
                &&& step.after == (SessionModel {
                    peers: PeerBookModel {
                        rendezvous: nodes_among(session.peers.rendezvous, prioritized(relay)),
                        ..session.peers
                    },
                    agenda: all_listening(places) + all_reserving(prioritized(relay))
                        + all_dialling(prioritized(peer)) + session.agenda,
                    ..session
                })
            }
            &&& listen.len() == 0 && usual is Err ==> step == session.resume(
                OutcomeModel::Failed(
                    FailureModel { brief: usual->Err_0, full: usual->Err_0 },
                ),
                fresh,
                at,
            )
        }),
{
    assert(usual_places() =~= seq![
        "/ip6/::/tcp/0"@,
        "/ip6/::/udp/0/quic-v1"@,
        "/ip4/0.0.0.0/tcp/0"@,
        "/ip4/0.0.0.0/udp/0/quic-v1"@,
    ]);
}

} // verus!
