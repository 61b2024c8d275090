//! Connections, direct promotion and rendezvous.
use crate::address::{
    address_parts, goes_through_relay, normalize_peer_address, peer_address, prioritize_multiaddrs,
    prioritized, Address,
};
use crate::collections::{deep, group_deep, with_item, without_item, TextSet};
use crate::effect::{
    Effect, EffectModel, PeerAddress, PeerAddressModel, Registration, RegistrationModel, Task,
    TaskModel, World, WorldModel,
};
use crate::model::{UiEvent, UiEventModel};
use crate::names::{name_available, name_available_text};
use crate::peer::PeerId;
use crate::routes::{warmup_notice, warmup_text, GossipsubWarmupModel, PeerBookModel};
use crate::session::{
    announce, announcement, guard, guard_fully, guarded, guarded_fully, is_among, just, nothing,
    perform, tell, tell_if, telling, telling_if, Session, SessionModel, Step,
};
use crate::text::{decimal, decimal_text};
use vstd::prelude::*;
use vstd::string::*;

verus! {

/// The address goes through a relay.
pub open spec fn is_relayed(bytes: Seq<u8>) -> bool {
    goes_through_relay(address_parts(bytes)->0)
}

/// What follows when peers have met: the summaries and the music are published.
pub open spec fn greeting() -> Seq<TaskModel> {
    seq![
        TaskModel::TriggerSync,
        guard("sync summary failed: "@),
        TaskModel::MusicSnapshot,
        guard("music snapshot failed: "@),
    ]
}

/// A task for each of some texts.
pub open spec fn promotions(peers: Seq<Seq<char>>) -> Seq<TaskModel> {
    peers.map_values(|peer: Seq<char>| TaskModel::Promote { peer: peer })
}

/// The addresses of a peer among those that it has registered, in a form that names it.
pub open spec fn peer_forms(peer_id: Seq<char>, registered: Seq<Seq<u8>>) -> Seq<Seq<u8>>
    decreases registered.len(),
{
    if registered.len() == 0 {
        Seq::empty()
    } else {
        match peer_address(peer_id, registered.last()) {
            Some(address) => peer_forms(peer_id, registered.drop_last()).push(address),
            None => peer_forms(peer_id, registered.drop_last()),
        }
    }
}

/// The registration is of another peer, and has an address that is good.
pub open spec fn is_promising(registration: RegistrationModel, local: Seq<char>) -> bool {
    registration.peer != local && peer_forms(registration.peer, registration.addresses).len() > 0
}

/// Gets in touch with the peer of a registration.
pub open spec fn following(registration: RegistrationModel) -> TaskModel {
    TaskModel::FollowRegistration {
        peer: registration.peer,
        addresses: peer_forms(registration.peer, registration.addresses),
    }
}

/// The registrations worth following, in order.
pub open spec fn followed(registrations: Seq<RegistrationModel>, local: Seq<char>) -> Seq<TaskModel>
    decreases registrations.len(),
{
    if registrations.len() == 0 {
        Seq::empty()
    } else if is_promising(registrations.last(), local) {
        followed(registrations.drop_last(), local).push(following(registrations.last()))
    } else {
        followed(registrations.drop_last(), local)
    }
}

/// The texts of some that are also among others.
pub open spec fn common(texts: Seq<Seq<char>>, others: Seq<Seq<char>>) -> Seq<Seq<char>>
    decreases texts.len(),
{
    if texts.len() == 0 {
        Seq::empty()
    } else if others.contains(texts.last()) {
        common(texts.drop_last(), others).push(texts.last())
    } else {
        common(texts.drop_last(), others)
    }
}

/// What is asked for to look up peers at each of some nodes.
pub open spec fn lookups(nodes: Seq<Seq<char>>, topic: Seq<char>) -> Seq<EffectModel>
    decreases nodes.len(),
{
    if nodes.len() == 0 {
        Seq::empty()
    } else {
        lookups(nodes.drop_last(), topic) + node_lookup(nodes.last(), topic)
    }
}

/// What is asked for to look up peers at a node.
pub open spec fn node_lookup(node: Seq<char>, topic: Seq<char>) -> Seq<EffectModel> {
    seq![
        EffectModel::Discover(node),
        telling("discovering peers via rendezvous "@ + node + " in "@ + topic),
    ]
}

/// The peers whose time to subscribe is over, in order.
pub open spec fn expired_warmups(
    warmups: Seq<(Seq<char>, GossipsubWarmupModel)>,
    now: u64,
) -> Seq<Seq<char>>
    decreases warmups.len(),
{
    if warmups.len() == 0 {
        Seq::empty()
    } else if warmups.last().1.expired(now) {
        expired_warmups(warmups.drop_last(), now).push(warmups.last().0)
    } else {
        expired_warmups(warmups.drop_last(), now)
    }
}

/// What comes of going through the peers that were found nearby.
#[verifier::ext_equal]
pub struct Sighting {
    pub after: SessionModel,
    pub effects: Seq<EffectModel>,
    /// The peers that have new direct addresses.
    pub candidates: Seq<Seq<char>>,
}

impl SessionModel {
    /// The session with another book of peers.
    pub open spec fn with_peers(self, peers: PeerBookModel) -> SessionModel {
        SessionModel { peers: peers, ..self }
    }

    /// A relayed peer is tried for a direct connection if that is due.
    pub open spec fn promote(self, peer_id: Seq<char>, at: WorldModel) -> Step {
        let plan = self.peers.promotion(peer_id, at.now.mono_nanos);
        let news = telling_if(plan.notice) + telling_if(plan.suspension);
        if peer_id == self.local {
            self.stay()
        } else {
            match plan.dial {
                Some(addresses) => self.with_peers(plan.after).deferring(
                    seq![TaskModel::Dialed { peer: peer_id, count: addresses.len() as usize }],
                ).asking(
                    news.push(
                        EffectModel::Dial { peer: peer_id, addresses: addresses, always: true },
                    ),
                ),
                None => self.with_peers(plan.after).asking(news),
            }
        }
    }

    /// A relayed peer is being dialled.
    pub open spec fn dialed(self, peer_id: Seq<char>, count: usize) -> Step {
        self.saying(
            "trying direct connection to "@ + peer_id + " ("@ + decimal(count as nat)
                + " candidate address(es))"@,
        )
    }

    /// An attempt to reach a peer directly has failed.
    pub open spec fn promotion_failed(
        self,
        peer_id: Seq<char>,
        reason: Seq<char>,
        at: WorldModel,
    ) -> Step {
        self.with_peers(self.peers.with_failure(peer_id, at.now.mono_nanos)).asking(
            telling_if(self.peers.failure_notice(peer_id, reason, at.now.mono_nanos)),
        )
    }

    /// The registration at a node is asked for, once others can reach this peer.
    pub open spec fn register_node(self, node: Seq<char>, at: WorldModel) -> Step {
        if at.external_address {
            self.deferring(
                seq![
                    announcement(
                        "registering with rendezvous "@ + node + " in "@ + self.topic,
                        "rendezvous register request failed "@ + node + ": "@,
                    ),
                ],
            ).asking(seq![EffectModel::Register(node)])
        } else {
            self.saying(
                "rendezvous register deferred "@ + node
                    + ": waiting for confirmed external address"@,
            )
        }
    }

    /// The rendezvous nodes that are connected.
    pub open spec fn nodes_at_hand(self, at: WorldModel) -> Seq<Seq<char>> {
        common(self.peers.rendezvous, at.connected)
    }

    /// This peer registers at all nodes that are connected.
    pub open spec fn register_nodes(self, at: WorldModel) -> Step {
        self.deferring(
            self.nodes_at_hand(at).map_values(
                |node: Seq<char>| TaskModel::RegisterNode { node: node },
            ),
        ).stay()
    }

    /// Peers are looked up at all nodes that are connected.
    pub open spec fn discover_peers(self, at: WorldModel) -> Step {
        self.asking(lookups(self.nodes_at_hand(at), self.topic))
    }

    /// The relayed connections to a peer are closed. `promoted` says that the peer has just been
    /// reached directly, else it has just subscribed.
    pub open spec fn closing_relays(self, peer_id: Seq<char>, promoted: bool) -> Step {
        self.deferring(
            seq![TaskModel::RelaysClosed { peer: peer_id, promoted: promoted }],
        ).asking(seq![EffectModel::CloseConnections(self.peers.routes_to(peer_id).relayed)])
    }

    /// The relayed connections to a peer that is reached directly are closed.
    pub open spec fn close_relays(self, peer_id: Seq<char>) -> Step {
        if self.peers.routes_to(peer_id).direct.len() > 0 {
            self.closing_relays(peer_id, false)
        } else {
            self.stay()
        }
    }

    /// Relayed connections were closed.
    pub open spec fn relays_closed(
        self,
        peer_id: Seq<char>,
        promoted: bool,
        closed: usize,
    ) -> Step {
        if closed > 0 {
            if promoted {
                self.saying(
                    "promoted "@ + peer_id + " to direct connection; closing "@ + decimal(
                        closed as nat,
                    ) + " relay link(s)"@,
                )
            } else {
                self.saying(
                    "chat ready with "@ + peer_id + "; closing "@ + decimal(closed as nat)
                        + " relay link(s)"@,
                )
            }
        } else if promoted {
            self.saying("connected "@ + peer_id + " directly"@)
        } else {
            self.stay()
        }
    }

    /// A direct connection that came too early was closed, or was gone already.
    pub open spec fn early_closed(self, peer_id: Seq<char>, closed: usize) -> Step {
        if closed > 0 {
            self.saying(
                "closed early direct connection to "@ + peer_id
                    + "; waiting for chat subscription or warmup timeout"@,
            )
        } else {
            self.saying(
                "early direct connection to "@ + peer_id
                    + " is waiting for chat subscription or warmup timeout"@,
            )
        }
    }

    /// The number of connected peers is shown.
    pub open spec fn count_peers(self, at: WorldModel) -> Step {
        self.asking(
            seq![EffectModel::Ui(UiEventModel::PeerCount(at.connected.len() as usize))],
        )
    }

    /// Messages are always sent to a peer from now on, unless it is a rendezvous node.
    pub open spec fn tracking(self, peer_id: Seq<char>) -> Step {
        if self.peers.rendezvous.contains(peer_id) || self.peers.explicit.contains(peer_id) {
            self.stay()
        } else {
            self.with_peers(
                PeerBookModel { explicit: self.peers.explicit.push(peer_id), ..self.peers },
            ).asking(
                seq![
                    EffectModel::AddExplicitPeer(peer_id),
                    telling("tracking "@ + peer_id + " as gossip peer"@),
                ],
            )
        }
    }

    /// A peer is connected through a relay: it is given time to subscribe, and then tried for a
    /// direct connection.
    pub open spec fn relayed_up(self, peer_id: Seq<char>, at: WorldModel) -> Step {
        let connected = telling("connected "@ + peer_id + " via relay"@);
        let waits = !self.peers.rendezvous.contains(peer_id) && !self.peers.subscribers.contains(
            peer_id,
        );
        let after = if waits {
            self.with_peers(self.peers.with_warmup(peer_id, at.now.mono_nanos))
        } else {
            self
        };
        after.deferring(seq![TaskModel::Promote { peer: peer_id }]).asking(
            if waits && !crate::collections::holds(self.peers.warmups, peer_id) {
                seq![connected, telling(warmup_text(peer_id))]
            } else {
                seq![connected]
            },
        )
    }

    /// A peer is connected directly. If it is also connected through a relay and has neither
    /// subscribed nor had its time to, the direct connection is too early and is closed.
    pub open spec fn direct_up(self, peer_id: Seq<char>, connection: u64, at: WorldModel) -> Step {
        let relayed = self.peers.routes_to(peer_id).relayed.len() > 0;
        let subscribed = self.peers.subscribers.contains(peer_id);
        let check = self.peers.warmup_check(peer_id, at.now.mono_nanos);
        if relayed && !subscribed {
            if check.allowed {
                self.with_peers(check.after.with_chance(peer_id)).asking(
                    telling_if(check.notice).push(
                        telling(
                            "promoted "@ + peer_id
                                + " to direct connection after gossip warmup timeout; keeping relay until chat subscription is ready"@,
                        ),
                    ),
                )
            } else {
                self.with_peers(check.after).deferring(
                    seq![TaskModel::EarlyClosed { peer: peer_id }],
                ).asking(
                    telling_if(check.notice).push(
                        EffectModel::CloseConnections(seq![connection]),
                    ),
                )
            }
        } else {
            let after = self.with_peers(self.peers.with_chance(peer_id));
            if subscribed {
                after.closing_relays(peer_id, true)
            } else {
                after.saying("connected "@ + peer_id + " directly"@)
            }
        }
    }

    /// What follows once a connection has come up.
    pub open spec fn welcome(self, peer_id: Seq<char>) -> Seq<TaskModel> {
        let rest = seq![TaskModel::CountPeers] + greeting();
        if self.peers.rendezvous.contains(peer_id) {
            seq![
                TaskModel::RegisterNode { node: peer_id },
                perform(node_lookup(peer_id, self.topic)),
            ] + rest
        } else {
            rest
        }
    }

    /// A connection has come up.
    pub open spec fn connection_up(
        self,
        peer_id: Seq<char>,
        connection: u64,
        relayed: bool,
        at: WorldModel,
    ) -> Step {
        let linked = self.with_peers(self.peers.with_link(peer_id, connection, relayed));
        let noted = linked.deferring(self.welcome(peer_id)).tracking(peer_id);
        let step = if relayed {
            noted.after.relayed_up(peer_id, at)
        } else {
            noted.after.direct_up(peer_id, connection, at)
        };
        Step { after: step.after, effects: noted.effects + step.effects }
    }

    /// A connection has closed, and others to the peer are left.
    pub open spec fn link_lost(self, peer_id: Seq<char>, relayed: bool, remaining: u32) -> Step {
        self.saying(
            if relayed {
                "relay"@
            } else {
                "direct"@
            } + " connection closed "@ + peer_id + "; "@ + decimal(remaining as nat)
                + " link(s) remain"@,
        )
    }

    /// The last connection to a peer has closed.
    pub open spec fn peer_lost(self, peer_id: Seq<char>, at: WorldModel) -> Step {
        let names = self.names.forget(peer_id, self.identity());
        let after = SessionModel {
            names: names,
            pending: match self.pending {
                Some(pending) => Some(pending.without_peer(peer_id)),
                None => None,
            },
            ..self.with_peers(self.peers.without_peer(peer_id))
        };
        after.deferring(
            seq![TaskModel::MaybeStart, guard_fully("playback start failed: "@)],
        ).asking(
            if self.peers.explicit.contains(peer_id) {
                seq![EffectModel::RemoveExplicitPeer(peer_id)]
            } else {
                Seq::empty()
            } + seq![telling("disconnected "@ + peer_id)] + if self.names.blocked()
                && !names.blocked() {
                seq![telling(name_available_text(self.name))]
            } else {
                Seq::empty()
            } + seq![EffectModel::Ui(UiEventModel::PeerCount(at.connected.len() as usize))],
        )
    }

    /// A connection has closed.
    pub open spec fn connection_down(
        self,
        peer_id: Seq<char>,
        connection: u64,
        relayed: bool,
        remaining: u32,
        at: WorldModel,
    ) -> Step {
        let unlinked = self.with_peers(self.peers.without_link(peer_id, connection, relayed));
        if remaining > 0 {
            unlinked.link_lost(peer_id, relayed, remaining)
        } else {
            unlinked.peer_lost(peer_id, at)
        }
    }

    /// A peer was found nearby.
    pub open spec fn sighted(self, found: PeerAddressModel) -> Sighting {
        let peer_id = found.peer;
        let known = self.peers.explicit.contains(peer_id);
        let heard = PeerBookModel {
            explicit: with_item(self.peers.explicit, peer_id),
            ..self.peers
        }.with_addresses(peer_id, seq![found.address]);
        let news = self.peers.news(peer_id, seq![found.address]) > 0;
        Sighting {
            after: self.with_peers(
                if news {
                    heard.with_chance(peer_id)
                } else {
                    heard
                },
            ),
            effects: if known {
                seq![telling("mDNS discovered "@ + peer_id)]
            } else {
                seq![
                    EffectModel::AddExplicitPeer(peer_id),
                    telling("mDNS discovered "@ + peer_id),
                ]
            },
            candidates: if news {
                seq![peer_id]
            } else {
                Seq::empty()
            },
        }
    }

    /// Peers were found nearby, one by one.
    pub open spec fn sightings(self, found: Seq<PeerAddressModel>) -> Sighting
        decreases found.len(),
    {
        if found.len() == 0 {
            Sighting { after: self, effects: Seq::empty(), candidates: Seq::empty() }
        } else {
            let before = self.sightings(found.drop_last());
            let last = before.after.sighted(found.last());
            Sighting {
                after: last.after,
                effects: before.effects + last.effects,
                candidates: if last.candidates.len() > 0 {
                    with_item(before.candidates, last.candidates[0])
                } else {
                    before.candidates
                },
            }
        }
    }

    /// Peers were found nearby: those with new addresses are tried, and all are greeted.
    pub open spec fn peers_nearby(self, found: Seq<PeerAddressModel>) -> Step {
        let all = self.sightings(found);
        all.after.deferring(
            promotions(all.candidates) + if found.len() > 0 {
                greeting()
            } else {
                Seq::empty()
            },
        ).asking(all.effects)
    }

    /// An address of a peer nearby is no longer good.
    pub open spec fn sighting_lost(self, lost: PeerAddressModel, at: WorldModel) -> Step {
        let peer_id = lost.peer;
        let names = self.names.forget(peer_id, self.identity());
        let forgotten = self.peers.without_address(peer_id, lost.address);
        let leaves = !at.connected.contains(peer_id) && self.peers.explicit.contains(peer_id);
        SessionModel {
            names: names,
            peers: if leaves {
                PeerBookModel {
                    explicit: without_item(self.peers.explicit, peer_id),
                    ..forgotten
                }
            } else {
                forgotten
            },
            ..self
        }.asking(
            if self.names.blocked() && !names.blocked() {
                seq![telling(name_available_text(self.name))]
            } else {
                Seq::empty()
            } + if leaves {
                seq![EffectModel::RemoveExplicitPeer(peer_id)]
            } else {
                Seq::empty()
            } + seq![telling("mDNS expired "@ + peer_id)],
        )
    }

    /// Addresses of peers nearby are no longer good, one by one.
    pub open spec fn sightings_lost(self, lost: Seq<PeerAddressModel>, at: WorldModel) -> Step
        decreases lost.len(),
    {
        if lost.len() == 0 {
            self.stay()
        } else {
            let before = self.sightings_lost(lost.drop_last(), at);
            let last = before.after.sighting_lost(lost.last(), at);
            Step { after: last.after, effects: before.effects + last.effects }
        }
    }

    /// Addresses of a peer were heard of: it is tried if any of them is new.
    pub open spec fn hear_addresses(self, peer_id: Seq<char>, heard: Seq<Seq<u8>>) -> Step {
        let known = self.peers.with_addresses(peer_id, heard);
        if self.peers.news(peer_id, heard) > 0 {
            self.with_peers(known.with_chance(peer_id)).deferring(
                seq![TaskModel::Promote { peer: peer_id }],
            ).stay()
        } else {
            self.with_peers(known).stay()
        }
    }

    /// Peers were found at a rendezvous node.
    pub open spec fn discovered(
        self,
        node: Seq<char>,
        registrations: Seq<RegistrationModel>,
    ) -> Step {
        let tasks = followed(registrations, self.local);
        self.deferring(
            tasks.push(
                perform(
                    seq![
                        telling(
                            "rendezvous "@ + node + " returned "@ + decimal(tasks.len())
                                + " peer address set(s)"@,
                        ),
                    ],
                ),
            ),
        ).stay()
    }

    /// A peer that was found at a rendezvous node is noted, with its addresses.
    pub open spec fn noting(self, peer_id: Seq<char>, addresses: Seq<Seq<u8>>) -> Step {
        let heard = PeerBookModel {
            explicit: with_item(self.peers.explicit, peer_id),
            ..self.peers
        }.with_addresses(peer_id, addresses);
        self.with_peers(
            if self.peers.news(peer_id, addresses) > 0 {
                heard.with_chance(peer_id)
            } else {
                heard
            },
        ).asking(
            if self.peers.explicit.contains(peer_id) {
                Seq::empty()
            } else {
                seq![
                    EffectModel::AddExplicitPeer(peer_id),
                    telling("tracking "@ + peer_id + " as rendezvous gossip peer"@),
                ]
            },
        )
    }

    /// This peer gets in touch with a peer that was found at a rendezvous node.
    pub open spec fn follow_registration(
        self,
        peer_id: Seq<char>,
        addresses: Seq<Seq<u8>>,
        at: WorldModel,
    ) -> Step {
        let noted = self.noting(peer_id, addresses);
        if at.connected.contains(peer_id) {
            noted.after.deferring(seq![TaskModel::Promote { peer: peer_id }]).asking(noted.effects)
        } else {
            noted.after.deferring(
                seq![
                    announcement(
                        "dialing discovered peer "@ + peer_id + " ("@ + decimal(addresses.len())
                            + " candidate address(es))"@,
                        "rendezvous discovered peer dial failed "@ + peer_id + ": "@,
                    ),
                ],
            ).asking(
                noted.effects.push(
                    EffectModel::Dial {
                        peer: peer_id,
                        addresses: prioritized(addresses),
                        always: false,
                    },
                ),
            )
        }
    }

    /// A peer has subscribed to a topic.
    pub open spec fn subscribed(self, peer_id: Seq<char>, topic: Seq<char>) -> Step {
        if topic == self.topic {
            self.with_peers(self.peers.with_subscriber(peer_id)).deferring(
                seq![
                    TaskModel::TriggerSync,
                    guard("sync summary failed: "@),
                    TaskModel::Promote { peer: peer_id },
                    TaskModel::CloseRelays { peer: peer_id },
                ],
            ).saying("peer "@ + peer_id + " subscribed to chat"@)
        } else {
            self.stay()
        }
    }

    /// A peer has unsubscribed from a topic.
    pub open spec fn unsubscribed(self, peer_id: Seq<char>, topic: Seq<char>) -> Step {
        if topic == self.topic {
            self.with_peers(
                PeerBookModel {
                    subscribers: without_item(self.peers.subscribers, peer_id),
                    ..self.peers
                },
            ).saying("peer "@ + peer_id + " unsubscribed from chat"@)
        } else {
            self.stay()
        }
    }

    /// A relayed connection was made direct.
    pub open spec fn upgrade_succeeded(self, peer_id: Seq<char>, connection: Seq<char>) -> Step {
        self.with_peers(self.peers.with_chance(peer_id)).saying(
            "direct upgrade succeeded with "@ + peer_id + " on "@ + connection,
        )
    }

    /// A relayed connection could not be made direct.
    pub open spec fn upgrade_failed(
        self,
        peer_id: Seq<char>,
        error: Seq<char>,
        at: WorldModel,
    ) -> Step {
        if self.peers.routes_to(peer_id).relay_only() {
            self.promotion_failed(peer_id, "DCUtR failed: "@ + error, at)
        } else {
            self.saying("direct upgrade failed with "@ + peer_id + ": "@ + error)
        }
    }

    /// A connection could not be made.
    pub open spec fn dial_failed(
        self,
        peer_id: Option<Seq<char>>,
        error: Seq<char>,
        at: WorldModel,
    ) -> Step {
        match peer_id {
            Some(peer) => if self.peers.backoff_of(peer).in_flight {
                self.promotion_failed(peer, "outgoing direct dial failed: "@ + error, at)
            } else {
                self.saying("outgoing connection error "@ + peer + ": "@ + error)
            },
            None => self.saying("outgoing connection error unknown peer: "@ + error),
        }
    }
}

/// What follows when peers have met.
pub fn greet() -> (tasks: Vec<Task>)
    ensures
        deep(tasks@) == greeting(),
{
    let tasks = vec![
        Task::TriggerSync,
        guarded("sync summary failed: "),
        Task::MusicSnapshot,
        guarded("music snapshot failed: "),
    ];
    assert(deep(tasks@) =~= greeting());
    tasks
}

/// Tries each of some peers for a direct connection.
pub fn promote_all(peers: &Vec<String>) -> (tasks: Vec<Task>)
    ensures
        deep(tasks@) == promotions(deep(peers@)),
{
    let ghost all = promotions(deep(peers@));
    let mut tasks: Vec<Task> = Vec::new();
    let mut i: usize = 0;
    assert(deep(tasks@) =~= all.take(0));
    while i < peers.len()
        invariant
            i <= peers@.len(),
            all == promotions(deep(peers@)),
            deep(tasks@) == all.take(i as int),
        decreases peers.len() - i,
    {
        broadcast use group_deep;

        tasks.push(Task::Promote { peer: peers[i].clone() });
        assert(all.take(i + 1) =~= all.take(i as int).push(all[i as int]));
        i = i + 1;
    }
    assert(all.take(i as int) =~= all);
    tasks
}

fn keep_peer_forms(peer_id: &PeerId, registered: &Vec<Address>) -> (forms: Vec<Address>)
    ensures
        deep(forms@) == peer_forms(peer_id@, deep(registered@)),
{
    let ghost all = deep(registered@);
    let mut forms: Vec<Address> = Vec::new();
    let mut i: usize = 0;
    assert(deep(forms@) =~= peer_forms(peer_id@, all.take(0)));
    while i < registered.len()
        invariant
            i <= registered@.len(),
            all == deep(registered@),
            deep(forms@) == peer_forms(peer_id@, all.take(i as int)),
        decreases registered.len() - i,
    {
        broadcast use group_deep;

        proof {
            assert(all.take(i + 1).drop_last() =~= all.take(i as int));
            assert(all.take(i + 1).last() == registered@[i as int]@);
        }
        if let Some(address) = normalize_peer_address(peer_id, registered[i].clone()) {
            forms.push(address);
        }
        i = i + 1;
    }
    assert(all.take(i as int) =~= all);
    forms
}

fn follow_all(registrations: &Vec<Registration>, local: &str) -> (tasks: Vec<Task>)
    ensures
        deep(tasks@) == followed(deep(registrations@), local@),
{
    let ghost all = deep(registrations@);
    let own = local.to_owned();
    let mut tasks: Vec<Task> = Vec::new();
    let mut i: usize = 0;
    assert(deep(tasks@) =~= followed(all.take(0), local@));
    while i < registrations.len()
        invariant
            i <= registrations@.len(),
            own@ == local@,
            all == deep(registrations@),
            deep(tasks@) == followed(all.take(i as int), local@),
        decreases registrations.len() - i,
    {
        broadcast use group_deep;

        proof {
            assert(all.take(i + 1).drop_last() =~= all.take(i as int));
            assert(all.take(i + 1).last() == registrations@[i as int]@);
        }
        let registration = &registrations[i];
        if registration.peer.to_text() != own {
            let addresses = keep_peer_forms(&registration.peer, &registration.addresses);
            if addresses.len() > 0 {
                tasks.push(
                    Task::FollowRegistration { peer: registration.peer.clone(), addresses },
                );
            }
        }
        i = i + 1;
    }
    assert(all.take(i as int) =~= all);
    tasks
}

/// The texts of some that are also among others.
pub fn keep_common(texts: &TextSet, others: &Vec<String>) -> (both: Vec<String>)
    ensures
        deep(both@) == common(texts@, deep(others@)),
{
    let ghost all = texts@;
    let mut both: Vec<String> = Vec::new();
    let mut i: usize = 0;
    assert(deep(both@) =~= common(all.take(0), deep(others@)));
    while i < texts.items.len()
        invariant
            i <= all.len(),
            all == texts@,
            deep(both@) == common(all.take(i as int), deep(others@)),
        decreases texts.items.len() - i,
    {
        broadcast use group_deep;

        proof {
            assert(all.take(i + 1).drop_last() =~= all.take(i as int));
            assert(all.take(i + 1).last() == all[i as int]);
        }
        if is_among(others, texts.items[i].as_str()) {
            both.push(texts.items[i].clone());
        }
        i = i + 1;
    }
    assert(all.take(i as int) =~= all);
    both
}

fn discover_rendezvous_node(node: &String, topic: &str) -> (effects: Vec<Effect>)
    ensures
        deep(effects@) == node_lookup(node@, topic@),
{
    let effects = vec![
        Effect::Discover(node.clone()),
        tell(
            "discovering peers via rendezvous ".to_owned().concat(node.as_str()).concat(
                " in ",
            ).concat(topic),
        ),
    ];
    assert(deep(effects@) =~= node_lookup(node@, topic@));
    effects
}

impl Session {
    /// Tries a relayed peer for a direct connection if that is due.
    pub fn maybe_promote_relayed_peer(&mut self, peer_id: String, at: &World) -> (effects: Vec<
        Effect,
    >)
        ensures
            (Step { after: final(self)@, effects: deep(effects@) }) == old(self)@.promote(
                peer_id@,
                at@,
            ),
    {
        broadcast use group_deep;

        if peer_id == self.local.to_text() {
            return nothing();
        }
        let plan = self.peers.plan_promotion(peer_id.as_str(), at.now.mono_nanos);
        let mut effects = tell_if(plan.notice);
        let mut suspension = tell_if(plan.suspension);
        effects.append(&mut suspension);
        if let Some(addresses) = plan.dial {
            let count: usize = addresses.len();
            effects.push(Effect::Dial { peer: peer_id.clone(), addresses, always: true });
            self.defer(vec![Task::Dialed { peer: peer_id, count }]);
        }
        assert(deep(effects@) =~= old(self)@.promote(peer_id@, at@).effects);
        effects
    }

    /// A relayed peer is being dialled.
    pub fn dialed(&self, peer_id: &str, count: usize) -> (effects: Vec<Effect>)
        ensures
            self@.asking(deep(effects@)) == self@.dialed(peer_id@, count),
    {
        just(
            tell(
                "trying direct connection to ".to_owned().concat(peer_id).concat(" (").concat(
                    decimal_text(count as u128).as_str(),
                ).concat(" candidate address(es))"),
            ),
        )
    }

    /// Notes that an attempt to reach a peer directly has failed.
    pub fn promotion_failed(&mut self, peer_id: &str, reason: &str, at: &World) -> (effects: Vec<
        Effect,
    >)
        ensures
            (Step { after: final(self)@, effects: deep(effects@) }) == old(self)@.promotion_failed(
                peer_id@,
                reason@,
                at@,
            ),
    {
        tell_if(
            self.peers.record_direct_promotion_failure(peer_id, reason, at.now.mono_nanos),
        )
    }

    /// Asks for the registration at a node, once others can reach this peer.
    pub fn register_with_rendezvous_node(&mut self, node: String, at: &World) -> (effects: Vec<
        Effect,
    >)
        ensures
            (Step { after: final(self)@, effects: deep(effects@) }) == old(self)@.register_node(
                node@,
                at@,
            ),
    {
        if !at.external_address {
            return just(
                tell(
                    "rendezvous register deferred ".to_owned().concat(node.as_str()).concat(
                        ": waiting for confirmed external address",
                    ),
                ),
            );
        }
        let done = "registering with rendezvous ".to_owned().concat(node.as_str()).concat(
            " in ",
        ).concat(self.topic.as_str());
        let failed = "rendezvous register request failed ".to_owned().concat(node.as_str()).concat(
            ": ",
        );
        self.defer(vec![announce(done, failed)]);
        just(Effect::Register(node))
    }

    /// Registers at all nodes that are connected.
    pub fn register_with_rendezvous_nodes(&mut self, at: &World) -> (effects: Vec<Effect>)
        ensures
            (Step { after: final(self)@, effects: deep(effects@) }) == old(self)@.register_nodes(
                at@,
            ),
    {
        let nodes = keep_common(&self.peers.rendezvous, &at.connected);
        let ghost all = deep(nodes@).map_values(
            |node: Seq<char>| TaskModel::RegisterNode { node: node },
        );
        let mut tasks: Vec<Task> = Vec::new();
        let mut i: usize = 0;
        assert(deep(tasks@) =~= all.take(0));
        while i < nodes.len()
            invariant
                i <= nodes@.len(),
                all == deep(nodes@).map_values(
                    |node: Seq<char>| TaskModel::RegisterNode { node: node },
                ),
                deep(tasks@) == all.take(i as int),
            decreases nodes.len() - i,
        {
            broadcast use group_deep;

            tasks.push(Task::RegisterNode { node: nodes[i].clone() });
            assert(all.take(i + 1) =~= all.take(i as int).push(all[i as int]));
            i = i + 1;
        }
        assert(all.take(i as int) =~= all);
        self.defer(tasks);
        nothing()
    }

    /// Looks up peers at all nodes that are connected.
    pub fn discover_rendezvous_peers(&self, at: &World) -> (effects: Vec<Effect>)
        ensures
            self@.asking(deep(effects@)) == self@.discover_peers(at@),
    {
        let nodes = keep_common(&self.peers.rendezvous, &at.connected);
        let ghost all = deep(nodes@);
        let mut effects = nothing();
        let mut i: usize = 0;
        assert(all.take(0) =~= Seq::<Seq<char>>::empty());
        while i < nodes.len()
            invariant
                i <= nodes@.len(),
                all == deep(nodes@),
                deep(effects@) == lookups(all.take(i as int), self@.topic),
            decreases nodes.len() - i,
        {
            broadcast use group_deep;

            proof {
                assert(all.take(i + 1).drop_last() =~= all.take(i as int));
                assert(all.take(i + 1).last() == nodes@[i as int]@);
            }
            let mut lookup = discover_rendezvous_node(&nodes[i], self.topic.as_str());
            effects.append(&mut lookup);
            i = i + 1;
        }
        assert(all.take(i as int) =~= all);
        effects
    }

    fn close_relay_connections(&mut self, peer_id: String, promoted: bool) -> (effects: Vec<Effect>)
        ensures
            (Step { after: final(self)@, effects: deep(effects@) }) == old(self)@.closing_relays(
                peer_id@,
                promoted,
            ),
    {
        let relayed = self.peers.routes_to(peer_id.as_str()).relayed_connections();
        self.defer(vec![Task::RelaysClosed { peer: peer_id, promoted }]);
        just(Effect::CloseConnections(relayed))
    }

    /// Closes the relayed connections to a peer that is reached directly.
    pub fn close_relays(&mut self, peer_id: String) -> (effects: Vec<Effect>)
        ensures
            (Step { after: final(self)@, effects: deep(effects@) }) == old(self)@.close_relays(
                peer_id@,
            ),
    {
        if self.peers.routes_to(peer_id.as_str()).has_direct() {
            self.close_relay_connections(peer_id, false)
        } else {
            nothing()
        }
    }

    /// Relayed connections were closed.
    pub fn relays_closed(&self, peer_id: &str, promoted: bool, closed: usize) -> (effects: Vec<
        Effect,
    >)
        ensures
            self@.asking(deep(effects@)) == self@.relays_closed(peer_id@, promoted, closed),
    {
        if closed > 0 {
            if promoted {
                just(
                    tell(
                        "promoted ".to_owned().concat(peer_id).concat(
                            " to direct connection; closing ",
                        ).concat(decimal_text(closed as u128).as_str()).concat(" relay link(s)"),
                    ),
                )
            } else {
                just(
                    tell(
                        "chat ready with ".to_owned().concat(peer_id).concat("; closing ").concat(
                            decimal_text(closed as u128).as_str(),
                        ).concat(" relay link(s)"),
                    ),
                )
            }
        } else if promoted {
            just(tell("connected ".to_owned().concat(peer_id).concat(" directly")))
        } else {
            nothing()
        }
    }

    /// A direct connection that came too early was closed, or was gone already.
    pub fn early_closed(&self, peer_id: &str, closed: usize) -> (effects: Vec<Effect>)
        ensures
            self@.asking(deep(effects@)) == self@.early_closed(peer_id@, closed),
    {
        if closed > 0 {
            just(
                tell(
                    "closed early direct connection to ".to_owned().concat(peer_id).concat(
                        "; waiting for chat subscription or warmup timeout",
                    ),
                ),
            )
        } else {
            just(
                tell(
                    "early direct connection to ".to_owned().concat(peer_id).concat(
                        " is waiting for chat subscription or warmup timeout",
                    ),
                ),
            )
        }
    }

    /// Shows the number of connected peers.
    pub fn count_peers(&self, at: &World) -> (effects: Vec<Effect>)
        ensures
            self@.asking(deep(effects@)) == self@.count_peers(at@),
    {
        just(Effect::Ui(UiEvent::PeerCount(at.connected.len())))
    }

    fn track_peer(&mut self, peer_id: &str) -> (effects: Vec<Effect>)
        ensures
            (Step { after: final(self)@, effects: deep(effects@) }) == old(self)@.tracking(
                peer_id@,
            ),
    {
        if self.peers.rendezvous.contains(peer_id) || !self.peers.explicit.insert(peer_id) {
            return nothing();
        }
        let effects = vec![
            Effect::AddExplicitPeer(peer_id.to_owned()),
            tell("tracking ".to_owned().concat(peer_id).concat(" as gossip peer")),
        ];
        assert(deep(effects@) =~= old(self)@.tracking(peer_id@).effects);
        effects
    }

    fn relayed_up(&mut self, peer_id: &str, at: &World) -> (effects: Vec<Effect>)
        ensures
            (Step { after: final(self)@, effects: deep(effects@) }) == old(self)@.relayed_up(
                peer_id@,
                at@,
            ),
    {
        broadcast use group_deep;

        let mut effects = just(tell("connected ".to_owned().concat(peer_id).concat(" via relay")));
        if !self.peers.rendezvous.contains(peer_id) && !self.peers.subscribers.contains(peer_id)
            && self.peers.start_gossip_warmup(peer_id, at.now.mono_nanos) {
            effects.push(tell(warmup_notice(peer_id)));
        }
        self.defer(vec![Task::Promote { peer: peer_id.to_owned() }]);
        assert(deep(effects@) =~= old(self)@.relayed_up(peer_id@, at@).effects);
        effects
    }

    fn direct_up(&mut self, peer_id: &str, connection: u64, at: &World) -> (effects: Vec<Effect>)
        ensures
            (Step { after: final(self)@, effects: deep(effects@) }) == old(self)@.direct_up(
                peer_id@,
                connection,
                at@,
            ),
    {
        broadcast use group_deep;

        let has_relayed_route = self.peers.routes_to(peer_id).has_relayed();
        let subscribed = self.peers.subscribers.contains(peer_id);
        if has_relayed_route && !subscribed {
            let (allowed, notice) = self.peers.gossip_warmup_allows_promotion(
                peer_id,
                at.now.mono_nanos,
            );
            let mut effects = tell_if(notice);
            if allowed {
                self.peers.give_chance(peer_id);
                effects.push(
                    tell(
                        "promoted ".to_owned().concat(peer_id).concat(
                            " to direct connection after gossip warmup timeout; keeping relay until chat subscription is ready",
                        ),
                    ),
                );
            } else {
                let ids: Vec<u64> = vec![connection];
                assert(deep(ids@) =~= seq![connection]);
                effects.push(Effect::CloseConnections(ids));
                self.defer(vec![Task::EarlyClosed { peer: peer_id.to_owned() }]);
            }
            return effects;
        }
        self.peers.give_chance(peer_id);
        if subscribed {
            self.close_relay_connections(peer_id.to_owned(), true)
        } else {
            just(tell("connected ".to_owned().concat(peer_id).concat(" directly")))
        }
    }

    fn welcome(&self, peer_id: &str) -> (tasks: Vec<Task>)
        ensures
            deep(tasks@) == self@.welcome(peer_id@),
    {
        broadcast use group_deep;

        let mut tasks: Vec<Task> = Vec::new();
        assert(deep(tasks@) =~= Seq::<TaskModel>::empty());
        if self.peers.rendezvous.contains(peer_id) {
            tasks.push(Task::RegisterNode { node: peer_id.to_owned() });
            tasks.push(
                Task::Perform(
                    discover_rendezvous_node(&peer_id.to_owned(), self.topic.as_str()),
                ),
            );
        }
        tasks.push(Task::CountPeers);
        let mut rest = greet();
        tasks.append(&mut rest);
        assert(deep(tasks@) =~= self@.welcome(peer_id@));
        tasks
    }

    /// A connection has come up.
    pub fn connection_up(
        &mut self,
        peer_id: &str,
        connection: u64,
        relayed: bool,
        at: &World,
    ) -> (effects: Vec<Effect>)
        ensures
            (Step { after: final(self)@, effects: deep(effects@) }) == old(self)@.connection_up(
                peer_id@,
                connection,
                relayed,
                at@,
            ),
    {
        broadcast use group_deep;

        let tasks = self.welcome(peer_id);
        self.peers.add_link(peer_id, connection, relayed);
        self.defer(tasks);
        let mut effects = self.track_peer(peer_id);
        let mut more = if relayed {
            self.relayed_up(peer_id, at)
        } else {
            self.direct_up(peer_id, connection, at)
        };
        effects.append(&mut more);
        effects
    }

    fn peer_lost(&mut self, peer_id: &str, at: &World) -> (effects: Vec<Effect>)
        ensures
            (Step { after: final(self)@, effects: deep(effects@) }) == old(self)@.peer_lost(
                peer_id@,
                at@,
            ),
    {
        broadcast use group_deep;

        let mut effects = nothing();
        if self.peers.drop_peer(peer_id) {
            effects.push(Effect::RemoveExplicitPeer(peer_id.to_owned()));
        }
        effects.push(tell("disconnected ".to_owned().concat(peer_id)));
        if self.names.forget_peer_name(
            peer_id,
            self.local.as_str(),
            self.name.as_str(),
            self.joined_at,
        ) {
            effects.push(tell(name_available(self.name.as_str())));
        }
        effects.push(Effect::Ui(UiEvent::PeerCount(at.connected.len())));
        if let Some(mut pending) = self.pending.take() {
            pending.drop_peer(peer_id);
            self.pending = Some(pending);
        }
        let tasks = vec![Task::MaybeStart, guarded_fully("playback start failed: ")];
        assert(deep(tasks@) =~= seq![
            TaskModel::MaybeStart,
            guard_fully("playback start failed: "@),
        ]);
        self.defer(tasks);
        assert(deep(effects@) =~= old(self)@.peer_lost(peer_id@, at@).effects);
        effects
    }

    /// A connection has closed.
    pub fn connection_down(
        &mut self,
        peer_id: &str,
        connection: u64,
        relayed: bool,
        remaining: u32,
        at: &World,
    ) -> (effects: Vec<Effect>)
        ensures
            (Step { after: final(self)@, effects: deep(effects@) }) == old(self)@.connection_down(
                peer_id@,
                connection,
                relayed,
                remaining,
                at@,
            ),
    {
        self.peers.remove_link(peer_id, connection, relayed);
        if remaining > 0 {
            let route = if relayed {
                "relay"
            } else {
                "direct"
            };
            return just(
                tell(
                    route.to_owned().concat(" connection closed ").concat(peer_id).concat(
                        "; ",
                    ).concat(decimal_text(remaining as u128).as_str()).concat(" link(s) remain"),
                ),
            );
        }
        self.peer_lost(peer_id, at)
    }

    fn sight(&mut self, found: &PeerAddress) -> (sighting: (Vec<Effect>, bool))
        ensures
            (Sighting {
                after: final(self)@,
                effects: deep(sighting.0@),
                candidates: if sighting.1 {
                    seq![found@.peer]
                } else {
                    Seq::empty()
                },
            }) == old(self)@.sighted(found@),
    {
        broadcast use group_deep;

        let mut effects = nothing();
        if self.peers.explicit.insert(found.peer.as_str()) {
            effects.push(Effect::AddExplicitPeer(found.peer.to_text()));
        }
        let heard = vec![found.address.clone()];
        assert(deep(heard@) =~= seq![found@.address]);
        let candidate: bool = self.peers.remember_direct_addresses(&found.peer, &heard) > 0;
        if candidate {
            self.peers.give_chance(found.peer.as_str());
        }
        effects.push(tell("mDNS discovered ".to_owned().concat(found.peer.as_str())));
        assert(deep(effects@) =~= old(self)@.sighted(found@).effects);
        (effects, candidate)
    }

    /// Peers were found nearby.
    pub fn peers_nearby(&mut self, found: &Vec<PeerAddress>) -> (effects: Vec<Effect>)
        ensures
            (Step { after: final(self)@, effects: deep(effects@) }) == old(self)@.peers_nearby(
                deep(found@),
            ),
    {
        broadcast use group_deep;

        let ghost all = deep(found@);
        let ghost before = self@;
        let mut effects = nothing();
        let mut candidates = TextSet::new();
        let mut i: usize = 0;
        assert(all.take(0) =~= Seq::<PeerAddressModel>::empty());
        while i < found.len()
            invariant
                i <= found@.len(),
                all == deep(found@),
                (Sighting {
                    after: self@,
                    effects: deep(effects@),
                    candidates: candidates@,
                }) == before.sightings(all.take(i as int)),
            decreases found.len() - i,
        {
            broadcast use group_deep;

            proof {
                assert(all.take(i + 1).drop_last() =~= all.take(i as int));
                assert(all.take(i + 1).last() == found@[i as int]@);
            }
            let (mut news, candidate) = self.sight(&found[i]);
            effects.append(&mut news);
            if candidate {
                let _new = candidates.insert(found[i].peer.as_str());
            }
            i = i + 1;
        }
        assert(all.take(i as int) =~= all);
        let mut tasks = promote_all(&candidates.items);
        if found.len() > 0 {
            let mut rest = greet();
            tasks.append(&mut rest);
        }
        assert(deep(tasks@) =~= promotions(before.sightings(all).candidates) + if all.len() > 0 {
            greeting()
        } else {
            Seq::empty()
        });
        self.defer(tasks);
        effects
    }

    fn lose_sight(&mut self, lost: &PeerAddress, at: &World) -> (effects: Vec<Effect>)
        ensures
            (Step { after: final(self)@, effects: deep(effects@) }) == old(self)@.sighting_lost(
                lost@,
                at@,
            ),
    {
        broadcast use group_deep;

        let peer_id = lost.peer.as_str();
        let mut effects = nothing();
        self.peers.forget_direct_address(&lost.peer, lost.address.clone());
        if self.names.forget_peer_name(
            peer_id,
            self.local.as_str(),
            self.name.as_str(),
            self.joined_at,
        ) {
            effects.push(tell(name_available(self.name.as_str())));
        }
        if !is_among(&at.connected, peer_id) && self.peers.explicit.remove(peer_id) {
            effects.push(Effect::RemoveExplicitPeer(peer_id.to_owned()));
        }
        effects.push(tell("mDNS expired ".to_owned().concat(peer_id)));
        assert(deep(effects@) =~= old(self)@.sighting_lost(lost@, at@).effects);
        effects
    }

    /// Addresses of peers nearby are no longer good.
    pub fn peers_gone(&mut self, lost: &Vec<PeerAddress>, at: &World) -> (effects: Vec<Effect>)
        ensures
            (Step { after: final(self)@, effects: deep(effects@) }) == old(self)@.sightings_lost(
                deep(lost@),
                at@,
            ),
    {
        let ghost all = deep(lost@);
        let ghost before = self@;
        let mut effects = nothing();
        let mut i: usize = 0;
        assert(all.take(0) =~= Seq::<PeerAddressModel>::empty());
        while i < lost.len()
            invariant
                i <= lost@.len(),
                all == deep(lost@),
                (Step { after: self@, effects: deep(effects@) }) == before.sightings_lost(
                    all.take(i as int),
                    at@,
                ),
            decreases lost.len() - i,
        {
            broadcast use group_deep;

            proof {
                assert(all.take(i + 1).drop_last() =~= all.take(i as int));
                assert(all.take(i + 1).last() == lost@[i as int]@);
            }
            let mut news = self.lose_sight(&lost[i], at);
            effects.append(&mut news);
            i = i + 1;
        }
        assert(all.take(i as int) =~= all);
        effects
    }

    /// Addresses of a peer were heard of.
    pub fn hear_addresses(&mut self, peer_id: &PeerId, heard: &Vec<Address>) -> (effects: Vec<
        Effect,
    >)
        ensures
            (Step { after: final(self)@, effects: deep(effects@) }) == old(self)@.hear_addresses(
                peer_id@,
                deep(heard@),
            ),
    {
        if self.peers.remember_direct_addresses(peer_id, heard) > 0 {
            self.peers.give_chance(peer_id.as_str());
            self.defer(vec![Task::Promote { peer: peer_id.to_text() }]);
        }
        nothing()
    }

    /// Peers were found at a rendezvous node.
    pub fn dial_rendezvous_registrations(
        &mut self,
        node: &str,
        registrations: &Vec<Registration>,
    ) -> (effects: Vec<Effect>)
        ensures
            (Step { after: final(self)@, effects: deep(effects@) }) == old(self)@.discovered(
                node@,
                deep(registrations@),
            ),
    {
        broadcast use group_deep;

        let mut tasks = follow_all(registrations, self.local.as_str());
        let returned = "rendezvous ".to_owned().concat(node).concat(" returned ").concat(
            decimal_text(tasks.len() as u128).as_str(),
        ).concat(" peer address set(s)");
        tasks.push(Task::Perform(just(tell(returned))));
        self.defer(tasks);
        nothing()
    }

    fn note_registration(&mut self, peer: &PeerId, addresses: &Vec<Address>) -> (effects: Vec<
        Effect,
    >)
        ensures
            (Step { after: final(self)@, effects: deep(effects@) }) == old(self)@.noting(
                peer@,
                deep(addresses@),
            ),
    {
        broadcast use group_deep;

        let peer_id = peer.as_str();
        let mut effects = nothing();
        if self.peers.explicit.insert(peer_id) {
            effects.push(Effect::AddExplicitPeer(peer_id.to_owned()));
            effects.push(
                tell("tracking ".to_owned().concat(peer_id).concat(" as rendezvous gossip peer")),
            );
        }
        if self.peers.remember_direct_addresses(peer, addresses) > 0 {
            self.peers.give_chance(peer_id);
        }
        assert(deep(effects@) =~= old(self)@.noting(peer@, deep(addresses@)).effects);
        effects
    }

    /// Gets in touch with a peer that was found at a rendezvous node.
    #[verifier::rlimit(30)]
    pub fn follow_registration(&mut self, peer: PeerId, addresses: Vec<Address>, at: &World) -> (
    effects: Vec<Effect>)
        ensures
            (Step { after: final(self)@, effects: deep(effects@) })
                == old(self)@.follow_registration(peer@, deep(addresses@), at@),
    {
        broadcast use group_deep;

        let mut effects = self.note_registration(&peer, &addresses);
        let peer_id = peer.as_str();
        if is_among(&at.connected, peer_id) {
            self.defer(vec![Task::Promote { peer: peer_id.to_owned() }]);
        } else {
            let count = decimal_text(addresses.len() as u128);
            let done = "dialing discovered peer ".to_owned().concat(peer_id).concat(" (").concat(
                count.as_str(),
            ).concat(" candidate address(es))");
            let failed = "rendezvous discovered peer dial failed ".to_owned().concat(
                peer_id,
            ).concat(": ");
            effects.push(
                Effect::Dial {
                    peer: peer_id.to_owned(),
                    addresses: prioritize_multiaddrs(addresses),
                    always: false,
                },
            );
            self.defer(vec![announce(done, failed)]);
        }
        effects
    }

    /// A peer has subscribed to a topic.
    pub fn peer_subscribed(&mut self, peer_id: &str, topic: &String) -> (effects: Vec<Effect>)
        ensures
            (Step { after: final(self)@, effects: deep(effects@) }) == old(self)@.subscribed(
                peer_id@,
                topic@,
            ),
    {
        if *topic != self.topic {
            return nothing();
        }
        self.peers.add_subscriber(peer_id);
        let tasks = vec![
            Task::TriggerSync,
            guarded("sync summary failed: "),
            Task::Promote { peer: peer_id.to_owned() },
            Task::CloseRelays { peer: peer_id.to_owned() },
        ];
        assert(deep(tasks@) =~= seq![
            TaskModel::TriggerSync,
            guard("sync summary failed: "@),
            TaskModel::Promote { peer: peer_id@ },
            TaskModel::CloseRelays { peer: peer_id@ },
        ]);
        self.defer(tasks);
        just(tell("peer ".to_owned().concat(peer_id).concat(" subscribed to chat")))
    }

    /// A peer has unsubscribed from a topic.
    pub fn peer_unsubscribed(&mut self, peer_id: &str, topic: &String) -> (effects: Vec<Effect>)
        ensures
            (Step { after: final(self)@, effects: deep(effects@) }) == old(self)@.unsubscribed(
                peer_id@,
                topic@,
            ),
    {
        if *topic != self.topic {
            return nothing();
        }
        let _subscribed = self.peers.subscribers.remove(peer_id);
        just(tell("peer ".to_owned().concat(peer_id).concat(" unsubscribed from chat")))
    }

    /// A relayed connection was made direct.
    pub fn upgrade_succeeded(&mut self, peer_id: &str, connection: &str) -> (effects: Vec<Effect>)
        ensures
            (Step { after: final(self)@, effects: deep(effects@) }) == old(self)@.upgrade_succeeded(
                peer_id@,
                connection@,
            ),
    {
        self.peers.give_chance(peer_id);
        just(
            tell(
                "direct upgrade succeeded with ".to_owned().concat(peer_id).concat(" on ").concat(
                    connection,
                ),
            ),
        )
    }

    /// A relayed connection could not be made direct.
    pub fn upgrade_failed(&mut self, peer_id: &str, error: &str, at: &World) -> (effects: Vec<
        Effect,
    >)
        ensures
            (Step { after: final(self)@, effects: deep(effects@) }) == old(self)@.upgrade_failed(
                peer_id@,
                error@,
                at@,
            ),
    {
        if self.peers.routes_to(peer_id).is_relay_only() {
            let reason = "DCUtR failed: ".to_owned().concat(error);
            self.promotion_failed(peer_id, reason.as_str(), at)
        } else {
            just(
                tell(
                    "direct upgrade failed with ".to_owned().concat(peer_id).concat(": ").concat(
                        error,
                    ),
                ),
            )
        }
    }

    /// A connection could not be made.
    pub fn dial_failed(&mut self, peer_id: &Option<PeerId>, error: &str, at: &World) -> (effects: Vec<
        Effect,
    >)
        ensures
            (Step { after: final(self)@, effects: deep(effects@) }) == old(self)@.dial_failed(
                peer_id.deep_view(),
                error@,
                at@,
            ),
    {
        match peer_id {
            Some(peer) => if self.peers.is_attempting(peer.as_str()) {
                let reason = "outgoing direct dial failed: ".to_owned().concat(error);
                self.promotion_failed(peer.as_str(), reason.as_str(), at)
            } else {
                just(
                    tell(
                        "outgoing connection error ".to_owned().concat(peer.as_str()).concat(
                            ": ",
                        ).concat(error),
                    ),
                )
            },
            None => just(
                tell("outgoing connection error unknown peer: ".to_owned().concat(error)),
            ),
        }
    }
}

} // verus!
