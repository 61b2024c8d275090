//! What happens in the network.
use crate::address::{address_text, is_relay_address, Address};
use crate::collections::{deep, group_deep};
use crate::effect::{
    Detail, DetailModel, Effect, EffectModel, NetworkEvent, NetworkEventModel, Task, TaskModel,
    World, WorldModel,
};
use crate::model::{WireMessage, WireMessageModel};
use crate::peer::{
    is_message_id, is_nonce, new_message_id, new_nonce, parse_peer_id, peer_named, PeerId,
};
use crate::session::links::is_relayed;
use crate::session::{just, nothing, tell, telling, Session, SessionModel, Step};
use crate::text::{decimal, decimal_text};
use vstd::prelude::*;
use vstd::string::*;

verus! {

impl SessionModel {
    /// A message to the room has come. `fresh` is its identifier if it is a chat message without
    /// one.
    pub open spec fn hear(
        self,
        source: Seq<char>,
        message: WireMessageModel,
        fresh: Seq<char>,
        at: WorldModel,
    ) -> Step {
        match message {
            WireMessageModel::Chat { id, peer_id, joined_at, name, text, sent_at } =>
            self.hear_chat(id, peer_id, joined_at, name, text, sent_at, source, fresh),
            WireMessageModel::NameClaim { peer_id, name, joined_at } => self.hear_name_claim(
                peer_id,
                name,
                joined_at,
            ),
            WireMessageModel::HistorySummary { peer_id, count, .. } => self.hear_history_summary(
                peer_id,
                count,
                at,
            ),
            WireMessageModel::HistoryRequest { requester, target, known_count } =>
            self.hear_history_request(requester, target, known_count),
            WireMessageModel::HistoryResponse { target, messages } => self.hear_history_response(
                target,
                messages,
            ),
            WireMessageModel::QueueSummary { peer_id, version, updated_at_micros, .. } =>
            self.hear_queue_summary(peer_id, version, updated_at_micros, at),
            WireMessageModel::QueueRequest {
                requester,
                target,
                known_version,
                known_updated_at_micros,
            } => self.hear_queue_request(
                requester,
                target,
                known_version,
                known_updated_at_micros,
            ),
            WireMessageModel::QueueResponse { target, state } => if target == self.local {
                self.hear_queue_state(state, "synced queue"@)
            } else {
                self.stay()
            },
            WireMessageModel::PlaybackState { state } => self.hear_playback_state(state, at),
            WireMessageModel::PlaybackPrepare { state, expected_peers } =>
            self.hear_playback_prepare(state, expected_peers, at),
            WireMessageModel::PlaybackReady { session_id, peer_id } => self.hear_playback_ready(
                session_id,
                peer_id,
            ),
            WireMessageModel::PlaybackCancel { session_id, leader_peer_id, reason } =>
            self.hear_playback_cancel(session_id, leader_peer_id, reason, at),
            WireMessageModel::QueueState { state } => self.hear_queue_state(
                state,
                "queue updated"@,
            ),
            WireMessageModel::VoteProposal { proposal } => self.hear_vote_proposal(proposal, at),
            WireMessageModel::VoteBallot { vote_id, peer_id, approve } => self.hear_vote_ballot(
                vote_id,
                peer_id,
                approve,
                at,
            ),
        }
    }

    /// A message for this peer alone has come, and is answered.
    pub open spec fn answer_direct(
        self,
        peer: Seq<char>,
        topic: Seq<char>,
        message: WireMessageModel,
        fresh: Seq<char>,
    ) -> Step {
        let heard = self.hear_direct(peer, topic, message, fresh);
        heard.after.deferring(
            seq![
                TaskModel::Report {
                    done: None,
                    failed: Some("direct response failed "@ + peer + ": channel closed"@),
                    detail: DetailModel::Nothing,
                },
            ],
        ).asking(
            heard.effects.push(
                EffectModel::Respond { accepted: self.accepts_direct(topic, message) },
            ),
        )
    }

    /// Something has happened in the network. `fresh` is the identifier of a chat message that
    /// has none.
    pub open spec fn network_event(
        self,
        event: NetworkEventModel,
        fresh: Seq<char>,
        at: WorldModel,
    ) -> Step {
        match event {
            NetworkEventModel::NewListenAddr(address) => self.saying(
                "listening on "@ + address_text(address),
            ),
            NetworkEventModel::ExternalAddrConfirmed(address) => {
                let news = telling(
                    "confirmed external address "@ + address_text(address),
                );
                if is_relayed(address) {
                    self.register_nodes(at).after.asking(seq![news])
                } else {
                    self.asking(seq![news])
                }
            },
            NetworkEventModel::ExternalAddrExpired(address) => self.saying(
                "expired external address "@ + address_text(address),
            ),
            NetworkEventModel::ConnectionEstablished { peer, connection, relayed, remote } =>
            self.connection_up(peer, connection, relayed || is_relayed(remote), at),
            NetworkEventModel::ConnectionClosed { peer, connection, relayed, remote, remaining } =>
            self.connection_down(peer, connection, relayed || is_relayed(remote), remaining, at),
            NetworkEventModel::MdnsDiscovered(found) => self.peers_nearby(found),
            NetworkEventModel::MdnsExpired(lost) => self.sightings_lost(lost, at),
            NetworkEventModel::NewExternalAddrOfPeer { peer, address } => self.hear_addresses(
                peer,
                seq![address],
            ),
            NetworkEventModel::Identified { peer, addresses } => self.hear_addresses(
                peer,
                addresses,
            ),
            NetworkEventModel::IdentifyFailed { peer, error } => self.saying(
                "identify failed "@ + peer + ": "@ + error,
            ),
            NetworkEventModel::Registered { node, namespace, ttl } => self.saying(
                "registered with rendezvous "@ + node + " in "@ + namespace + " for "@ + decimal(
                    ttl as nat,
                ) + "s"@,
            ),
            NetworkEventModel::RegisterFailed { node, namespace, error } => self.saying(
                "rendezvous register failed "@ + node + " in "@ + namespace + ": "@ + error,
            ),
            NetworkEventModel::Discovered { node, registrations } => self.discovered(
                node,
                registrations,
            ),
            NetworkEventModel::DiscoverFailed { node, namespace, error } => self.saying(
                "rendezvous discover failed "@ + node + " in "@ + match namespace {
                    Some(name) => name,
                    None => "all namespaces"@,
                } + ": "@ + error,
            ),
            NetworkEventModel::RegistrationExpired { peer } => self.saying(
                "rendezvous registration expired for "@ + peer,
            ),
            NetworkEventModel::Subscribed { peer, topic } => self.subscribed(peer, topic),
            NetworkEventModel::Unsubscribed { peer, topic } => self.unsubscribed(peer, topic),
            NetworkEventModel::GossipsubNotSupported { peer } => self.saying(
                "peer "@ + peer + " does not support gossipsub"@,
            ),
            NetworkEventModel::SlowPeer { peer, failed_messages } => self.saying(
                "gossipsub slow peer "@ + peer + ": "@ + failed_messages,
            ),
            NetworkEventModel::DirectRequest { peer, topic, message } => self.answer_direct(
                peer,
                topic,
                message,
                fresh,
            ),
            NetworkEventModel::DirectResponse { peer, accepted } => if accepted {
                self.stay()
            } else {
                self.saying("direct message ignored by "@ + peer)
            },
            NetworkEventModel::DirectOutboundFailure { peer, error } => self.saying(
                "direct message failed "@ + peer + ": "@ + error,
            ),
            NetworkEventModel::DirectInboundFailure { peer, error } => self.saying(
                "direct message inbound failed "@ + peer + ": "@ + error,
            ),
            NetworkEventModel::Message { via, source, message } => self.hear(
                match source {
                    Some(author) => author,
                    None => via,
                },
                message,
                fresh,
                at,
            ),
            NetworkEventModel::InvalidMessage { error } => self.saying(
                "ignored invalid message: "@ + error,
            ),
            NetworkEventModel::Relay { event } => self.saying("relay event: "@ + event),
            NetworkEventModel::DirectUpgradeSucceeded { peer, connection } =>
            self.upgrade_succeeded(peer, connection),
            NetworkEventModel::DirectUpgradeFailed { peer, error } => self.upgrade_failed(
                peer,
                error,
                at,
            ),
            NetworkEventModel::OutgoingConnectionError { peer, error } => self.dial_failed(
                peer,
                error,
                at,
            ),
        }
    }

    /// The peer that the digest of a message is made from: the leader of a playback if it is
    /// named, else this peer.
    pub open spec fn signer(self, message: WireMessageModel) -> Seq<char> {
        let named = match message {
            WireMessageModel::PlaybackState { state } => peer_named(state.leader_peer_id),
            WireMessageModel::PlaybackPrepare { state, .. } => peer_named(state.leader_peer_id),
            _ => None,
        };
        match named {
            Some(leader) => leader,
            None => self.local,
        }
    }

    /// The identifier that is made for a chat message without one.
    pub open spec fn fresh_for_chat(
        message: WireMessageModel,
        peer: Seq<char>,
        fresh: Seq<char>,
    ) -> bool {
        match message {
            WireMessageModel::Chat { id, sent_at, text, .. } => if id is None {
                is_message_id(fresh, peer, sent_at, 0, text)
            } else {
                fresh == Seq::<char>::empty()
            },
            _ => fresh == Seq::<char>::empty(),
        }
    }

    /// The identifier that is made for an event.
    pub open spec fn fresh_on_event(event: NetworkEventModel, fresh: Seq<char>) -> bool {
        match event {
            NetworkEventModel::DirectRequest { peer, message, .. } => Self::fresh_for_chat(
                message,
                peer,
                fresh,
            ),
            NetworkEventModel::Message { via, message, .. } => Self::fresh_for_chat(
                message,
                via,
                fresh,
            ),
            _ => fresh == Seq::<char>::empty(),
        }
    }
}

fn fresh_chat_id(message: &WireMessage, peer: &PeerId) -> (fresh: String)
    ensures
        SessionModel::fresh_for_chat(message@, peer@, fresh@),
{
    match message {
        WireMessage::Chat { id, sent_at, text, .. } => if id.is_none() {
            new_message_id(peer, *sent_at, 0, text.as_str())
        } else {
            String::new()
        },
        _ => String::new(),
    }
}

impl Session {
    /// A message to the room has come. `fresh` is its identifier if it is a chat message without
    /// one.
    pub fn hear(&mut self, source: &PeerId, message: WireMessage, fresh: String, at: &World) -> (
    effects: Vec<Effect>)
        requires
            at.in_range(),
        ensures
            (Step { after: final(self)@, effects: deep(effects@) }) == old(self)@.hear(
                source@,
                message@,
                fresh@,
                at@,
            ),
    {
        match message {
            WireMessage::Chat { id, peer_id, joined_at, name, text, sent_at } =>
            self.apply_chat_message(
                id,
                peer_id.as_str(),
                joined_at,
                name,
                text,
                sent_at,
                source,
                fresh,
            ),
            WireMessage::NameClaim { peer_id, name, joined_at } => {
                let (effects, _named) = self.hear_name_claim(
                    peer_id.as_str(),
                    name.as_str(),
                    joined_at,
                );
                effects
            },
            WireMessage::HistorySummary { peer_id, count, .. } => self.hear_history_summary(
                &peer_id,
                count,
                at,
            ),
            WireMessage::HistoryRequest { requester, target, known_count } =>
            self.hear_history_request(&requester, &target, known_count),
            WireMessage::HistoryResponse { target, messages } => self.hear_history_response(
                &target,
                &messages,
            ),
            WireMessage::QueueSummary { peer_id, version, updated_at_micros, .. } =>
            self.hear_queue_summary(&peer_id, version, updated_at_micros, at),
            WireMessage::QueueRequest {
                requester,
                target,
                known_version,
                known_updated_at_micros,
            } => self.hear_queue_request(
                &requester,
                &target,
                known_version,
                known_updated_at_micros,
            ),
            WireMessage::QueueResponse { target, state } => if target == self.local.to_text() {
                self.apply_remote_queue_state(state, "synced queue")
            } else {
                nothing()
            },
            WireMessage::PlaybackState { state } => self.hear_playback_state(state, at),
            WireMessage::PlaybackPrepare { state, expected_peers } => self.hear_playback_prepare(
                state,
                &expected_peers,
                at,
            ),
            WireMessage::PlaybackReady { session_id, peer_id } => self.hear_playback_ready(
                &session_id,
                peer_id.as_str(),
            ),
            WireMessage::PlaybackCancel { session_id, leader_peer_id, reason } =>
            self.apply_playback_cancel(&session_id, &leader_peer_id, reason.as_str(), at),
            WireMessage::QueueState { state } => self.apply_remote_queue_state(
                state,
                "queue updated",
            ),
            WireMessage::VoteProposal { proposal } => self.hear_vote_proposal(proposal, at),
            WireMessage::VoteBallot { vote_id, peer_id, approve } => self.hear_vote_ballot(
                &vote_id,
                peer_id.as_str(),
                approve,
                at,
            ),
        }
    }

    fn answer_direct(&mut self, peer: &PeerId, topic: &String, message: WireMessage, fresh: String) -> (
    effects: Vec<Effect>)
        ensures
            (Step { after: final(self)@, effects: deep(effects@) }) == old(self)@.answer_direct(
                peer@,
                topic@,
                message@,
                fresh@,
            ),
    {
        broadcast use group_deep;

        let (heard, accepted) = self.apply_direct_wire_message(peer, topic, message, fresh);
        let mut effects = heard;
        effects.push(Effect::Respond { accepted });
        self.defer(
            vec![
                Task::Report {
                    done: None,
                    failed: Some(
                        "direct response failed ".to_owned().concat(peer.as_str()).concat(
                            ": channel closed",
                        ),
                    ),
                    detail: Detail::Nothing,
                },
            ],
        );
        effects
    }

    fn external_address_confirmed(&mut self, address: &Address, at: &World) -> (
    effects: Vec<Effect>)
        ensures
            (Step { after: final(self)@, effects: deep(effects@) }) == old(self)@.network_event(
                NetworkEventModel::ExternalAddrConfirmed(address@),
                Seq::empty(),
                at@,
            ),
    {
        let news = tell(
            "confirmed external address ".to_owned().concat(address.to_text().as_str()),
        );
        if is_relay_address(address) {
            let _nothing = self.register_with_rendezvous_nodes(at);
        }
        just(news)
    }

    /// Something has happened in the network. `fresh` is the identifier of a chat message that
    /// has none.
    #[verifier::rlimit(40)]
    pub fn network_event_with_id(&mut self, event: NetworkEvent, fresh: String, at: &World) -> (
    effects: Vec<Effect>)
        requires
            at.in_range(),
        ensures
            (Step { after: final(self)@, effects: deep(effects@) }) == old(self)@.network_event(
                event@,
                fresh@,
                at@,
            ),
    {
        match event {
            NetworkEvent::NewListenAddr(address) => just(
                tell("listening on ".to_owned().concat(address.to_text().as_str())),
            ),
            NetworkEvent::ExternalAddrConfirmed(address) => self.external_address_confirmed(
                &address,
                at,
            ),
            NetworkEvent::ExternalAddrExpired(address) => just(
                tell("expired external address ".to_owned().concat(address.to_text().as_str())),
            ),
            NetworkEvent::ConnectionEstablished { peer, connection, relayed, remote } => {
                let is_relayed: bool = relayed || is_relay_address(&remote);
                self.connection_up(peer.as_str(), connection, is_relayed, at)
            },
            NetworkEvent::ConnectionClosed { peer, connection, relayed, remote, remaining } => {
                let was_relayed: bool = relayed || is_relay_address(&remote);
                self.connection_down(peer.as_str(), connection, was_relayed, remaining, at)
            },
            NetworkEvent::MdnsDiscovered(found) => self.peers_nearby(&found),
            NetworkEvent::MdnsExpired(lost) => self.peers_gone(&lost, at),
            NetworkEvent::NewExternalAddrOfPeer { peer, address } => {
                let heard = vec![address];
                assert(deep(heard@) =~= seq![address@]);
                self.hear_addresses(&peer, &heard)
            },
            NetworkEvent::Identified { peer, addresses } => self.hear_addresses(&peer, &addresses),
            NetworkEvent::IdentifyFailed { peer, error } => just(
                tell(
                    "identify failed ".to_owned().concat(peer.as_str()).concat(": ").concat(
                        error.as_str(),
                    ),
                ),
            ),
            NetworkEvent::Registered { node, namespace, ttl } => just(
                tell(
                    "registered with rendezvous ".to_owned().concat(node.as_str()).concat(
                        " in ",
                    ).concat(namespace.as_str()).concat(" for ").concat(
                        decimal_text(ttl as u128).as_str(),
                    ).concat("s"),
                ),
            ),
            NetworkEvent::RegisterFailed { node, namespace, error } => just(
                tell(
                    "rendezvous register failed ".to_owned().concat(node.as_str()).concat(
                        " in ",
                    ).concat(namespace.as_str()).concat(": ").concat(error.as_str()),
                ),
            ),
            NetworkEvent::Discovered { node, registrations } => self.dial_rendezvous_registrations(
                node.as_str(),
                &registrations,
            ),
            NetworkEvent::DiscoverFailed { node, namespace, error } => {
                let name = match namespace {
                    Some(name) => name,
                    None => "all namespaces".to_owned(),
                };
                just(
                    tell(
                        "rendezvous discover failed ".to_owned().concat(node.as_str()).concat(
                            " in ",
                        ).concat(name.as_str()).concat(": ").concat(error.as_str()),
                    ),
                )
            },
            NetworkEvent::RegistrationExpired { peer } => just(
                tell("rendezvous registration expired for ".to_owned().concat(peer.as_str())),
            ),
            NetworkEvent::Subscribed { peer, topic } => self.peer_subscribed(
                peer.as_str(),
                &topic,
            ),
            NetworkEvent::Unsubscribed { peer, topic } => self.peer_unsubscribed(
                peer.as_str(),
                &topic,
            ),
            NetworkEvent::GossipsubNotSupported { peer } => just(
                tell(
                    "peer ".to_owned().concat(peer.as_str()).concat(" does not support gossipsub"),
                ),
            ),
            NetworkEvent::SlowPeer { peer, failed_messages } => just(
                tell(
                    "gossipsub slow peer ".to_owned().concat(peer.as_str()).concat(": ").concat(
                        failed_messages.as_str(),
                    ),
                ),
            ),
            NetworkEvent::DirectRequest { peer, topic, message } => self.answer_direct(
                &peer,
                &topic,
                message,
                fresh,
            ),
            NetworkEvent::DirectResponse { peer, accepted } => if accepted {
                nothing()
            } else {
                just(tell("direct message ignored by ".to_owned().concat(peer.as_str())))
            },
            NetworkEvent::DirectOutboundFailure { peer, error } => just(
                tell(
                    "direct message failed ".to_owned().concat(peer.as_str()).concat(": ").concat(
                        error.as_str(),
                    ),
                ),
            ),
            NetworkEvent::DirectInboundFailure { peer, error } => just(
                tell(
                    "direct message inbound failed ".to_owned().concat(peer.as_str()).concat(
                        ": ",
                    ).concat(error.as_str()),
                ),
            ),
            NetworkEvent::Message { via, source, message } => {
                let author = match source {
                    Some(author) => author,
                    None => via,
                };
                self.hear(&author, message, fresh, at)
            },
            NetworkEvent::InvalidMessage { error } => just(
                tell("ignored invalid message: ".to_owned().concat(error.as_str())),
            ),
            NetworkEvent::Relay { event } => just(
                tell("relay event: ".to_owned().concat(event.as_str())),
            ),
            NetworkEvent::DirectUpgradeSucceeded { peer, connection } => self.upgrade_succeeded(
                peer.as_str(),
                connection.as_str(),
            ),
            NetworkEvent::DirectUpgradeFailed { peer, error } => self.upgrade_failed(
                peer.as_str(),
                error.as_str(),
                at,
            ),
            NetworkEvent::OutgoingConnectionError { peer, error } => self.dial_failed(
                &peer,
                error.as_str(),
                at,
            ),
        }
    }

    /// Something has happened in the network.
    pub fn network_event(&mut self, event: NetworkEvent, at: &World) -> (effects: Vec<Effect>)
        requires
            at.in_range(),
        ensures
            exists|fresh: Seq<char>|
                #![trigger SessionModel::fresh_on_event(event@, fresh)]
                SessionModel::fresh_on_event(event@, fresh) && (Step {
                    after: final(self)@,
                    effects: deep(effects@),
                }) == old(self)@.network_event(event@, fresh, at@),
    {
        let fresh = match &event {
            NetworkEvent::DirectRequest { peer, message, .. } => fresh_chat_id(message, peer),
            NetworkEvent::Message { via, message, .. } => fresh_chat_id(message, via),
            _ => String::new(),
        };
        assert(SessionModel::fresh_on_event(event@, fresh@));
        self.network_event_with_id(event, fresh, at)
    }

    /// A digest for a message that is about to be sent. Chat messages carry none. The digest of
    /// a playback is made from its leader.
    pub fn message_nonce(&mut self, message: &WireMessage, at: &World) -> (nonce: Option<u64>)
        ensures
            match nonce {
                Some(digest) => !(message@ is Chat) && final(self)@ == old(self)@.with_digest()
                    && is_nonce(
                    digest,
                    old(self)@.signer(message@),
                    at.now.wall_micros,
                    old(self)@.nonce_seq,
                ),
                None => message@ is Chat && final(self)@ == old(self)@,
            },
    {
        let now: i64 = at.now.wall_micros;
        let leader: Option<PeerId> = match message {
            WireMessage::Chat { .. } => {
                return None;
            },
            WireMessage::PlaybackState { state } => parse_peer_id(state.leader_peer_id.as_str()),
            WireMessage::PlaybackPrepare { state, .. } => parse_peer_id(
                state.leader_peer_id.as_str(),
            ),
            _ => None,
        };
        let sequence: u64 = self.next_nonce();
        match leader {
            Some(peer) => Some(new_nonce(&peer, now, sequence)),
            None => Some(new_nonce(&self.local, now, sequence)),
        }
    }
}

} // verus!
