//! Chat messages, names and histories.
use crate::collections::{deep, group_deep, keys_of};
use crate::effect::{Effect, EffectModel, Outcome, OutcomeModel, Task, TaskModel, World, WorldModel};
use crate::model::{
    ChatRecord, ChatRecordModel, PeerNameClaimModel, WireMessage, WireMessageModel,
};
use crate::names::name_notice;
use crate::peer::{parse_peer_id, peer_named, PeerId};
use crate::routes::PeerConnectionRoutesModel;
use crate::session::{
    just, nothing, tell, tell_if, telling, telling_if, Session, SessionModel, Step,
};
use crate::text::{decimal, decimal_text};
use vstd::prelude::*;
use vstd::string::*;

verus! {

/// A peer that direct messages are sent to: it is connected, and no rendezvous node.
pub open spec fn takes_direct(
    entry: (Seq<char>, PeerConnectionRoutesModel),
    session: SessionModel,
) -> bool {
    &&& entry.0 != session.local
    &&& !session.peers.rendezvous.contains(entry.0)
    &&& entry.1.linked()
}

/// The identifier of a message, or a fresh one if it has none.
pub open spec fn id_or(id: Option<Seq<char>>, fresh: Seq<char>) -> Seq<char> {
    match id {
        Some(i) => i,
        None => fresh,
    }
}

/// What comes of going through the messages of a peer.
#[verifier::ext_equal]
pub struct Merge {
    pub after: SessionModel,
    pub effects: Seq<EffectModel>,
    /// The number of messages that were new.
    pub added: nat,
}

impl SessionModel {
    /// The peers that direct messages are sent to.
    pub open spec fn direct_targets(self) -> Seq<Seq<char>> {
        keys_of(
            self.peers.routes.filter(
                |entry: (Seq<char>, PeerConnectionRoutesModel)| takes_direct(entry, self),
            ),
        )
    }

    /// The record of a message that this peer writes.
    pub open spec fn own_record(self, text: Seq<char>, id: Seq<char>, sent_at: i64) -> ChatRecordModel {
        ChatRecordModel {
            id: id,
            peer_id: self.local,
            joined_at: Some(self.joined_at),
            author: self.name,
            text: text,
            sent_at: sent_at,
        }
    }

    /// The user writes a message, which gets the identifier `id`. It goes nowhere if the name
    /// belongs to an earlier peer.
    pub open spec fn write_chat(self, text: Seq<char>, id: Seq<char>, at: WorldModel) -> Step {
        let counted = SessionModel { message_seq: (self.message_seq + 1) as u64, ..self };
        let sent_at = at.now.wall_micros;
        let message = WireMessageModel::Chat {
            id: Some(id),
            peer_id: self.local,
            joined_at: Some(self.joined_at),
            name: self.name,
            text: text,
            sent_at: sent_at,
        };
        if self.names.blocked() {
            counted.saying(
                "name '"@ + self.name
                    + "' belongs to an earlier peer; restart with a different --name"@,
            )
        } else {
            let after = SessionModel {
                history: self.history.with_record(self.own_record(text, id, sent_at)),
                ..counted
            };
            after.deferring(seq![TaskModel::ChatSent { message: message }]).asking(
                seq![after.history_view(), EffectModel::PublishChat(message)],
            )
        }
    }

    /// A message was handed to the network. If nobody follows the room it is sent to the
    /// connected peers one by one.
    pub open spec fn chat_sent(self, message: WireMessageModel, outcome: OutcomeModel) -> Step {
        if outcome is NoSubscribers {
            let targets = self.direct_targets();
            self.asking(
                Seq::new(
                    targets.len(),
                    |i: int|
                        EffectModel::SendDirect {
                            peer: targets[i],
                            topic: self.topic,
                            message: message,
                        },
                ).push(
                    telling(
                        if targets.len() > 0 {
                            "gossipsub has no chat subscribers; sent direct fallback to "@
                                + decimal(targets.len()) + " peer(s)"@
                        } else {
                            "publish failed: NoPeersSubscribedToTopic"@
                        },
                    ),
                ),
            )
        } else {
            self.stay()
        }
    }

    /// A peer claims a name.
    pub open spec fn naming(
        self,
        peer_id: Seq<char>,
        name: Seq<char>,
        joined_at: Option<i64>,
    ) -> Step {
        let names = self.names.remember(
            peer_id,
            PeerNameClaimModel { name: name, joined_at: joined_at },
            self.identity(),
        );
        SessionModel { names: names, ..self }.asking(
            telling_if(name_notice(self.names, names, self.name)),
        )
    }

    /// The name of a peer has come. A text that names no peer is passed over.
    pub open spec fn hear_name_claim(
        self,
        peer_id: Seq<char>,
        name: Seq<char>,
        joined_at: Option<i64>,
    ) -> Step {
        match peer_named(peer_id) {
            Some(peer) => self.naming(peer, name, joined_at),
            None => self.stay(),
        }
    }

    /// The peer that a message is ascribed to: the one that it names, or else its source.
    pub open spec fn claimed_peer(peer_id: Seq<char>, source: Seq<char>) -> Seq<char> {
        match peer_named(peer_id) {
            Some(peer) => peer,
            None => source,
        }
    }

    /// A chat message has come from `source`. It gets the identifier `fresh` if it has none.
    pub open spec fn hear_chat(
        self,
        id: Option<Seq<char>>,
        peer_id: Seq<char>,
        joined_at: Option<i64>,
        name: Seq<char>,
        text: Seq<char>,
        sent_at: i64,
        source: Seq<char>,
        fresh: Seq<char>,
    ) -> Step {
        let claimed = Self::claimed_peer(peer_id, source);
        let named = self.naming(claimed, name, joined_at);
        let record = ChatRecordModel {
            id: id_or(id, fresh),
            peer_id: claimed,
            joined_at: joined_at,
            author: name,
            text: text,
            sent_at: sent_at,
        };
        let after = SessionModel { history: self.history.with_record(record), ..named.after };
        if self.history.seen.contains(record.id) {
            after.asking(named.effects)
        } else {
            after.asking(named.effects.push(after.history_view()))
        }
    }

    /// The messages of a peer are gone through one by one.
    pub open spec fn merging(self, messages: Seq<ChatRecordModel>) -> Merge
        decreases messages.len(),
    {
        if messages.len() == 0 {
            Merge { after: self, effects: Seq::empty(), added: 0 }
        } else {
            let before = self.merging(messages.drop_last());
            let record = messages.last();
            let named = before.after.hear_name_claim(
                record.peer_id,
                record.author,
                record.joined_at,
            );
            Merge {
                after: SessionModel {
                    history: before.after.history.with_record(record),
                    ..named.after
                },
                effects: before.effects + named.effects,
                added: if before.after.history.seen.contains(record.id) {
                    before.added
                } else {
                    before.added + 1
                },
            }
        }
    }

    /// The history of a peer has come, for this peer or for all.
    pub open spec fn hear_history_response(
        self,
        target: Option<Seq<char>>,
        messages: Seq<ChatRecordModel>,
    ) -> Step {
        let merge = self.merging(messages);
        if target is Some && target->0 != self.local {
            self.stay()
        } else if merge.added > 0 {
            merge.after.asking(
                merge.effects + seq![
                    merge.after.history_view(),
                    telling(
                        "merged "@ + decimal(merge.added) + " history messages, now "@ + decimal(
                            merge.after.history.records.len(),
                        ),
                    ),
                ],
            )
        } else {
            merge.after.asking(merge.effects)
        }
    }

    /// A message for this peer alone is accepted: it is for this room, and a chat message or the
    /// name of a peer.
    pub open spec fn accepts_direct(self, topic: Seq<char>, message: WireMessageModel) -> bool {
        topic == self.topic && match message {
            WireMessageModel::Chat { .. } => true,
            WireMessageModel::NameClaim { peer_id, .. } => peer_named(peer_id) is Some,
            _ => false,
        }
    }

    /// A message for this peer alone has come.
    pub open spec fn hear_direct(
        self,
        source: Seq<char>,
        topic: Seq<char>,
        message: WireMessageModel,
        fresh: Seq<char>,
    ) -> Step {
        if topic != self.topic {
            self.saying("ignored direct message from "@ + source + ": topic mismatch"@)
        } else {
            match message {
                WireMessageModel::Chat { id, peer_id, joined_at, name, text, sent_at } =>
                self.hear_chat(id, peer_id, joined_at, name, text, sent_at, source, fresh),
                WireMessageModel::NameClaim { peer_id, name, joined_at } => self.hear_name_claim(
                    peer_id,
                    name,
                    joined_at,
                ),
                _ => self.stay(),
            }
        }
    }
}

impl Session {
    /// The peers that direct messages are sent to.
    pub fn direct_targets(&self) -> (targets: Vec<String>)
        ensures
            deep(targets@) == self@.direct_targets(),
    {
        let ghost session = self@;
        let ghost takes = |entry: (Seq<char>, PeerConnectionRoutesModel)|
            takes_direct(entry, session);
        let ghost all = self.peers.routes@;
        let local = self.local.to_text();
        let mut targets: Vec<String> = Vec::new();
        let mut i: usize = 0;
        proof {
            reveal(Seq::filter);
            assert(deep(targets@) =~= keys_of(all.take(0).filter(takes)));
        }
        while i < self.peers.routes.entries.len()
            invariant
                i <= all.len(),
                session == self@,
                local@ == session.local,
                all == self.peers.routes@,
                takes == (|entry: (Seq<char>, PeerConnectionRoutesModel)|
                    takes_direct(entry, session)),
                deep(targets@) == keys_of(all.take(i as int).filter(takes)),
            decreases self.peers.routes.entries.len() - i,
        {
            broadcast use group_deep;

            let ghost so_far = all.take(i as int).filter(takes);
            let ghost entry = all[i as int];
            proof {
                reveal(Seq::filter);
                assert(all.take(i + 1).drop_last() =~= all.take(i as int));
                assert(all.take(i + 1).last() == entry);
                assert(keys_of(so_far.push(entry)) =~= keys_of(so_far).push(entry.0));
            }
            let peer = &self.peers.routes.entries[i].0;
            let routes = &self.peers.routes.entries[i].1;
            if *peer != local && !self.peers.rendezvous.contains(peer.as_str()) && (
            routes.has_direct() || routes.has_relayed()) {
                targets.push(peer.clone());
            }
            i = i + 1;
        }
        assert(all.take(i as int) =~= all);
        targets
    }

    /// Writes a message for the user, with the identifier `id`.
    pub fn write_chat(&mut self, text: String, id: String, at: &World) -> (effects: Vec<Effect>)
        requires
            old(self)@.message_seq < u64::MAX,
        ensures
            (Step { after: final(self)@, effects: deep(effects@) }) == old(self)@.write_chat(
                text@,
                id@,
                at@,
            ),
    {
        self.message_seq = self.message_seq + 1;
        if self.names.is_blocked() {
            return just(
                tell(
                    "name '".to_owned().concat(self.name.as_str()).concat(
                        "' belongs to an earlier peer; restart with a different --name",
                    ),
                ),
            );
        }
        let sent_at: i64 = at.now.wall_micros;
        let record = ChatRecord {
            id: id.clone(),
            peer_id: self.local.to_text(),
            joined_at: Some(self.joined_at),
            author: self.name.clone(),
            text: text.clone(),
            sent_at,
        };
        let _new = self.history.insert_record(record);
        let message = WireMessage::Chat {
            id: Some(id),
            peer_id: self.local.to_text(),
            joined_at: Some(self.joined_at),
            name: self.name.clone(),
            text,
            sent_at,
        };
        let effects = vec![self.show_history(), Effect::PublishChat(message.clone())];
        self.defer(vec![Task::ChatSent { message }]);
        assert(deep(effects@) =~= old(self)@.write_chat(text@, id@, at@).effects);
        effects
    }

    /// Sends a message to the connected peers one by one, and counts them.
    pub fn send_direct_message_to_connected_peers(&self, message: &WireMessage) -> (sent: (
        Vec<Effect>,
        usize,
    ))
        ensures
            sent.1 == self@.direct_targets().len(),
            deep(sent.0@) == Seq::new(
                self@.direct_targets().len(),
                |i: int|
                    EffectModel::SendDirect {
                        peer: self@.direct_targets()[i],
                        topic: self@.topic,
                        message: message@,
                    },
            ),
    {
        let targets = self.direct_targets();
        let ghost all = Seq::new(
            targets@.len(),
            |i: int|
                EffectModel::SendDirect {
                    peer: deep(targets@)[i],
                    topic: self@.topic,
                    message: message@,
                },
        );
        let mut effects: Vec<Effect> = Vec::new();
        let mut i: usize = 0;
        assert(deep(effects@) =~= all.take(0));
        while i < targets.len()
            invariant
                i <= targets@.len(),
                all == Seq::new(
                    targets@.len(),
                    |i: int|
                        EffectModel::SendDirect {
                            peer: deep(targets@)[i],
                            topic: self@.topic,
                            message: message@,
                        },
                ),
                deep(effects@) == all.take(i as int),
            decreases targets.len() - i,
        {
            broadcast use group_deep;

            effects.push(
                Effect::SendDirect {
                    peer: targets[i].clone(),
                    topic: self.topic.clone(),
                    message: message.clone(),
                },
            );
            assert(all.take(i + 1) =~= all.take(i as int).push(all[i as int]));
            i = i + 1;
        }
        assert(all.take(i as int) =~= all);
        (effects, targets.len())
    }

    /// A message was handed to the network.
    pub fn chat_sent(&self, message: &WireMessage, outcome: &Outcome) -> (effects: Vec<Effect>)
        ensures
            self@.asking(deep(effects@)) == self@.chat_sent(message@, outcome@),
    {
        broadcast use group_deep;

        match outcome {
            Outcome::NoSubscribers => {
                let (mut effects, count) = self.send_direct_message_to_connected_peers(message);
                let count: usize = count;
                if count > 0 {
                    effects.push(
                        tell(
                            "gossipsub has no chat subscribers; sent direct fallback to ".to_owned().concat(
                                decimal_text(count as u128).as_str(),
                            ).concat(" peer(s)"),
                        ),
                    );
                } else {
                    effects.push(tell("publish failed: NoPeersSubscribedToTopic".to_owned()));
                }
                effects
            },
            _ => nothing(),
        }
    }

    /// Notes the name that a peer claims.
    pub fn note_name(&mut self, peer_id: &str, name: &str, joined_at: Option<i64>) -> (effects: Vec<
        Effect,
    >)
        ensures
            (Step { after: final(self)@, effects: deep(effects@) }) == old(self)@.naming(
                peer_id@,
                name@,
                joined_at,
            ),
    {
        let notice = self.names.remember_peer_name(
            peer_id,
            name,
            joined_at,
            self.local.as_str(),
            self.name.as_str(),
            self.joined_at,
        );
        tell_if(notice)
    }

    /// The name of a peer has come. Says whether the text names a peer.
    pub fn hear_name_claim(&mut self, peer_id: &str, name: &str, joined_at: Option<i64>) -> (heard: (
        Vec<Effect>,
        bool,
    ))
        ensures
            (Step { after: final(self)@, effects: deep(heard.0@) }) == old(self)@.hear_name_claim(
                peer_id@,
                name@,
                joined_at,
            ),
            heard.1 == peer_named(peer_id@) is Some,
    {
        match parse_peer_id(peer_id) {
            Some(peer) => (self.note_name(peer.as_str(), name, joined_at), true),
            None => (nothing(), false),
        }
    }

    /// A chat message has come.
    pub fn apply_chat_message(
        &mut self,
        id: Option<String>,
        peer_id: &str,
        joined_at: Option<i64>,
        name: String,
        text: String,
        sent_at: i64,
        source: &PeerId,
        fresh: String,
    ) -> (effects: Vec<Effect>)
        ensures
            (Step { after: final(self)@, effects: deep(effects@) }) == old(self)@.hear_chat(
                id.deep_view(),
                peer_id@,
                joined_at,
                name@,
                text@,
                sent_at,
                source@,
                fresh@,
            ),
    {
        broadcast use group_deep;

        let claimed = match parse_peer_id(peer_id) {
            Some(peer) => peer,
            None => source.clone(),
        };
        let mut effects = self.note_name(claimed.as_str(), name.as_str(), joined_at);
        let record_id = match id {
            Some(known) => known,
            None => fresh,
        };
        let record = ChatRecord {
            id: record_id,
            peer_id: claimed.to_text(),
            joined_at,
            author: name,
            text,
            sent_at,
        };
        if self.history.insert_record(record) {
            effects.push(self.show_history());
        }
        effects
    }

    /// The history of a peer has come.
    pub fn hear_history_response(&mut self, target: &Option<String>, messages: &Vec<ChatRecord>) -> (
    effects: Vec<Effect>)
        ensures
            (Step { after: final(self)@, effects: deep(effects@) })
                == old(self)@.hear_history_response(target.deep_view(), deep(messages@)),
    {
        broadcast use group_deep;

        if let Some(peer) = target {
            if *peer != self.local.to_text() {
                return nothing();
            }
        }
        let ghost all = deep(messages@);
        let ghost before = self@;
        let mut effects = nothing();
        let mut added: usize = 0;
        let mut i: usize = 0;
        assert(all.take(0) =~= Seq::<ChatRecordModel>::empty());
        while i < messages.len()
            invariant
                i <= messages@.len(),
                added <= i,
                all == deep(messages@),
                (Merge { after: self@, effects: deep(effects@), added: added as nat })
                    == before.merging(all.take(i as int)),
            decreases messages.len() - i,
        {
            broadcast use group_deep;

            proof {
                assert(all.take(i + 1).drop_last() =~= all.take(i as int));
                assert(all.take(i + 1).last() == messages@[i as int]@);
            }
            let record = messages[i].clone();
            let (mut notices, _named) = self.hear_name_claim(
                record.peer_id.as_str(),
                record.author.as_str(),
                record.joined_at,
            );
            effects.append(&mut notices);
            if self.history.insert_record(record) {
                added = added + 1;
            }
            i = i + 1;
        }
        assert(all.take(i as int) =~= all);
        if added > 0 {
            effects.push(self.show_history());
            let total: usize = self.history.records.len();
            effects.push(
                tell(
                    "merged ".to_owned().concat(decimal_text(added as u128).as_str()).concat(
                        " history messages, now ",
                    ).concat(decimal_text(total as u128).as_str()),
                ),
            );
            assert(deep(effects@) =~= before.hear_history_response(
                target.deep_view(),
                all,
            ).effects);
        }
        effects
    }

    /// A message for this peer alone has come. Says whether it was accepted.
    pub fn apply_direct_wire_message(
        &mut self,
        source: &PeerId,
        topic: &String,
        message: WireMessage,
        fresh: String,
    ) -> (heard: (Vec<Effect>, bool))
        ensures
            (Step { after: final(self)@, effects: deep(heard.0@) }) == old(self)@.hear_direct(
                source@,
                topic@,
                message@,
                fresh@,
            ),
            heard.1 == old(self)@.accepts_direct(topic@, message@),
    {
        if *topic != self.topic {
            return (
                just(
                    tell(
                        "ignored direct message from ".to_owned().concat(source.as_str()).concat(
                            ": topic mismatch",
                        ),
                    ),
                ),
                false,
            );
        }
        match message {
            WireMessage::Chat { id, peer_id, joined_at, name, text, sent_at } => (
                self.apply_chat_message(
                    id,
                    peer_id.as_str(),
                    joined_at,
                    name,
                    text,
                    sent_at,
                    source,
                    fresh,
                ),
                true,
            ),
            WireMessage::NameClaim { peer_id, name, joined_at } => self.hear_name_claim(
                peer_id.as_str(),
                name.as_str(),
                joined_at,
            ),
            _ => (nothing(), false),
        }
    }
}

} // verus!
