//! What a session takes in, what it asks for, and what it has yet to do.
use crate::address::Address;
use crate::collections::deep;
use crate::model::{
    PlaybackState, PlaybackStateModel, QueueItem, QueueItemModel, Track, TrackModel, UiEvent,
    UiEventModel, VoteAction, VoteActionModel, WireMessage, WireMessageModel,
};
use crate::peer::PeerId;
use crate::playback::{PlayerCommand, PlayerCommandModel, PlayerStatus, PlayerStatusModel};
use crate::time::Moment;
use crate::vote::{ActiveVote, ActiveVoteModel};
use vstd::prelude::*;

verus! {

/// Why something could not be done.
#[derive(Debug, PartialEq, Eq)]
pub struct Failure {
    /// The reason.
    pub brief: String,
    /// The reason and what it comes from.
    pub full: String,
}

/// The content of [`Failure`].
#[verifier::ext_equal]
pub struct FailureModel {
    pub brief: Seq<char>,
    pub full: Seq<char>,
}

impl View for Failure {
    type V = FailureModel;

    open spec fn view(&self) -> FailureModel {
        FailureModel {
            brief: self.brief@,
            full: self.full@,
        }
    }
}

impl DeepView for Failure {
    type V = FailureModel;

    open spec fn deep_view(&self) -> FailureModel {
        self@
    }
}

impl Clone for Failure {
    fn clone(&self) -> (copy: Self)
        ensures
            copy@ == self@,
    {
        Failure {
            brief: self.brief.clone(),
            full: self.full.clone(),
        }
    }
}

/// How much of a failure the user is told.
#[derive(Debug, PartialEq, Eq)]
pub enum Detail {
    Nothing,
    Brief,
    Full,
}

/// The content of [`Detail`].
#[verifier::ext_equal]
pub enum DetailModel {
    Nothing,
    Brief,
    Full,
}

impl View for Detail {
    type V = DetailModel;

    open spec fn view(&self) -> DetailModel {
        match self {
            Detail::Nothing => DetailModel::Nothing,
            Detail::Brief => DetailModel::Brief,
            Detail::Full => DetailModel::Full,
        }
    }
}

impl DeepView for Detail {
    type V = DetailModel;

    open spec fn deep_view(&self) -> DetailModel {
        self@
    }
}

impl Clone for Detail {
    fn clone(&self) -> (copy: Self)
        ensures
            copy@ == self@,
    {
        match self {
            Detail::Nothing => Detail::Nothing,
            Detail::Brief => Detail::Brief,
            Detail::Full => Detail::Full,
        }
    }
}

/// Something that a session asks for. Effects are carried out in order, up to the first that fails.
#[allow(inconsistent_fields)]
#[derive(Debug, PartialEq, Eq)]
pub enum Effect {
    /// Shows something to the user.
    Ui(UiEvent),
    /// Sends a message to all peers of the room.
    Publish(WireMessage),
    /// Sends a chat message to all peers of the room.
    PublishChat(WireMessage),
    /// Sends a message to one peer.
    SendDirect {
        peer: String,
        topic: String,
        message: WireMessage,
    },
    /// Answers the peer whose message is being handled.
    Respond {
        accepted: bool,
    },
    /// Follows the room.
    Subscribe,
    Listen(Address),
    DialAddress(Address),
    /// Dials a peer, even if it is connected if `always` is set.
    Dial {
        peer: String,
        addresses: Vec<Address>,
        always: bool,
    },
    /// Closes connections. The reply is the number of those that were open.
    CloseConnections(Vec<u64>),
    AddExplicitPeer(String),
    RemoveExplicitPeer(String),
    /// Registers at a rendezvous node.
    Register(String),
    /// Looks up peers at a rendezvous node.
    Discover(String),
    /// Looks up a part of a video, counted from zero. The reply is a track.
    ResolveTrack {
        bvid: String,
        part: usize,
    },
    /// Fetches the audio of a track.
    FetchAudio(Track),
    Player(PlayerCommand),
    /// Ends the session.
    Shutdown(Failure),
}

/// The content of [`Effect`].
#[allow(inconsistent_fields)]
#[verifier::ext_equal]
pub enum EffectModel {
    Ui(UiEventModel),
    Publish(WireMessageModel),
    PublishChat(WireMessageModel),
    SendDirect {
        peer: Seq<char>,
        topic: Seq<char>,
        message: WireMessageModel,
    },
    Respond {
        accepted: bool,
    },
    Subscribe,
    Listen(Seq<u8>),
    DialAddress(Seq<u8>),
    Dial {
        peer: Seq<char>,
        addresses: Seq<Seq<u8>>,
        always: bool,
    },
    CloseConnections(Seq<u64>),
    AddExplicitPeer(Seq<char>),
    RemoveExplicitPeer(Seq<char>),
    Register(Seq<char>),
    Discover(Seq<char>),
    ResolveTrack {
        bvid: Seq<char>,
        part: usize,
    },
    FetchAudio(TrackModel),
    Player(PlayerCommandModel),
    Shutdown(FailureModel),
}

impl View for Effect {
    type V = EffectModel;

    open spec fn view(&self) -> EffectModel {
        match self {
            Effect::Ui(event) => EffectModel::Ui(event@),
            Effect::Publish(message) => EffectModel::Publish(message@),
            Effect::PublishChat(message) => EffectModel::PublishChat(message@),
            Effect::SendDirect { peer, topic, message } => EffectModel::SendDirect {
                peer: peer@,
                topic: topic@,
                message: message@,
            },
            Effect::Respond { accepted } => EffectModel::Respond {
                accepted: *accepted,
            },
            Effect::Subscribe => EffectModel::Subscribe,
            Effect::Listen(address) => EffectModel::Listen(address@),
            Effect::DialAddress(address) => EffectModel::DialAddress(address@),
            Effect::Dial { peer, addresses, always } => EffectModel::Dial {
                peer: peer@,
                addresses: deep(addresses@),
                always: *always,
            },
            Effect::CloseConnections(connections) => EffectModel::CloseConnections(deep(connections@)),
            Effect::AddExplicitPeer(peer) => EffectModel::AddExplicitPeer(peer@),
            Effect::RemoveExplicitPeer(peer) => EffectModel::RemoveExplicitPeer(peer@),
            Effect::Register(node) => EffectModel::Register(node@),
            Effect::Discover(node) => EffectModel::Discover(node@),
            Effect::ResolveTrack { bvid, part } => EffectModel::ResolveTrack {
                bvid: bvid@,
                part: *part,
            },
            Effect::FetchAudio(track) => EffectModel::FetchAudio(track@),
            Effect::Player(command) => EffectModel::Player(command@),
            Effect::Shutdown(failure) => EffectModel::Shutdown(failure@),
        }
    }
}

impl DeepView for Effect {
    type V = EffectModel;

    open spec fn deep_view(&self) -> EffectModel {
        self@
    }
}

/// What came of the effects that were asked for last: the first failure, or else the reply to the
/// last of them.
#[derive(Debug, PartialEq, Eq)]
pub enum Outcome {
    Done,
    /// Nobody follows the room.
    NoSubscribers,
    Count(usize),
    Track(Track),
    Failed(Failure),
}

/// The content of [`Outcome`].
#[verifier::ext_equal]
pub enum OutcomeModel {
    Done,
    NoSubscribers,
    Count(usize),
    Track(TrackModel),
    Failed(FailureModel),
}

impl View for Outcome {
    type V = OutcomeModel;

    open spec fn view(&self) -> OutcomeModel {
        match self {
            Outcome::Done => OutcomeModel::Done,
            Outcome::NoSubscribers => OutcomeModel::NoSubscribers,
            Outcome::Count(count) => OutcomeModel::Count(*count),
            Outcome::Track(track) => OutcomeModel::Track(track@),
            Outcome::Failed(failure) => OutcomeModel::Failed(failure@),
        }
    }
}

impl DeepView for Outcome {
    type V = OutcomeModel;

    open spec fn deep_view(&self) -> OutcomeModel {
        self@
    }
}

/// Something that a session has yet to do.
#[allow(inconsistent_fields)]
#[derive(Debug, PartialEq, Eq)]
pub enum Task {
    /// Asks for effects.
    Perform(Vec<Effect>),
    /// Tells the user what came of the last effects.
    Report {
        done: Option<String>,
        failed: Option<String>,
        detail: Detail,
    },
    /// Fails.
    Raise(Failure),
    /// Listens, reserves relays and dials.
    Open {
        listen: Vec<Address>,
        relay: Vec<Address>,
        peer: Vec<Address>,
    },
    /// Falls back to direct messages if nobody follows the room.
    ChatSent {
        message: WireMessage,
    },
    /// Queues the track that was looked up.
    TrackResolved {
        position: Option<usize>,
    },
    /// Plays the next item of the queue if nothing is played.
    StartNext,
    /// Cancels a playback that waits in favour of an item.
    Supersede {
        item: QueueItem,
    },
    /// Makes an item wait to be played from the given time on.
    Prepare {
        item: QueueItem,
        at_micros: i64,
    },
    /// Fetches the audio of a track that waits to be played.
    FetchOwn {
        track: Track,
    },
    OwnFetched {
        track: Track,
    },
    OwnLoaded,
    /// Starts the playback that waits if its time has come.
    MaybeStart,
    /// Ends the playback.
    StopCurrent {
        reason: String,
    },
    GoIdle {
        reason: String,
    },
    OpenVote {
        vote: ActiveVote,
    },
    /// Carries out the vote if it has passed.
    ResolveVote,
    ExecuteVote {
        action: VoteAction,
    },
    /// Brings the player in line with the playback, then looks whether the track is over.
    SyncPlayer,
    /// Goes on to the next item if the track was over when the player was brought in line.
    CheckFinished {
        at_micros: i64,
        played_ms: u64,
    },
    ShowPlayback,
    /// Follows the playback of a peer.
    ApplyRemote {
        state: PlaybackState,
    },
    Adopt {
        state: PlaybackState,
    },
    /// Gets ready for the playback of a peer.
    AcceptPrepare {
        state: PlaybackState,
    },
    AdoptPrepare {
        state: PlaybackState,
    },
    PrepareAudio {
        track: Track,
    },
    LoadPrepared {
        track: Track,
    },
    PublishReady {
        session_id: String,
    },
    /// Tries to reach a relayed peer directly.
    Promote {
        peer: String,
    },
    Dialed {
        peer: String,
        count: usize,
    },
    /// Gets in touch with a peer that was found at a rendezvous node.
    FollowRegistration {
        peer: PeerId,
        addresses: Vec<Address>,
    },
    RegisterNode {
        node: String,
    },
    /// Closes the relayed connections to a peer that is reached directly.
    CloseRelays {
        peer: String,
    },
    RelaysClosed {
        peer: String,
        promoted: bool,
    },
    EarlyClosed {
        peer: String,
    },
    CountPeers,
    /// Publishes the summaries now and a few times soon.
    TriggerSync,
    ScheduleBurst,
    /// Publishes the queue and the playback.
    MusicSnapshot,
    /// Publishes the summaries once for each time that has come.
    DrainSync {
        now: u64,
    },
    HistoryRequested {
        peer: String,
    },
    QueueRequested {
        peer: String,
    },
}

/// The content of [`Task`].
#[allow(inconsistent_fields)]
#[verifier::ext_equal]
pub enum TaskModel {
    Perform(Seq<EffectModel>),
    Report {
        done: Option<Seq<char>>,
        failed: Option<Seq<char>>,
        detail: DetailModel,
    },
    Raise(FailureModel),
    Open {
        listen: Seq<Seq<u8>>,
        relay: Seq<Seq<u8>>,
        peer: Seq<Seq<u8>>,
    },
    ChatSent {
        message: WireMessageModel,
    },
    TrackResolved {
        position: Option<usize>,
    },
    StartNext,
    Supersede {
        item: QueueItemModel,
    },
    Prepare {
        item: QueueItemModel,
        at_micros: i64,
    },
    FetchOwn {
        track: TrackModel,
    },
    OwnFetched {
        track: TrackModel,
    },
    OwnLoaded,
    MaybeStart,
    StopCurrent {
        reason: Seq<char>,
    },
    GoIdle {
        reason: Seq<char>,
    },
    OpenVote {
        vote: ActiveVoteModel,
    },
    ResolveVote,
    ExecuteVote {
        action: VoteActionModel,
    },
    SyncPlayer,
    CheckFinished {
        at_micros: i64,
        played_ms: u64,
    },
    ShowPlayback,
    ApplyRemote {
        state: PlaybackStateModel,
    },
    Adopt {
        state: PlaybackStateModel,
    },
    AcceptPrepare {
        state: PlaybackStateModel,
    },
    AdoptPrepare {
        state: PlaybackStateModel,
    },
    PrepareAudio {
        track: TrackModel,
    },
    LoadPrepared {
        track: TrackModel,
    },
    PublishReady {
        session_id: Seq<char>,
    },
    Promote {
        peer: Seq<char>,
    },
    Dialed {
        peer: Seq<char>,
        count: usize,
    },
    FollowRegistration {
        peer: Seq<char>,
        addresses: Seq<Seq<u8>>,
    },
    RegisterNode {
        node: Seq<char>,
    },
    CloseRelays {
        peer: Seq<char>,
    },
    RelaysClosed {
        peer: Seq<char>,
        promoted: bool,
    },
    EarlyClosed {
        peer: Seq<char>,
    },
    CountPeers,
    TriggerSync,
    ScheduleBurst,
    MusicSnapshot,
    DrainSync {
        now: u64,
    },
    HistoryRequested {
        peer: Seq<char>,
    },
    QueueRequested {
        peer: Seq<char>,
    },
}

impl View for Task {
    type V = TaskModel;

    open spec fn view(&self) -> TaskModel {
        match self {
            Task::Perform(effects) => TaskModel::Perform(deep(effects@)),
            Task::Report { done, failed, detail } => TaskModel::Report {
                done: done.deep_view(),
                failed: failed.deep_view(),
                detail: detail@,
            },
            Task::Raise(failure) => TaskModel::Raise(failure@),
            Task::Open { listen, relay, peer } => TaskModel::Open {
                listen: deep(listen@),
                relay: deep(relay@),
                peer: deep(peer@),
            },
            Task::ChatSent { message } => TaskModel::ChatSent {
                message: message@,
            },
            Task::TrackResolved { position } => TaskModel::TrackResolved {
                position: position.deep_view(),
            },
            Task::StartNext => TaskModel::StartNext,
            Task::Supersede { item } => TaskModel::Supersede {
                item: item@,
            },
            Task::Prepare { item, at_micros } => TaskModel::Prepare {
                item: item@,
                at_micros: *at_micros,
            },
            Task::FetchOwn { track } => TaskModel::FetchOwn {
                track: track@,
            },
            Task::OwnFetched { track } => TaskModel::OwnFetched {
                track: track@,
            },
            Task::OwnLoaded => TaskModel::OwnLoaded,
            Task::MaybeStart => TaskModel::MaybeStart,
            Task::StopCurrent { reason } => TaskModel::StopCurrent {
                reason: reason@,
            },
            Task::GoIdle { reason } => TaskModel::GoIdle {
                reason: reason@,
            },
            Task::OpenVote { vote } => TaskModel::OpenVote {
                vote: vote@,
            },
            Task::ResolveVote => TaskModel::ResolveVote,
            Task::ExecuteVote { action } => TaskModel::ExecuteVote {
                action: action@,
            },
            Task::SyncPlayer => TaskModel::SyncPlayer,
            Task::CheckFinished { at_micros, played_ms } => TaskModel::CheckFinished {
                at_micros: *at_micros,
                played_ms: *played_ms,
            },
            Task::ShowPlayback => TaskModel::ShowPlayback,
            Task::ApplyRemote { state } => TaskModel::ApplyRemote {
                state: state@,
            },
            Task::Adopt { state } => TaskModel::Adopt {
                state: state@,
            },
            Task::AcceptPrepare { state } => TaskModel::AcceptPrepare {
                state: state@,
            },
            Task::AdoptPrepare { state } => TaskModel::AdoptPrepare {
                state: state@,
            },
            Task::PrepareAudio { track } => TaskModel::PrepareAudio {
                track: track@,
            },
            Task::LoadPrepared { track } => TaskModel::LoadPrepared {
                track: track@,
            },
            Task::PublishReady { session_id } => TaskModel::PublishReady {
                session_id: session_id@,
            },
            Task::Promote { peer } => TaskModel::Promote {
                peer: peer@,
            },
            Task::Dialed { peer, count } => TaskModel::Dialed {
                peer: peer@,
                count: *count,
            },
            Task::FollowRegistration { peer, addresses } => TaskModel::FollowRegistration {
                peer: peer@,
                addresses: deep(addresses@),
            },
            Task::RegisterNode { node } => TaskModel::RegisterNode {
                node: node@,
            },
            Task::CloseRelays { peer } => TaskModel::CloseRelays {
                peer: peer@,
            },
            Task::RelaysClosed { peer, promoted } => TaskModel::RelaysClosed {
                peer: peer@,
                promoted: *promoted,
            },
            Task::EarlyClosed { peer } => TaskModel::EarlyClosed {
                peer: peer@,
            },
            Task::CountPeers => TaskModel::CountPeers,
            Task::TriggerSync => TaskModel::TriggerSync,
            Task::ScheduleBurst => TaskModel::ScheduleBurst,
            Task::MusicSnapshot => TaskModel::MusicSnapshot,
            Task::DrainSync { now } => TaskModel::DrainSync {
                now: *now,
            },
            Task::HistoryRequested { peer } => TaskModel::HistoryRequested {
                peer: peer@,
            },
            Task::QueueRequested { peer } => TaskModel::QueueRequested {
                peer: peer@,
            },
        }
    }
}

impl DeepView for Task {
    type V = TaskModel;

    open spec fn deep_view(&self) -> TaskModel {
        self@
    }
}

/// An address of a peer.
#[derive(Debug, PartialEq, Eq)]
pub struct PeerAddress {
    pub peer: PeerId,
    pub address: Address,
}

/// The content of [`PeerAddress`].
#[verifier::ext_equal]
pub struct PeerAddressModel {
    pub peer: Seq<char>,
    pub address: Seq<u8>,
}

impl View for PeerAddress {
    type V = PeerAddressModel;

    open spec fn view(&self) -> PeerAddressModel {
        PeerAddressModel {
            peer: self.peer@,
            address: self.address@,
        }
    }
}

impl DeepView for PeerAddress {
    type V = PeerAddressModel;

    open spec fn deep_view(&self) -> PeerAddressModel {
        self@
    }
}

/// What a peer has registered at a rendezvous node.
#[derive(Debug, PartialEq, Eq)]
pub struct Registration {
    pub peer: PeerId,
    pub addresses: Vec<Address>,
}

/// The content of [`Registration`].
#[verifier::ext_equal]
pub struct RegistrationModel {
    pub peer: Seq<char>,
    pub addresses: Seq<Seq<u8>>,
}

impl View for Registration {
    type V = RegistrationModel;

    open spec fn view(&self) -> RegistrationModel {
        RegistrationModel {
            peer: self.peer@,
            addresses: deep(self.addresses@),
        }
    }
}

impl DeepView for Registration {
    type V = RegistrationModel;

    open spec fn deep_view(&self) -> RegistrationModel {
        self@
    }
}

/// Something that happened in the network.
#[allow(inconsistent_fields)]
#[derive(Debug, PartialEq, Eq)]
pub enum NetworkEvent {
    NewListenAddr(Address),
    ExternalAddrConfirmed(Address),
    ExternalAddrExpired(Address),
    ConnectionEstablished {
        peer: PeerId,
        connection: u64,
        relayed: bool,
        remote: Address,
    },
    /// `remaining` is the number of connections to the peer that are left.
    ConnectionClosed {
        peer: PeerId,
        connection: u64,
        relayed: bool,
        remote: Address,
        remaining: u32,
    },
    MdnsDiscovered(Vec<PeerAddress>),
    MdnsExpired(Vec<PeerAddress>),
    NewExternalAddrOfPeer {
        peer: PeerId,
        address: Address,
    },
    Identified {
        peer: PeerId,
        addresses: Vec<Address>,
    },
    IdentifyFailed {
        peer: PeerId,
        error: String,
    },
    Registered {
        node: PeerId,
        namespace: String,
        ttl: u64,
    },
    RegisterFailed {
        node: PeerId,
        namespace: String,
        error: String,
    },
    Discovered {
        node: PeerId,
        registrations: Vec<Registration>,
    },
    DiscoverFailed {
        node: PeerId,
        namespace: Option<String>,
        error: String,
    },
    RegistrationExpired {
        peer: PeerId,
    },
    Subscribed {
        peer: PeerId,
        topic: String,
    },
    Unsubscribed {
        peer: PeerId,
        topic: String,
    },
    GossipsubNotSupported {
        peer: PeerId,
    },
    SlowPeer {
        peer: PeerId,
        failed_messages: String,
    },
    DirectRequest {
        peer: PeerId,
        topic: String,
        message: WireMessage,
    },
    DirectResponse {
        peer: PeerId,
        accepted: bool,
    },
    DirectOutboundFailure {
        peer: PeerId,
        error: String,
    },
    DirectInboundFailure {
        peer: PeerId,
        error: String,
    },
    /// A message to the room. `source` wrote it, `via` passed it on.
    Message {
        via: PeerId,
        source: Option<PeerId>,
        message: WireMessage,
    },
    InvalidMessage {
        error: String,
    },
    Relay {
        event: String,
    },
    DirectUpgradeSucceeded {
        peer: PeerId,
        connection: String,
    },
    DirectUpgradeFailed {
        peer: PeerId,
        error: String,
    },
    OutgoingConnectionError {
        peer: Option<PeerId>,
        error: String,
    },
}

/// The content of [`NetworkEvent`].
#[allow(inconsistent_fields)]
#[verifier::ext_equal]
pub enum NetworkEventModel {
    NewListenAddr(Seq<u8>),
    ExternalAddrConfirmed(Seq<u8>),
    ExternalAddrExpired(Seq<u8>),
    ConnectionEstablished {
        peer: Seq<char>,
        connection: u64,
        relayed: bool,
        remote: Seq<u8>,
    },
    ConnectionClosed {
        peer: Seq<char>,
        connection: u64,
        relayed: bool,
        remote: Seq<u8>,
        remaining: u32,
    },
    MdnsDiscovered(Seq<PeerAddressModel>),
    MdnsExpired(Seq<PeerAddressModel>),
    NewExternalAddrOfPeer {
        peer: Seq<char>,
        address: Seq<u8>,
    },
    Identified {
        peer: Seq<char>,
        addresses: Seq<Seq<u8>>,
    },
    IdentifyFailed {
        peer: Seq<char>,
        error: Seq<char>,
    },
    Registered {
        node: Seq<char>,
        namespace: Seq<char>,
        ttl: u64,
    },
    RegisterFailed {
        node: Seq<char>,
        namespace: Seq<char>,
        error: Seq<char>,
    },
    Discovered {
        node: Seq<char>,
        registrations: Seq<RegistrationModel>,
    },
    DiscoverFailed {
        node: Seq<char>,
        namespace: Option<Seq<char>>,
        error: Seq<char>,
    },
    RegistrationExpired {
        peer: Seq<char>,
    },
    Subscribed {
        peer: Seq<char>,
        topic: Seq<char>,
    },
    Unsubscribed {
        peer: Seq<char>,
        topic: Seq<char>,
    },
    GossipsubNotSupported {
        peer: Seq<char>,
    },
    SlowPeer {
        peer: Seq<char>,
        failed_messages: Seq<char>,
    },
    DirectRequest {
        peer: Seq<char>,
        topic: Seq<char>,
        message: WireMessageModel,
    },
    DirectResponse {
        peer: Seq<char>,
        accepted: bool,
    },
    DirectOutboundFailure {
        peer: Seq<char>,
        error: Seq<char>,
    },
    DirectInboundFailure {
        peer: Seq<char>,
        error: Seq<char>,
    },
    Message {
        via: Seq<char>,
        source: Option<Seq<char>>,
        message: WireMessageModel,
    },
    InvalidMessage {
        error: Seq<char>,
    },
    Relay {
        event: Seq<char>,
    },
    DirectUpgradeSucceeded {
        peer: Seq<char>,
        connection: Seq<char>,
    },
    DirectUpgradeFailed {
        peer: Seq<char>,
        error: Seq<char>,
    },
    OutgoingConnectionError {
        peer: Option<Seq<char>>,
        error: Seq<char>,
    },
}

impl View for NetworkEvent {
    type V = NetworkEventModel;

    open spec fn view(&self) -> NetworkEventModel {
        match self {
            NetworkEvent::NewListenAddr(address) => NetworkEventModel::NewListenAddr(address@),
            NetworkEvent::ExternalAddrConfirmed(address) => NetworkEventModel::ExternalAddrConfirmed(address@),
            NetworkEvent::ExternalAddrExpired(address) => NetworkEventModel::ExternalAddrExpired(address@),
            NetworkEvent::ConnectionEstablished { peer, connection, relayed, remote } => NetworkEventModel::ConnectionEstablished {
                peer: peer@,
                connection: *connection,
                relayed: *relayed,
                remote: remote@,
            },
            NetworkEvent::ConnectionClosed { peer, connection, relayed, remote, remaining } => NetworkEventModel::ConnectionClosed {
                peer: peer@,
                connection: *connection,
                relayed: *relayed,
                remote: remote@,
                remaining: *remaining,
            },
            NetworkEvent::MdnsDiscovered(found) => NetworkEventModel::MdnsDiscovered(deep(found@)),
            NetworkEvent::MdnsExpired(lost) => NetworkEventModel::MdnsExpired(deep(lost@)),
            NetworkEvent::NewExternalAddrOfPeer { peer, address } => NetworkEventModel::NewExternalAddrOfPeer {
                peer: peer@,
                address: address@,
            },
            NetworkEvent::Identified { peer, addresses } => NetworkEventModel::Identified {
                peer: peer@,
                addresses: deep(addresses@),
            },
            NetworkEvent::IdentifyFailed { peer, error } => NetworkEventModel::IdentifyFailed {
                peer: peer@,
                error: error@,
            },
            NetworkEvent::Registered { node, namespace, ttl } => NetworkEventModel::Registered {
                node: node@,
                namespace: namespace@,
                ttl: *ttl,
            },
            NetworkEvent::RegisterFailed { node, namespace, error } => NetworkEventModel::RegisterFailed {
                node: node@,
                namespace: namespace@,
                error: error@,
            },
            NetworkEvent::Discovered { node, registrations } => NetworkEventModel::Discovered {
                node: node@,
                registrations: deep(registrations@),
            },
            NetworkEvent::DiscoverFailed { node, namespace, error } => NetworkEventModel::DiscoverFailed {
                node: node@,
                namespace: namespace.deep_view(),
                error: error@,
            },
            NetworkEvent::RegistrationExpired { peer } => NetworkEventModel::RegistrationExpired {
                peer: peer@,
            },
            NetworkEvent::Subscribed { peer, topic } => NetworkEventModel::Subscribed {
                peer: peer@,
                topic: topic@,
            },
            NetworkEvent::Unsubscribed { peer, topic } => NetworkEventModel::Unsubscribed {
                peer: peer@,
                topic: topic@,
            },
            NetworkEvent::GossipsubNotSupported { peer } => NetworkEventModel::GossipsubNotSupported {
                peer: peer@,
            },
            NetworkEvent::SlowPeer { peer, failed_messages } => NetworkEventModel::SlowPeer {
                peer: peer@,
                failed_messages: failed_messages@,
            },
            NetworkEvent::DirectRequest { peer, topic, message } => NetworkEventModel::DirectRequest {
                peer: peer@,
                topic: topic@,
                message: message@,
            },
            NetworkEvent::DirectResponse { peer, accepted } => NetworkEventModel::DirectResponse {
                peer: peer@,
                accepted: *accepted,
            },
            NetworkEvent::DirectOutboundFailure { peer, error } => NetworkEventModel::DirectOutboundFailure {
                peer: peer@,
                error: error@,
            },
            NetworkEvent::DirectInboundFailure { peer, error } => NetworkEventModel::DirectInboundFailure {
                peer: peer@,
                error: error@,
            },
            NetworkEvent::Message { via, source, message } => NetworkEventModel::Message {
                via: via@,
                source: source.deep_view(),
                message: message@,
            },
            NetworkEvent::InvalidMessage { error } => NetworkEventModel::InvalidMessage {
                error: error@,
            },
            NetworkEvent::Relay { event } => NetworkEventModel::Relay {
                event: event@,
            },
            NetworkEvent::DirectUpgradeSucceeded { peer, connection } => NetworkEventModel::DirectUpgradeSucceeded {
                peer: peer@,
                connection: connection@,
            },
            NetworkEvent::DirectUpgradeFailed { peer, error } => NetworkEventModel::DirectUpgradeFailed {
                peer: peer@,
                error: error@,
            },
            NetworkEvent::OutgoingConnectionError { peer, error } => NetworkEventModel::OutgoingConnectionError {
                peer: peer.deep_view(),
                error: error@,
            },
        }
    }
}

impl DeepView for NetworkEvent {
    type V = NetworkEventModel;

    open spec fn deep_view(&self) -> NetworkEventModel {
        self@
    }
}

/// A clock of the session has ticked.
#[derive(Debug, PartialEq, Eq, Clone, Copy)]
pub enum Tick {
    /// Local playback and votes.
    Music,
    /// The summaries.
    HistorySync,
    /// The summaries that are due soon after peers have met.
    HistoryBurst,
    /// The playback state of the leader.
    MusicSync,
    /// Direct connections.
    Promotion,
    /// Peers that have had their time to subscribe.
    Warmup,
    /// Registration at the rendezvous nodes.
    Register,
    /// Discovery at the rendezvous nodes.
    Discover,
}

/// What a session sees of its surroundings at one moment.
#[derive(Debug, PartialEq, Eq)]
pub struct World {
    pub now: Moment,
    /// What was played since the anchor time of the playback that the session goes by next, in
    /// milliseconds.
    pub played_ms: u64,
    /// The peers that are connected.
    pub connected: Vec<String>,
    /// An address at which others can reach this peer is confirmed.
    pub external_address: bool,
    /// What the player is doing at the time for which the session asks next, if there is a player.
    pub player: Option<PlayerStatus>,
}

/// The content of [`World`].
#[verifier::ext_equal]
pub struct WorldModel {
    pub now: Moment,
    pub played_ms: u64,
    pub connected: Seq<Seq<char>>,
    pub external_address: bool,
    pub player: Option<PlayerStatusModel>,
}

impl View for World {
    type V = WorldModel;

    open spec fn view(&self) -> WorldModel {
        WorldModel {
            now: self.now,
            played_ms: self.played_ms,
            connected: deep(self.connected@),
            external_address: self.external_address,
            player: self.player.deep_view(),
        }
    }
}

impl World {
    /// Deadlines and peers can be counted.
    pub open spec fn in_range(self) -> bool {
        self.now.in_range() && self.connected@.len() < usize::MAX
    }
}

/// What came of handing a message to the network.
#[derive(Debug, PartialEq, Eq)]
pub enum PublishReport {
    Accepted,
    Duplicate,
    NoPeersSubscribed,
    Rejected(Failure),
}

/// Publishing succeeds even if the message is known already or nobody follows the room.
pub fn publish_history_wire(report: PublishReport) -> (outcome: Outcome)
    ensures
        outcome@ == match report {
            PublishReport::Rejected(failure) => OutcomeModel::Failed(failure@),
            _ => OutcomeModel::Done,
        },
{
    match report {
        PublishReport::Rejected(failure) => Outcome::Failed(failure),
        _ => Outcome::Done,
    }
}

/// Publishing a chat message succeeds even if it is known already. That nobody follows the room
/// is worth knowing.
pub fn publish_chat_wire(report: PublishReport) -> (outcome: Outcome)
    ensures
        outcome@ == match report {
            PublishReport::Rejected(failure) => OutcomeModel::Failed(failure@),
            PublishReport::NoPeersSubscribed => OutcomeModel::NoSubscribers,
            _ => OutcomeModel::Done,
        },
{
    match report {
        PublishReport::Rejected(failure) => Outcome::Failed(failure),
        PublishReport::NoPeersSubscribed => Outcome::NoSubscribers,
        _ => Outcome::Done,
    }
}

} // verus!
