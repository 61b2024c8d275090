//! What the peers of a room exchange and show.
use crate::collections::{copy_all, deep};
use vstd::prelude::*;

verus! {

/// A piece of music that can be played.
#[derive(Debug, PartialEq, Eq)]
pub struct Track {
    /// Identifies the track at its source.
    pub track_id: String,
    pub title: String,
    pub duration_ms: u64,
}

/// The content of [`Track`].
#[verifier::ext_equal]
pub struct TrackModel {
    pub track_id: Seq<char>,
    pub title: Seq<char>,
    pub duration_ms: u64,
}

impl View for Track {
    type V = TrackModel;

    open spec fn view(&self) -> TrackModel {
        TrackModel {
            track_id: self.track_id@,
            title: self.title@,
            duration_ms: self.duration_ms,
        }
    }
}

impl DeepView for Track {
    type V = TrackModel;

    open spec fn deep_view(&self) -> TrackModel {
        self@
    }
}

impl Clone for Track {
    fn clone(&self) -> (copy: Self)
        ensures
            copy@ == self@,
    {
        Track {
            track_id: self.track_id.clone(),
            title: self.title.clone(),
            duration_ms: self.duration_ms,
        }
    }
}

/// A message in the chat history.
#[derive(Debug, PartialEq, Eq)]
pub struct ChatRecord {
    /// Identifies the message among all messages.
    pub id: String,
    /// The peer that wrote it.
    pub peer_id: String,
    /// When that peer joined, if it said so.
    pub joined_at: Option<i64>,
    /// The name under which it was written.
    pub author: String,
    pub text: String,
    /// When it was sent, in seconds, milliseconds or microseconds.
    pub sent_at: i64,
}

/// The content of [`ChatRecord`].
#[verifier::ext_equal]
pub struct ChatRecordModel {
    pub id: Seq<char>,
    pub peer_id: Seq<char>,
    pub joined_at: Option<i64>,
    pub author: Seq<char>,
    pub text: Seq<char>,
    pub sent_at: i64,
}

impl View for ChatRecord {
    type V = ChatRecordModel;

    open spec fn view(&self) -> ChatRecordModel {
        ChatRecordModel {
            id: self.id@,
            peer_id: self.peer_id@,
            joined_at: self.joined_at.deep_view(),
            author: self.author@,
            text: self.text@,
            sent_at: self.sent_at,
        }
    }
}

impl DeepView for ChatRecord {
    type V = ChatRecordModel;

    open spec fn deep_view(&self) -> ChatRecordModel {
        self@
    }
}

impl Clone for ChatRecord {
    fn clone(&self) -> (copy: Self)
        ensures
            copy@ == self@,
    {
        ChatRecord {
            id: self.id.clone(),
            peer_id: self.peer_id.clone(),
            joined_at: self.joined_at,
            author: self.author.clone(),
            text: self.text.clone(),
            sent_at: self.sent_at,
        }
    }
}

/// The name that a peer goes by.
#[derive(Debug, PartialEq, Eq)]
pub struct PeerNameClaim {
    pub name: String,
    /// When the peer joined, if it said so.
    pub joined_at: Option<i64>,
}

/// The content of [`PeerNameClaim`].
#[verifier::ext_equal]
pub struct PeerNameClaimModel {
    pub name: Seq<char>,
    pub joined_at: Option<i64>,
}

impl View for PeerNameClaim {
    type V = PeerNameClaimModel;

    open spec fn view(&self) -> PeerNameClaimModel {
        PeerNameClaimModel {
            name: self.name@,
            joined_at: self.joined_at.deep_view(),
        }
    }
}

impl DeepView for PeerNameClaim {
    type V = PeerNameClaimModel;

    open spec fn deep_view(&self) -> PeerNameClaimModel {
        self@
    }
}

impl Clone for PeerNameClaim {
    fn clone(&self) -> (copy: Self)
        ensures
            copy@ == self@,
    {
        PeerNameClaim {
            name: self.name.clone(),
            joined_at: self.joined_at,
        }
    }
}

/// A track waiting to be played.
#[derive(Debug, PartialEq, Eq)]
pub struct QueueItem {
    /// Identifies the item in the queue.
    pub item_id: String,
    pub track: Track,
    /// The peer that asked for it.
    pub requested_by: String,
    pub added_at_micros: i64,
}

/// The content of [`QueueItem`].
#[verifier::ext_equal]
pub struct QueueItemModel {
    pub item_id: Seq<char>,
    pub track: TrackModel,
    pub requested_by: Seq<char>,
    pub added_at_micros: i64,
}

impl View for QueueItem {
    type V = QueueItemModel;

    open spec fn view(&self) -> QueueItemModel {
        QueueItemModel {
            item_id: self.item_id@,
            track: self.track@,
            requested_by: self.requested_by@,
            added_at_micros: self.added_at_micros,
        }
    }
}

impl DeepView for QueueItem {
    type V = QueueItemModel;

    open spec fn deep_view(&self) -> QueueItemModel {
        self@
    }
}

impl Clone for QueueItem {
    fn clone(&self) -> (copy: Self)
        ensures
            copy@ == self@,
    {
        QueueItem {
            item_id: self.item_id.clone(),
            track: self.track.clone(),
            requested_by: self.requested_by.clone(),
            added_at_micros: self.added_at_micros,
        }
    }
}

/// A version of the queue, as it is sent to peers and shown.
#[derive(Debug, PartialEq, Eq)]
pub struct QueueState {
    pub version: u64,
    pub updated_at_micros: i64,
    pub updated_by: String,
    pub items: Vec<QueueItem>,
}

/// The content of [`QueueState`].
#[verifier::ext_equal]
pub struct QueueStateModel {
    pub version: u64,
    pub updated_at_micros: i64,
    pub updated_by: Seq<char>,
    pub items: Seq<QueueItemModel>,
}

impl View for QueueState {
    type V = QueueStateModel;

    open spec fn view(&self) -> QueueStateModel {
        QueueStateModel {
            version: self.version,
            updated_at_micros: self.updated_at_micros,
            updated_by: self.updated_by@,
            items: deep(self.items@),
        }
    }
}

impl DeepView for QueueState {
    type V = QueueStateModel;

    open spec fn deep_view(&self) -> QueueStateModel {
        self@
    }
}

impl Clone for QueueState {
    fn clone(&self) -> (copy: Self)
        ensures
            copy@ == self@,
    {
        QueueState {
            version: self.version,
            updated_at_micros: self.updated_at_micros,
            updated_by: self.updated_by.clone(),
            items: copy_all(&self.items),
        }
    }
}

/// What is played, by whom it is led, and where it stands.
#[derive(Debug, PartialEq, Eq)]
pub struct PlaybackState {
    pub session_id: String,
    pub leader_peer_id: String,
    /// Nothing is played without a track.
    pub track: Option<Track>,
    /// The peer that may control the track.
    pub track_requested_by: Option<String>,
    pub state_version: u64,
    pub issued_at_micros: i64,
    pub playing: bool,
    /// The position at the anchor time.
    pub position_ms: u64,
    pub anchor_time_micros: i64,
    /// The speed, as the bits of a single-precision number.
    pub rate_bits: u32,
}

/// The content of [`PlaybackState`].
#[verifier::ext_equal]
pub struct PlaybackStateModel {
    pub session_id: Seq<char>,
    pub leader_peer_id: Seq<char>,
    pub track: Option<TrackModel>,
    pub track_requested_by: Option<Seq<char>>,
    pub state_version: u64,
    pub issued_at_micros: i64,
    pub playing: bool,
    pub position_ms: u64,
    pub anchor_time_micros: i64,
    pub rate_bits: u32,
}

impl View for PlaybackState {
    type V = PlaybackStateModel;

    open spec fn view(&self) -> PlaybackStateModel {
        PlaybackStateModel {
            session_id: self.session_id@,
            leader_peer_id: self.leader_peer_id@,
            track: self.track.deep_view(),
            track_requested_by: self.track_requested_by.deep_view(),
            state_version: self.state_version,
            issued_at_micros: self.issued_at_micros,
            playing: self.playing,
            position_ms: self.position_ms,
            anchor_time_micros: self.anchor_time_micros,
            rate_bits: self.rate_bits,
        }
    }
}

impl DeepView for PlaybackState {
    type V = PlaybackStateModel;

    open spec fn deep_view(&self) -> PlaybackStateModel {
        self@
    }
}

impl Clone for PlaybackState {
    fn clone(&self) -> (copy: Self)
        ensures
            copy@ == self@,
    {
        PlaybackState {
            session_id: self.session_id.clone(),
            leader_peer_id: self.leader_peer_id.clone(),
            track: self.track.clone(),
            track_requested_by: self.track_requested_by.clone(),
            state_version: self.state_version,
            issued_at_micros: self.issued_at_micros,
            playing: self.playing,
            position_ms: self.position_ms,
            anchor_time_micros: self.anchor_time_micros,
            rate_bits: self.rate_bits,
        }
    }
}

/// What a vote is about.
#[derive(Debug, PartialEq, Eq)]
pub enum VoteAction {
    Pause,
    Resume,
    Skip,
    Seek {
        position_ms: u64,
    },
    Remove {
        item_id: String,
    },
    Move {
        item_id: String,
        to_index: usize,
    },
}

/// The content of [`VoteAction`].
#[verifier::ext_equal]
pub enum VoteActionModel {
    Pause,
    Resume,
    Skip,
    Seek {
        position_ms: u64,
    },
    Remove {
        item_id: Seq<char>,
    },
    Move {
        item_id: Seq<char>,
        to_index: usize,
    },
}

impl View for VoteAction {
    type V = VoteActionModel;

    open spec fn view(&self) -> VoteActionModel {
        match self {
            VoteAction::Pause => VoteActionModel::Pause,
            VoteAction::Resume => VoteActionModel::Resume,
            VoteAction::Skip => VoteActionModel::Skip,
            VoteAction::Seek { position_ms } => VoteActionModel::Seek {
                position_ms: *position_ms,
            },
            VoteAction::Remove { item_id } => VoteActionModel::Remove {
                item_id: item_id@,
            },
            VoteAction::Move { item_id, to_index } => VoteActionModel::Move {
                item_id: item_id@,
                to_index: *to_index,
            },
        }
    }
}

impl DeepView for VoteAction {
    type V = VoteActionModel;

    open spec fn deep_view(&self) -> VoteActionModel {
        self@
    }
}

impl Clone for VoteAction {
    fn clone(&self) -> (copy: Self)
        ensures
            copy@ == self@,
    {
        match self {
            VoteAction::Pause => VoteAction::Pause,
            VoteAction::Resume => VoteAction::Resume,
            VoteAction::Skip => VoteAction::Skip,
            VoteAction::Seek { position_ms } => VoteAction::Seek {
                position_ms: *position_ms,
            },
            VoteAction::Remove { item_id } => VoteAction::Remove {
                item_id: item_id.clone(),
            },
            VoteAction::Move { item_id, to_index } => VoteAction::Move {
                item_id: item_id.clone(),
                to_index: *to_index,
            },
        }
    }
}

/// A proposal that the peers vote on.
#[derive(Debug, PartialEq, Eq)]
pub struct VoteProposal {
    pub vote_id: String,
    pub proposer: String,
    pub action: VoteAction,
    /// The version of the queue at the proposal.
    pub queue_version: u64,
    /// The playback session at the proposal.
    pub playback_session_id: Option<String>,
    pub created_at_micros: i64,
}

/// The content of [`VoteProposal`].
#[verifier::ext_equal]
pub struct VoteProposalModel {
    pub vote_id: Seq<char>,
    pub proposer: Seq<char>,
    pub action: VoteActionModel,
    pub queue_version: u64,
    pub playback_session_id: Option<Seq<char>>,
    pub created_at_micros: i64,
}

impl View for VoteProposal {
    type V = VoteProposalModel;

    open spec fn view(&self) -> VoteProposalModel {
        VoteProposalModel {
            vote_id: self.vote_id@,
            proposer: self.proposer@,
            action: self.action@,
            queue_version: self.queue_version,
            playback_session_id: self.playback_session_id.deep_view(),
            created_at_micros: self.created_at_micros,
        }
    }
}

impl DeepView for VoteProposal {
    type V = VoteProposalModel;

    open spec fn deep_view(&self) -> VoteProposalModel {
        self@
    }
}

impl Clone for VoteProposal {
    fn clone(&self) -> (copy: Self)
        ensures
            copy@ == self@,
    {
        VoteProposal {
            vote_id: self.vote_id.clone(),
            proposer: self.proposer.clone(),
            action: self.action.clone(),
            queue_version: self.queue_version,
            playback_session_id: self.playback_session_id.clone(),
            created_at_micros: self.created_at_micros,
        }
    }
}

/// What is shown of the playback.
#[derive(Debug, PartialEq, Eq)]
pub struct PlaybackView {
    pub title: String,
    pub playing: bool,
    pub position_ms: u64,
    pub duration_ms: u64,
    pub leader_peer_id: String,
}

/// The content of [`PlaybackView`].
#[verifier::ext_equal]
pub struct PlaybackViewModel {
    pub title: Seq<char>,
    pub playing: bool,
    pub position_ms: u64,
    pub duration_ms: u64,
    pub leader_peer_id: Seq<char>,
}

impl View for PlaybackView {
    type V = PlaybackViewModel;

    open spec fn view(&self) -> PlaybackViewModel {
        PlaybackViewModel {
            title: self.title@,
            playing: self.playing,
            position_ms: self.position_ms,
            duration_ms: self.duration_ms,
            leader_peer_id: self.leader_peer_id@,
        }
    }
}

impl DeepView for PlaybackView {
    type V = PlaybackViewModel;

    open spec fn deep_view(&self) -> PlaybackViewModel {
        self@
    }
}

impl Clone for PlaybackView {
    fn clone(&self) -> (copy: Self)
        ensures
            copy@ == self@,
    {
        PlaybackView {
            title: self.title.clone(),
            playing: self.playing,
            position_ms: self.position_ms,
            duration_ms: self.duration_ms,
            leader_peer_id: self.leader_peer_id.clone(),
        }
    }
}

/// What is shown of a vote.
#[derive(Debug, PartialEq, Eq)]
pub struct VoteView {
    pub vote_id: String,
    pub proposer: String,
    pub action_label: String,
    pub approvals: usize,
    pub rejections: usize,
    pub threshold: usize,
}

/// The content of [`VoteView`].
#[verifier::ext_equal]
pub struct VoteViewModel {
    pub vote_id: Seq<char>,
    pub proposer: Seq<char>,
    pub action_label: Seq<char>,
    pub approvals: usize,
    pub rejections: usize,
    pub threshold: usize,
}

impl View for VoteView {
    type V = VoteViewModel;

    open spec fn view(&self) -> VoteViewModel {
        VoteViewModel {
            vote_id: self.vote_id@,
            proposer: self.proposer@,
            action_label: self.action_label@,
            approvals: self.approvals,
            rejections: self.rejections,
            threshold: self.threshold,
        }
    }
}

impl DeepView for VoteView {
    type V = VoteViewModel;

    open spec fn deep_view(&self) -> VoteViewModel {
        self@
    }
}

impl Clone for VoteView {
    fn clone(&self) -> (copy: Self)
        ensures
            copy@ == self@,
    {
        VoteView {
            vote_id: self.vote_id.clone(),
            proposer: self.proposer.clone(),
            action_label: self.action_label.clone(),
            approvals: self.approvals,
            rejections: self.rejections,
            threshold: self.threshold,
        }
    }
}

/// What the user is shown.
#[derive(Debug, PartialEq, Eq)]
pub enum UiEvent {
    LocalPeerId(String),
    Status(String),
    PeerCount(usize),
    History(Vec<ChatRecord>),
    Queue(QueueState),
    Vote(Option<VoteView>),
    Playback(Option<PlaybackView>),
}

/// The content of [`UiEvent`].
#[verifier::ext_equal]
pub enum UiEventModel {
    LocalPeerId(Seq<char>),
    Status(Seq<char>),
    PeerCount(usize),
    History(Seq<ChatRecordModel>),
    Queue(QueueStateModel),
    Vote(Option<VoteViewModel>),
    Playback(Option<PlaybackViewModel>),
}

impl View for UiEvent {
    type V = UiEventModel;

    open spec fn view(&self) -> UiEventModel {
        match self {
            UiEvent::LocalPeerId(peer_id) => UiEventModel::LocalPeerId(peer_id@),
            UiEvent::Status(text) => UiEventModel::Status(text@),
            UiEvent::PeerCount(count) => UiEventModel::PeerCount(*count),
            UiEvent::History(records) => UiEventModel::History(deep(records@)),
            UiEvent::Queue(state) => UiEventModel::Queue(state@),
            UiEvent::Vote(vote) => UiEventModel::Vote(vote.deep_view()),
            UiEvent::Playback(playback) => UiEventModel::Playback(playback.deep_view()),
        }
    }
}

impl DeepView for UiEvent {
    type V = UiEventModel;

    open spec fn deep_view(&self) -> UiEventModel {
        self@
    }
}

impl Clone for UiEvent {
    fn clone(&self) -> (copy: Self)
        ensures
            copy@ == self@,
    {
        match self {
            UiEvent::LocalPeerId(peer_id) => UiEvent::LocalPeerId(peer_id.clone()),
            UiEvent::Status(text) => UiEvent::Status(text.clone()),
            UiEvent::PeerCount(count) => UiEvent::PeerCount(*count),
            UiEvent::History(records) => UiEvent::History(copy_all(records)),
            UiEvent::Queue(state) => UiEvent::Queue(state.clone()),
            UiEvent::Vote(vote) => UiEvent::Vote(vote.clone()),
            UiEvent::Playback(playback) => UiEvent::Playback(playback.clone()),
        }
    }
}

/// What the user asks for.
#[derive(Debug, PartialEq, Eq)]
pub enum NetworkCommand {
    Chat(String),
    /// Queues a part of a video, at a position counted from one, else at the end.
    EnqueueBilibili {
        bvid: String,
        part: usize,
        position: Option<usize>,
    },
    ShowQueue,
    Pause,
    Resume,
    Seek(u64),
    Skip,
    /// Removes the item at a position counted from one.
    RemoveQueueItem(usize),
    /// Moves an item between positions counted from one.
    MoveQueueItem {
        from: usize,
        to: usize,
    },
    Vote(bool),
}

/// The content of [`NetworkCommand`].
#[verifier::ext_equal]
pub enum NetworkCommandModel {
    Chat(Seq<char>),
    EnqueueBilibili {
        bvid: Seq<char>,
        part: usize,
        position: Option<usize>,
    },
    ShowQueue,
    Pause,
    Resume,
    Seek(u64),
    Skip,
    RemoveQueueItem(usize),
    MoveQueueItem {
        from: usize,
        to: usize,
    },
    Vote(bool),
}

impl View for NetworkCommand {
    type V = NetworkCommandModel;

    open spec fn view(&self) -> NetworkCommandModel {
        match self {
            NetworkCommand::Chat(text) => NetworkCommandModel::Chat(text@),
            NetworkCommand::EnqueueBilibili { bvid, part, position } => NetworkCommandModel::EnqueueBilibili {
                bvid: bvid@,
                part: *part,
                position: position.deep_view(),
            },
            NetworkCommand::ShowQueue => NetworkCommandModel::ShowQueue,
            NetworkCommand::Pause => NetworkCommandModel::Pause,
            NetworkCommand::Resume => NetworkCommandModel::Resume,
            NetworkCommand::Seek(position_ms) => NetworkCommandModel::Seek(*position_ms),
            NetworkCommand::Skip => NetworkCommandModel::Skip,
            NetworkCommand::RemoveQueueItem(index) => NetworkCommandModel::RemoveQueueItem(*index),
            NetworkCommand::MoveQueueItem { from, to } => NetworkCommandModel::MoveQueueItem {
                from: *from,
                to: *to,
            },
            NetworkCommand::Vote(approve) => NetworkCommandModel::Vote(*approve),
        }
    }
}

impl DeepView for NetworkCommand {
    type V = NetworkCommandModel;

    open spec fn deep_view(&self) -> NetworkCommandModel {
        self@
    }
}

/// A message between peers. The nonce that every message but a chat message carries on the wire
/// is made when it is sent.
#[allow(inconsistent_fields)]
#[derive(Debug, PartialEq, Eq)]
pub enum WireMessage {
    Chat {
        id: Option<String>,
        peer_id: String,
        joined_at: Option<i64>,
        name: String,
        text: String,
        sent_at: i64,
    },
    NameClaim {
        peer_id: String,
        name: String,
        joined_at: Option<i64>,
    },
    HistorySummary {
        peer_id: String,
        count: usize,
        newest_at: Option<i64>,
    },
    HistoryRequest {
        requester: String,
        target: String,
        known_count: usize,
    },
    HistoryResponse {
        target: Option<String>,
        messages: Vec<ChatRecord>,
    },
    QueueSummary {
        peer_id: String,
        version: u64,
        updated_at_micros: i64,
        item_count: usize,
    },
    QueueRequest {
        requester: String,
        target: String,
        known_version: u64,
        known_updated_at_micros: i64,
    },
    QueueResponse {
        target: String,
        state: QueueState,
    },
    PlaybackState {
        state: PlaybackState,
    },
    PlaybackPrepare {
        state: PlaybackState,
        expected_peers: Vec<String>,
    },
    PlaybackReady {
        session_id: String,
        peer_id: String,
    },
    PlaybackCancel {
        session_id: String,
        leader_peer_id: String,
        reason: String,
    },
    QueueState {
        state: QueueState,
    },
    VoteProposal {
        proposal: VoteProposal,
    },
    VoteBallot {
        vote_id: String,
        peer_id: String,
        approve: bool,
    },
}

/// The content of [`WireMessage`].
#[allow(inconsistent_fields)]
#[verifier::ext_equal]
pub enum WireMessageModel {
    Chat {
        id: Option<Seq<char>>,
        peer_id: Seq<char>,
        joined_at: Option<i64>,
        name: Seq<char>,
        text: Seq<char>,
        sent_at: i64,
    },
    NameClaim {
        peer_id: Seq<char>,
        name: Seq<char>,
        joined_at: Option<i64>,
    },
    HistorySummary {
        peer_id: Seq<char>,
        count: usize,
        newest_at: Option<i64>,
    },
    HistoryRequest {
        requester: Seq<char>,
        target: Seq<char>,
        known_count: usize,
    },
    HistoryResponse {
        target: Option<Seq<char>>,
        messages: Seq<ChatRecordModel>,
    },
    QueueSummary {
        peer_id: Seq<char>,
        version: u64,
        updated_at_micros: i64,
        item_count: usize,
    },
    QueueRequest {
        requester: Seq<char>,
        target: Seq<char>,
        known_version: u64,
        known_updated_at_micros: i64,
    },
    QueueResponse {
        target: Seq<char>,
        state: QueueStateModel,
    },
    PlaybackState {
        state: PlaybackStateModel,
    },
    PlaybackPrepare {
        state: PlaybackStateModel,
        expected_peers: Seq<Seq<char>>,
    },
    PlaybackReady {
        session_id: Seq<char>,
        peer_id: Seq<char>,
    },
    PlaybackCancel {
        session_id: Seq<char>,
        leader_peer_id: Seq<char>,
        reason: Seq<char>,
    },
    QueueState {
        state: QueueStateModel,
    },
    VoteProposal {
        proposal: VoteProposalModel,
    },
    VoteBallot {
        vote_id: Seq<char>,
        peer_id: Seq<char>,
        approve: bool,
    },
}

impl View for WireMessage {
    type V = WireMessageModel;

    open spec fn view(&self) -> WireMessageModel {
        match self {
            WireMessage::Chat { id, peer_id, joined_at, name, text, sent_at } => WireMessageModel::Chat {
                id: id.deep_view(),
                peer_id: peer_id@,
                joined_at: joined_at.deep_view(),
                name: name@,
                text: text@,
                sent_at: *sent_at,
            },
            WireMessage::NameClaim { peer_id, name, joined_at } => WireMessageModel::NameClaim {
                peer_id: peer_id@,
                name: name@,
                joined_at: joined_at.deep_view(),
            },
            WireMessage::HistorySummary { peer_id, count, newest_at } => WireMessageModel::HistorySummary {
                peer_id: peer_id@,
                count: *count,
                newest_at: newest_at.deep_view(),
            },
            WireMessage::HistoryRequest { requester, target, known_count } => WireMessageModel::HistoryRequest {
                requester: requester@,
                target: target@,
                known_count: *known_count,
            },
            WireMessage::HistoryResponse { target, messages } => WireMessageModel::HistoryResponse {
                target: target.deep_view(),
                messages: deep(messages@),
            },
            WireMessage::QueueSummary { peer_id, version, updated_at_micros, item_count } => WireMessageModel::QueueSummary {
                peer_id: peer_id@,
                version: *version,
                updated_at_micros: *updated_at_micros,
                item_count: *item_count,
            },
            WireMessage::QueueRequest { requester, target, known_version, known_updated_at_micros } => WireMessageModel::QueueRequest {
                requester: requester@,
                target: target@,
                known_version: *known_version,
                known_updated_at_micros: *known_updated_at_micros,
            },
            WireMessage::QueueResponse { target, state } => WireMessageModel::QueueResponse {
                target: target@,
                state: state@,
            },
            WireMessage::PlaybackState { state } => WireMessageModel::PlaybackState {
                state: state@,
            },
            WireMessage::PlaybackPrepare { state, expected_peers } => WireMessageModel::PlaybackPrepare {
                state: state@,
                expected_peers: deep(expected_peers@),
            },
            WireMessage::PlaybackReady { session_id, peer_id } => WireMessageModel::PlaybackReady {
                session_id: session_id@,
                peer_id: peer_id@,
            },
            WireMessage::PlaybackCancel { session_id, leader_peer_id, reason } => WireMessageModel::PlaybackCancel {
                session_id: session_id@,
                leader_peer_id: leader_peer_id@,
                reason: reason@,
            },
            WireMessage::QueueState { state } => WireMessageModel::QueueState {
                state: state@,
            },
            WireMessage::VoteProposal { proposal } => WireMessageModel::VoteProposal {
                proposal: proposal@,
            },
            WireMessage::VoteBallot { vote_id, peer_id, approve } => WireMessageModel::VoteBallot {
                vote_id: vote_id@,
                peer_id: peer_id@,
                approve: *approve,
            },
        }
    }
}

impl DeepView for WireMessage {
    type V = WireMessageModel;

    open spec fn deep_view(&self) -> WireMessageModel {
        self@
    }
}

impl Clone for WireMessage {
    fn clone(&self) -> (copy: Self)
        ensures
            copy@ == self@,
    {
        match self {
            WireMessage::Chat { id, peer_id, joined_at, name, text, sent_at } => WireMessage::Chat {
                id: id.clone(),
                peer_id: peer_id.clone(),
                joined_at: *joined_at,
                name: name.clone(),
                text: text.clone(),
                sent_at: *sent_at,
            },
            WireMessage::NameClaim { peer_id, name, joined_at } => WireMessage::NameClaim {
                peer_id: peer_id.clone(),
                name: name.clone(),
                joined_at: *joined_at,
            },
            WireMessage::HistorySummary { peer_id, count, newest_at } => WireMessage::HistorySummary {
                peer_id: peer_id.clone(),
                count: *count,
                newest_at: *newest_at,
            },
            WireMessage::HistoryRequest { requester, target, known_count } => WireMessage::HistoryRequest {
                requester: requester.clone(),
                target: target.clone(),
                known_count: *known_count,
            },
            WireMessage::HistoryResponse { target, messages } => WireMessage::HistoryResponse {
                target: target.clone(),
                messages: copy_all(messages),
            },
            WireMessage::QueueSummary { peer_id, version, updated_at_micros, item_count } => WireMessage::QueueSummary {
                peer_id: peer_id.clone(),
                version: *version,
                updated_at_micros: *updated_at_micros,
                item_count: *item_count,
            },
            WireMessage::QueueRequest { requester, target, known_version, known_updated_at_micros } => WireMessage::QueueRequest {
                requester: requester.clone(),
                target: target.clone(),
                known_version: *known_version,
                known_updated_at_micros: *known_updated_at_micros,
            },
            WireMessage::QueueResponse { target, state } => WireMessage::QueueResponse {
                target: target.clone(),
                state: state.clone(),
            },
            WireMessage::PlaybackState { state } => WireMessage::PlaybackState {
                state: state.clone(),
            },
            WireMessage::PlaybackPrepare { state, expected_peers } => WireMessage::PlaybackPrepare {
                state: state.clone(),
                expected_peers: copy_all(expected_peers),
            },
            WireMessage::PlaybackReady { session_id, peer_id } => WireMessage::PlaybackReady {
                session_id: session_id.clone(),
                peer_id: peer_id.clone(),
            },
            WireMessage::PlaybackCancel { session_id, leader_peer_id, reason } => WireMessage::PlaybackCancel {
                session_id: session_id.clone(),
                leader_peer_id: leader_peer_id.clone(),
                reason: reason.clone(),
            },
            WireMessage::QueueState { state } => WireMessage::QueueState {
                state: state.clone(),
            },
            WireMessage::VoteProposal { proposal } => WireMessage::VoteProposal {
                proposal: proposal.clone(),
            },
            WireMessage::VoteBallot { vote_id, peer_id, approve } => WireMessage::VoteBallot {
                vote_id: vote_id.clone(),
                peer_id: peer_id.clone(),
                approve: *approve,
            },
        }
    }
}

} // verus!
