//! The events that the engine raises for the host, and the values they carry.
//!
//! Each value holds exactly what the bridge reads of it. The numbers by which
//! the host tells the cases of an enumeration apart are given by its `code`
//! or `ordinal` function.

use vstd::prelude::*;
use crate::http::Request;
use crate::jtypes::IceCandidate;

verus! {

/// Identifies one device of a user.
pub type DeviceId = u32;

/// Identifies one remote participant's media within a group call.
pub type DemuxId = u32;

/// Identifies one group-call client of an endpoint.
pub type ClientId = u32;

/// A peer as the application names it.
pub type PeerId = String;

/// An opaque user identifier.
pub type UserId = Vec<u8>;

/// An opaque group identifier.
pub type GroupId = Vec<u8>;

/// One audio level sample.
pub type AudioLevel = u16;

/// Identifies one call.
#[derive(Clone, Copy, Debug, PartialEq, Eq, Structural)]
pub struct CallId {
    pub id: u64,
}

impl CallId {
    pub fn new(id: u64) -> (call_id: Self)
        ensures
            call_id.id == id,
    {
        CallId { id }
    }

    pub fn as_u64(&self) -> (id: u64)
        ensures
            id == self.id,
    {
        self.id
    }
}

/// Whether a call carries audio only or video too.
#[derive(Clone, Copy, Debug, PartialEq, Eq, Structural)]
pub enum CallMediaType {
    Audio,
    Video,
}

impl CallMediaType {
    pub open spec fn spec_code(self) -> i32 {
        match self {
            CallMediaType::Audio => 0i32,
            CallMediaType::Video => 1i32,
        }
    }

    /// The number that names the media type to the host.
    pub fn code(&self) -> (code: i32)
        ensures
            code == self.spec_code(),
    {
        match self {
            CallMediaType::Audio => 0,
            CallMediaType::Video => 1,
        }
    }
}

/// The kinds of hangup.
#[derive(Clone, Copy, Debug, PartialEq, Eq, Structural)]
pub enum HangupType {
    Normal,
    AcceptedOnAnotherDevice,
    DeclinedOnAnotherDevice,
    BusyOnAnotherDevice,
    NeedPermission,
}

impl HangupType {
    pub open spec fn spec_code(self) -> i32 {
        match self {
            HangupType::Normal => 0i32,
            HangupType::AcceptedOnAnotherDevice => 1i32,
            HangupType::DeclinedOnAnotherDevice => 2i32,
            HangupType::BusyOnAnotherDevice => 3i32,
            HangupType::NeedPermission => 4i32,
        }
    }

    /// The number that names the kind of hangup to the host.
    pub fn code(&self) -> (code: i32)
        ensures
            code == self.spec_code(),
    {
        match self {
            HangupType::Normal => 0,
            HangupType::AcceptedOnAnotherDevice => 1,
            HangupType::DeclinedOnAnotherDevice => 2,
            HangupType::BusyOnAnotherDevice => 3,
            HangupType::NeedPermission => 4,
        }
    }
}

/// A hangup, with the device it concerns where there is one.
#[derive(Clone, Copy, Debug, PartialEq, Eq, Structural)]
pub enum Hangup {
    Normal,
    AcceptedOnAnotherDevice(DeviceId),
    DeclinedOnAnotherDevice(DeviceId),
    BusyOnAnotherDevice(DeviceId),
    NeedPermission(Option<DeviceId>),
}

impl Hangup {
    pub open spec fn spec_type_and_device_id(self) -> (HangupType, Option<DeviceId>) {
        match self {
            Hangup::Normal => (HangupType::Normal, None),
            Hangup::AcceptedOnAnotherDevice(id) => (HangupType::AcceptedOnAnotherDevice, Some(id)),
            Hangup::DeclinedOnAnotherDevice(id) => (HangupType::DeclinedOnAnotherDevice, Some(id)),
            Hangup::BusyOnAnotherDevice(id) => (HangupType::BusyOnAnotherDevice, Some(id)),
            Hangup::NeedPermission(id) => (HangupType::NeedPermission, id),
        }
    }

    /// The kind of the hangup and the device it concerns.
    pub fn to_type_and_device_id(&self) -> (parts: (HangupType, Option<DeviceId>))
        ensures
            parts == self.spec_type_and_device_id(),
    {
        match self {
            Hangup::Normal => (HangupType::Normal, None),
            Hangup::AcceptedOnAnotherDevice(id) => (HangupType::AcceptedOnAnotherDevice, Some(*id)),
            Hangup::DeclinedOnAnotherDevice(id) => (HangupType::DeclinedOnAnotherDevice, Some(*id)),
            Hangup::BusyOnAnotherDevice(id) => (HangupType::BusyOnAnotherDevice, Some(*id)),
            Hangup::NeedPermission(id) => (HangupType::NeedPermission, *id),
        }
    }
}

/// An offer to send: opaque to the bridge.
#[derive(Clone, Debug, PartialEq, Eq)]
pub struct Offer {
    pub call_media_type: CallMediaType,
    pub opaque: Vec<u8>,
}

/// An answer to send: opaque to the bridge.
#[derive(Clone, Debug, PartialEq, Eq)]
pub struct Answer {
    pub opaque: Vec<u8>,
}

/// Connectivity candidates to send.
#[derive(Clone, Debug, PartialEq, Eq)]
pub struct Ice {
    pub candidates: Vec<IceCandidate>,
}

/// A signaling message that the application must send for the engine.
#[derive(Clone, Debug, PartialEq, Eq)]
pub enum Message {
    Offer(Offer),
    Answer(Answer),
    Ice(Ice),
    Hangup(Hangup),
    Busy,
}

/// The state of a one-to-one call as the engine reports it.
#[derive(Clone, Copy, Debug, PartialEq, Eq, Structural)]
pub enum CallState {
    Ringing,
    Connected,
    Connecting,
    Concluded,
    Incoming(CallMediaType),
    Outgoing(CallMediaType),
    /// The call ended; why is not forwarded to the host.
    Ended,
}

/// How urgently a call message must be delivered.
#[derive(Clone, Copy, Debug, PartialEq, Eq, Structural)]
pub enum SignalingMessageUrgency {
    Droppable,
    HandleImmediately,
}

impl SignalingMessageUrgency {
    pub open spec fn spec_code(self) -> i32 {
        match self {
            SignalingMessageUrgency::Droppable => 0i32,
            SignalingMessageUrgency::HandleImmediately => 1i32,
        }
    }

    /// The number that names the urgency to the host.
    pub fn code(&self) -> (code: i32)
        ensures
            code == self.spec_code(),
    {
        match self {
            SignalingMessageUrgency::Droppable => 0,
            SignalingMessageUrgency::HandleImmediately => 1,
        }
    }
}

/// What happened to a group ring.
#[derive(Clone, Copy, Debug, PartialEq, Eq, Structural)]
pub enum RingUpdate {
    Requested,
    ExpiredRequest,
    AcceptedOnAnotherDevice,
    DeclinedOnAnotherDevice,
    BusyLocally,
    BusyOnAnotherDevice,
    CancelledByRinger,
}

impl RingUpdate {
    pub open spec fn spec_code(self) -> i32 {
        match self {
            RingUpdate::Requested => 0i32,
            RingUpdate::ExpiredRequest => 1i32,
            RingUpdate::AcceptedOnAnotherDevice => 2i32,
            RingUpdate::DeclinedOnAnotherDevice => 3i32,
            RingUpdate::BusyLocally => 4i32,
            RingUpdate::BusyOnAnotherDevice => 5i32,
            RingUpdate::CancelledByRinger => 6i32,
        }
    }

    /// The number that names the update to the host.
    pub fn code(&self) -> (code: i32)
        ensures
            code == self.spec_code(),
    {
        match self {
            RingUpdate::Requested => 0,
            RingUpdate::ExpiredRequest => 1,
            RingUpdate::AcceptedOnAnotherDevice => 2,
            RingUpdate::DeclinedOnAnotherDevice => 3,
            RingUpdate::BusyLocally => 4,
            RingUpdate::BusyOnAnotherDevice => 5,
            RingUpdate::CancelledByRinger => 6,
        }
    }
}

/// The connection of a group-call client to its relay.
#[derive(Clone, Copy, Debug, PartialEq, Eq, Structural)]
pub enum ConnectionState {
    NotConnected,
    Connecting,
    Connected,
    Reconnecting,
}

impl ConnectionState {
    pub open spec fn spec_ordinal(self) -> i32 {
        match self {
            ConnectionState::NotConnected => 0i32,
            ConnectionState::Connecting => 1i32,
            ConnectionState::Connected => 2i32,
            ConnectionState::Reconnecting => 3i32,
        }
    }

    /// The position of the state in the order above.
    pub fn ordinal(&self) -> (ordinal: i32)
        ensures
            ordinal == self.spec_ordinal(),
    {
        match self {
            ConnectionState::NotConnected => 0,
            ConnectionState::Connecting => 1,
            ConnectionState::Connected => 2,
            ConnectionState::Reconnecting => 3,
        }
    }
}

/// Where a group-call client stands in joining its call.
#[derive(Clone, Copy, Debug, PartialEq, Eq, Structural)]
pub enum JoinState {
    NotJoined,
    Joining,
    Pending(DemuxId),
    Joined(DemuxId),
}

impl JoinState {
    pub open spec fn spec_ordinal(self) -> i32 {
        match self {
            JoinState::NotJoined => 0i32,
            JoinState::Joining => 1i32,
            JoinState::Pending(_) => 2i32,
            JoinState::Joined(_) => 3i32,
        }
    }

    pub open spec fn spec_demux_id(self) -> Option<DemuxId> {
        match self {
            JoinState::Pending(demux_id) => Some(demux_id),
            JoinState::Joined(demux_id) => Some(demux_id),
            _ => None,
        }
    }

    /// The position of the state in the order above.
    pub fn ordinal(&self) -> (ordinal: i32)
        ensures
            ordinal == self.spec_ordinal(),
    {
        match self {
            JoinState::NotJoined => 0,
            JoinState::Joining => 1,
            JoinState::Pending(_) => 2,
            JoinState::Joined(_) => 3,
        }
    }

    /// The identifier under which the local media is demultiplexed, once the
    /// relay has assigned one.
    pub fn demux_id(&self) -> (demux_id: Option<DemuxId>)
        ensures
            demux_id == self.spec_demux_id(),
    {
        match self {
            JoinState::Pending(demux_id) => Some(*demux_id),
            JoinState::Joined(demux_id) => Some(*demux_id),
            _ => None,
        }
    }
}

/// One remote device of a group call.
#[derive(Clone, Copy, Debug, PartialEq, Eq, Structural)]
pub struct RemoteDeviceState {
    pub demux_id: DemuxId,
}

/// What a peek at a group call found.
#[derive(Clone, Debug, PartialEq, Eq)]
pub struct PeekInfo {
    /// The users in the call, each once.
    pub joined_members: Vec<UserId>,
    pub creator: Option<UserId>,
    pub era_id: Option<String>,
    /// The number of devices in the call, pending ones included.
    pub device_count: usize,
}

/// The network route of a connection.
#[derive(Clone, Copy, Debug, PartialEq, Eq, Structural)]
pub struct NetworkRoute {
    pub local_adapter_type: i32,
}

/// An update about a group call.
#[derive(Clone, Debug, PartialEq, Eq)]
pub enum GroupUpdate {
    RequestMembershipProof(ClientId),
    RequestGroupMembers(ClientId),
    ConnectionStateChanged(ClientId, ConnectionState),
    NetworkRouteChanged(ClientId, NetworkRoute),
    JoinStateChanged(ClientId, JoinState),
    RemoteDeviceStatesChanged(ClientId, Vec<RemoteDeviceState>),
    PeekChanged { client_id: ClientId, peek_info: PeekInfo },
    /// The answer to a peek; `None` where the peek failed.
    PeekResult { request_id: u32, peek_result: Option<PeekInfo> },
    /// The call ended for this client, with the engine's reason code.
    Ended(ClientId, i32),
    Ring { group_id: GroupId, ring_id: i64, sender_id: UserId, update: RingUpdate },
}

/// Everything the engine can raise for the host.
#[derive(Clone, Debug, PartialEq, Eq)]
pub enum Event {
    /// Send a signaling message to a peer, in the context of a call; to all
    /// devices of the peer where no device is given.
    SendSignaling(PeerId, Option<DeviceId>, CallId, Message),
    /// Send an opaque call message to one user.
    SendCallMessage { recipient_uuid: UserId, message: Vec<u8>, urgency: SignalingMessageUrgency },
    /// Send an opaque call message to the other members of a group.
    SendCallMessageToGroup {
        group_id: GroupId,
        message: Vec<u8>,
        urgency: SignalingMessageUrgency,
    },
    /// The call with a peer changed state.
    CallState(PeerId, CallId, CallState),
    RemoteAudioStateChange(PeerId, bool),
    RemoteVideoStateChange(PeerId, bool),
    RemoteSharingScreenChange(PeerId, bool),
    GroupUpdate(GroupUpdate),
    /// Perform an HTTP request and hand the response back.
    SendHttpRequest { request_id: u32, request: Request },
    NetworkRouteChange(PeerId, NetworkRoute),
    AudioLevels { peer_id: PeerId, captured_level: AudioLevel, received_level: AudioLevel },
    LowBandwidthForVideo { peer_id: PeerId, recovered: bool },
}

impl Event {
    /// The name of the kind of event, for logs.
    pub fn kind(&self) -> (name: &'static str)
        ensures
            name@ == match *self {
                Event::SendSignaling(..) => "SendSignaling"@,
                Event::SendCallMessage { .. } => "SendCallMessage"@,
                Event::SendCallMessageToGroup { .. } => "SendCallMessageToGroup"@,
                Event::CallState(..) => "CallState"@,
                Event::RemoteAudioStateChange(..) => "RemoteAudioStateChange"@,
                Event::RemoteVideoStateChange(..) => "RemoteVideoStateChange"@,
                Event::RemoteSharingScreenChange(..) => "RemoteSharingScreenChange"@,
                Event::GroupUpdate(..) => "GroupUpdate"@,
                Event::SendHttpRequest { .. } => "SendHttpRequest"@,
                Event::NetworkRouteChange(..) => "NetworkRouteChange"@,
                Event::AudioLevels { .. } => "AudioLevels"@,
                Event::LowBandwidthForVideo { .. } => "LowBandwidthForVideo"@,
            },
    {
        match self {
            Event::SendSignaling(..) => "SendSignaling",
            Event::SendCallMessage { .. } => "SendCallMessage",
            Event::SendCallMessageToGroup { .. } => "SendCallMessageToGroup",
            Event::CallState(..) => "CallState",
            Event::RemoteAudioStateChange(..) => "RemoteAudioStateChange",
            Event::RemoteVideoStateChange(..) => "RemoteVideoStateChange",
            Event::RemoteSharingScreenChange(..) => "RemoteSharingScreenChange",
            Event::GroupUpdate(..) => "GroupUpdate",
            Event::SendHttpRequest { .. } => "SendHttpRequest",
            Event::NetworkRouteChange(..) => "NetworkRouteChange",
            Event::AudioLevels { .. } => "AudioLevels",
            Event::LowBandwidthForVideo { .. } => "LowBandwidthForVideo",
        }
    }
}

} // verus!
