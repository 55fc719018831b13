//! The call endpoint and its entry surface.
//!
//! An entry point of the host does three things: it resolves the endpoint
//! from its handle, it turns the host's records into engine values, and it
//! asks the engine or the media layer to act. The first two are decided
//! here; the third is returned as a command for the caller to carry out.

use vstd::prelude::*;
use vstd::utf8::{decode_utf8, valid_utf8};
use crate::error::{BridgeError, DispatchError};
use crate::event::{CallId, CallMediaType, ClientId, DemuxId, DeviceId};
use crate::frames::{after_pop, after_push, taken, LastFramesVideoSink};
use crate::handles::HandleTable;
use crate::jtypes::{candidate_views, IceCandidate, JByteArray, JByteArray2D, JPString};
use crate::members::{
    decoded_members, deserialize_to_group_member_info, is_member_buffer, member_views,
    GroupMember,
};
use crate::reporter::EventReporter;

verus! {

/// The status that most entry points return: the call was carried out.
pub const STATUS_DONE: i64 = 1;

/// The status that `proceedCall` returns.
pub const STATUS_PROCEEDING: i64 = 147;

/// The status that `acceptCall` returns.
pub const STATUS_ACCEPTED: i64 = 573;

/// The status that `signalMessageSent` returns.
pub const STATUS_MESSAGE_SENT: i64 = 135;

/// The request number under which every peek is made.
pub const PEEK_REQUEST_ID: u32 = 1;

/// The width asked for when video of a participant is requested.
pub const REQUESTED_VIDEO_WIDTH: u16 = 320;

/// The height asked for when video of a participant is requested.
pub const REQUESTED_VIDEO_HEIGHT: u16 = 200;

/// The height of the active speaker's video asked for with every request.
pub const ACTIVE_SPEAKER_HEIGHT: u16 = 150;

/// The structural copies of the reporter that an endpoint hands to the
/// engine: one each for signaling, call state, HTTP and group updates.
pub const REPORTER_COPIES: u64 = 4;

/// The entry points that return a status.
#[derive(Clone, Copy, Debug, PartialEq, Eq, Structural)]
pub enum EntryPoint {
    InitRingRtc,
    GetVersion,
    SetSelfUuid,
    ReceivedOffer,
    ReceivedOpaqueMessage,
    ReceivedAnswer,
    CreateOutgoingCall,
    ProceedCall,
    AcceptCall,
    IgnoreCall,
    HangupCall,
    SignalMessageSent,
    SetAudioInput,
    GetAudioOutputs,
    SetAudioOutput,
    SetOutgoingAudioEnabled,
    SetOutgoingVideoEnabled,
    SendVideoFrame,
    FillLargeArray,
    PeekGroupCall,
    PanamaReceivedHttpResponse,
    SetOutgoingAudioMuted,
    SetOutgoingVideoMuted,
    GroupRing,
    GroupConnect,
    SetMembershipProof,
    SetGroupMembers,
    SetDataMode,
    Join,
    Disconnect,
    RequestVideo,
}

/// The status of an entry point that was carried out. The numbers tell the
/// host no more than that.
pub open spec fn spec_entry_status(entry: EntryPoint) -> i64 {
    match entry {
        EntryPoint::ProceedCall => STATUS_PROCEEDING,
        EntryPoint::AcceptCall => STATUS_ACCEPTED,
        EntryPoint::SignalMessageSent => STATUS_MESSAGE_SENT,
        _ => STATUS_DONE,
    }
}

/// The status of an entry point that was carried out.
pub fn entry_status(entry: EntryPoint) -> (status: i64)
    ensures
        status == spec_entry_status(entry),
{
    match entry {
        EntryPoint::ProceedCall => STATUS_PROCEEDING,
        EntryPoint::AcceptCall => STATUS_ACCEPTED,
        EntryPoint::SignalMessageSent => STATUS_MESSAGE_SENT,
        _ => STATUS_DONE,
    }
}

/// The media type that an offer announces: video for 1, audio for every
/// other number.
pub open spec fn spec_offer_media_type(offer_type: i32) -> CallMediaType {
    if offer_type == 1 {
        CallMediaType::Video
    } else {
        CallMediaType::Audio
    }
}

/// The media type that an offer announces.
pub fn offer_media_type(offer_type: i32) -> (media: CallMediaType)
    ensures
        media == spec_offer_media_type(offer_type),
{
    match offer_type {
        1 => CallMediaType::Video,
        _ => CallMediaType::Audio,
    }
}

/// The interval at which audio levels are reported: none for a number of
/// milliseconds that is not positive.
pub open spec fn spec_audio_levels_interval(millis: i32) -> Option<u64> {
    if millis <= 0 {
        None
    } else {
        Some(millis as u64)
    }
}

/// The interval at which audio levels are reported, in milliseconds.
pub fn audio_levels_interval(millis: i32) -> (interval: Option<u64>)
    ensures
        interval == spec_audio_levels_interval(millis),
{
    if millis <= 0 {
        None
    } else {
        Some(millis as u64)
    }
}

/// The number of bytes of a raw frame: two per pixel, and twice that for
/// pixel format 1.
pub open spec fn spec_frame_buffer_size(width: u32, height: u32, pixel_format: i32) -> int {
    if pixel_format == 1 {
        width * height * 4
    } else {
        width * height * 2
    }
}

/// The number of bytes to read of a raw frame, or `None` where that number
/// does not fit 32 bits.
pub fn frame_buffer_size(width: u32, height: u32, pixel_format: i32) -> (size: Option<u32>)
    ensures
        size is Some <==> spec_frame_buffer_size(width, height, pixel_format) <= u32::MAX,
        size matches Some(n) ==> n == spec_frame_buffer_size(width, height, pixel_format),
{
    assert(width * height <= 0xffff_ffff * 0xffff_ffff) by (nonlinear_arith)
        requires
            0 <= width <= 0xffff_ffff,
            0 <= height <= 0xffff_ffff,
    ;
    let pixels: u128 = width as u128 * height as u128;
    let factor: u128 = if pixel_format == 1 {
        4
    } else {
        2
    };
    let bytes: u128 = pixels * factor;
    if bytes <= u32::MAX as u128 {
        Some(bytes as u32)
    } else {
        None
    }
}

/// The value that reports the size of a filled frame: the width in the bits
/// from 16 up, as far as 32 bits hold them, and the height below.
pub open spec fn spec_packed_dimensions(width: u32, height: u32) -> i64 {
    (((width << 16) as i64) | (height as i64))
}

/// Packs the size of a frame into one value. For a width and a height below
/// 65536 that value is `width * 65536 + height`.
pub fn pack_frame_dimensions(width: u32, height: u32) -> (packed: i64)
    ensures
        packed == spec_packed_dimensions(width, height),
        width < 0x1_0000 && height < 0x1_0000 ==> packed == width * 0x1_0000 + height,
        packed >= 0,
{
    let high: u32 = width << 16;
    let packed: i64 = (high as i64) | (height as i64);
    assert(width < 0x1_0000 && height < 0x1_0000 ==> (((width << 16) as i64) | (height as i64))
        == (width as i64) * 0x1_0000 + (height as i64)) by (bit_vector);
    assert((((width << 16) as i64) | (height as i64)) >= 0) by (bit_vector);
    packed
}

/// What `fillRemoteVideoFrame` returns: the packed size of the frame that
/// was filled in, or zero where no frame was available.
pub fn frame_fill_status(filled: Option<(u32, u32)>) -> (status: i64)
    ensures
        status == match filled {
            Some((width, height)) => spec_packed_dimensions(width, height),
            None => 0i64,
        },
{
    match filled {
        Some((width, height)) => pack_frame_dimensions(width, height),
        None => 0,
    }
}

/// The client identifier that `createGroupCallClient` returns: the one the
/// engine assigned, or zero where it assigned none.
pub fn group_client_id(assigned: Option<ClientId>) -> (client_id: ClientId)
    ensures
        client_id == match assigned {
            Some(id) => id,
            None => 0u32,
        },
{
    match assigned {
        Some(id) => id,
        None => 0,
    }
}

/// What every entry point returns to a host that runs it: the version of
/// the entry surface.
pub fn get_version() -> (version: i64)
    ensures
        version == 1,
{
    1
}

/// One server to gather connectivity candidates from.
#[derive(Clone, Debug, PartialEq, Eq)]
pub struct IceServer {
    pub username: String,
    pub password: String,
    pub hostname: String,
    pub urls: Vec<String>,
}

/// One request for the video of a participant.
#[derive(Clone, Copy, Debug, PartialEq, Eq, Structural)]
pub struct VideoRequest {
    pub demux_id: DemuxId,
    pub width: u16,
    pub height: u16,
    pub framerate: Option<u16>,
}

/// An action that the caller carries out on the engine or the media layer.
#[derive(Clone, Debug, PartialEq, Eq)]
pub enum EngineCommand {
    SetSelfUuid { uuid: Vec<u8> },
    ReceivedOffer {
        peer_id: String,
        call_id: CallId,
        media_type: CallMediaType,
        opaque: Vec<u8>,
        age_sec: u64,
        sender_device_id: DeviceId,
        receiver_device_id: DeviceId,
        sender_identity_key: Vec<u8>,
        receiver_identity_key: Vec<u8>,
    },
    ReceivedCallMessage {
        sender_uuid: Vec<u8>,
        sender_device_id: DeviceId,
        local_device_id: DeviceId,
        message: Vec<u8>,
        age_sec: u64,
    },
    ReceivedAnswer {
        call_id: CallId,
        opaque: Vec<u8>,
        sender_device_id: DeviceId,
        sender_identity_key: Vec<u8>,
        receiver_identity_key: Vec<u8>,
    },
    CreateOutgoingCall {
        peer_id: String,
        call_id: CallId,
        media_type: CallMediaType,
        local_device_id: DeviceId,
    },
    Proceed {
        call_id: CallId,
        ice_server: IceServer,
        data_mode: i32,
        audio_levels_interval_millis: Option<u64>,
    },
    ReceivedIce { call_id: CallId, candidates: Vec<IceCandidate>, sender_device_id: DeviceId },
    AcceptCall { call_id: CallId },
    DropCall { call_id: CallId },
    Hangup,
    MessageSent { call_id: CallId },
    SetAudioRecordingDevice { index: u16 },
    SetAudioPlayoutDevice { index: u16 },
    SetOutgoingAudioTrackEnabled { enabled: bool },
    SetOutgoingVideoTrackEnabled { enabled: bool },
    /// Tell the remote side whether video is sent, if a connection is
    /// active.
    UpdateSenderStatus { video_enabled: bool },
    SetVideoContentHint { is_screenshare: bool },
    PeekGroupCall {
        request_id: u32,
        sfu_url: String,
        membership_proof: Vec<u8>,
        group_members: Vec<GroupMember>,
    },
    ReceivedHttpResponse { request_id: u32, status: u16, body: Vec<u8> },
    CreateGroupCallClient { group_id: Vec<u8>, sfu_url: String, hkdf_extra_info: Vec<u8> },
    DeleteGroupCallClient { client_id: ClientId },
    SetOutgoingAudioMuted { client_id: ClientId, muted: bool },
    SetOutgoingVideoMuted { client_id: ClientId, muted: bool },
    GroupRing { client_id: ClientId },
    Connect { client_id: ClientId },
    SetMembershipProof { client_id: ClientId, proof: Vec<u8> },
    SetGroupMembers { client_id: ClientId, members: Vec<GroupMember> },
    SetDataMode { client_id: ClientId, data_mode: i32 },
    Join { client_id: ClientId },
    Disconnect { client_id: ClientId },
    RequestVideo { client_id: ClientId, requests: Vec<VideoRequest>, active_speaker_height: u16 },
}

/// One native calling session as the bridge sees it: whether outgoing media
/// is enabled, the frame sink, and the reporter with the callback table.
pub struct CallEndpoint<F> {
    outgoing_audio_enabled: bool,
    outgoing_video_enabled: bool,
    incoming_video_sink: LastFramesVideoSink<F>,
    reporter: EventReporter,
}

impl<F> CallEndpoint<F> {
    /// Whether the outgoing audio track is enabled.
    pub closed spec fn audio_enabled(&self) -> bool {
        self.outgoing_audio_enabled
    }

    /// Whether the outgoing video track is enabled.
    pub closed spec fn video_enabled(&self) -> bool {
        self.outgoing_video_enabled
    }

    /// The frames held for the host, by demultiplexing identifier.
    pub closed spec fn frames(&self) -> Map<u32, F> {
        self.incoming_video_sink@
    }

    /// The reporter of the endpoint.
    pub closed spec fn spec_reporter(&self) -> EventReporter {
        self.reporter
    }

    /// An endpoint as it is created: outgoing audio and video disabled, no
    /// frame held, and one callback table held by the reporter's
    /// `REPORTER_COPIES` copies.
    pub fn new() -> (endpoint: Self)
        ensures
            !endpoint.audio_enabled(),
            !endpoint.video_enabled(),
            endpoint.frames() == Map::<u32, F>::empty(),
            endpoint.spec_reporter().holders() == REPORTER_COPIES,
            !endpoint.spec_reporter().has_reported(),
    {
        let mut reporter = EventReporter::new();
        let mut copies: u64 = 1;
        while copies < REPORTER_COPIES
            invariant
                1 <= copies <= REPORTER_COPIES,
                reporter.holders() == copies,
                !reporter.has_reported(),
            decreases REPORTER_COPIES - copies,
        {
            let added = reporter.add_copy();
            assert(added is Ok);
            copies = copies + 1;
        }
        CallEndpoint {
            outgoing_audio_enabled: false,
            outgoing_video_enabled: false,
            incoming_video_sink: LastFramesVideoSink::new(),
            reporter,
        }
    }

    /// Whether the outgoing audio track is enabled.
    pub fn outgoing_audio_enabled(&self) -> (enabled: bool)
        ensures
            enabled == self.audio_enabled(),
    {
        self.outgoing_audio_enabled
    }

    /// Whether the outgoing video track is enabled.
    pub fn outgoing_video_enabled(&self) -> (enabled: bool)
        ensures
            enabled == self.video_enabled(),
    {
        self.outgoing_video_enabled
    }

    /// The reporter of the endpoint.
    pub fn reporter(&self) -> (reporter: &EventReporter)
        ensures
            *reporter == self.spec_reporter(),
    {
        &self.reporter
    }

    /// Counts one more structural copy of the reporter.
    ///
    /// Fails with `TableReleased` exactly where the callback table is torn
    /// down, and with `TooManyHolders` exactly where the count is at its
    /// limit; nothing changes then.
    pub fn add_reporter_copy(&mut self) -> (added: Result<(), DispatchError>)
        ensures
            added is Ok <==> 0 < old(self).spec_reporter().holders() < u64::MAX,
            added is Ok ==> final(self).spec_reporter().holders() == crate::table::after_share(
                old(self).spec_reporter().holders(),
            ),
            added is Err ==> final(self).spec_reporter().holders() == old(
                self,
            ).spec_reporter().holders(),
            added matches Err(e) ==> e == if old(self).spec_reporter().holders() == 0 {
                DispatchError::TableReleased
            } else {
                DispatchError::TooManyHolders
            },
            final(self).spec_reporter().has_reported() == old(self).spec_reporter().has_reported(),
            final(self).audio_enabled() == old(self).audio_enabled(),
            final(self).video_enabled() == old(self).video_enabled(),
            final(self).frames() == old(self).frames(),
    {
        self.reporter.add_copy()
    }

    /// Lets one structural copy of the reporter go. Returns whether the
    /// host's destructor must be invoked now.
    pub fn drop_reporter_copy(&mut self) -> (destroy: bool)
        ensures
            destroy == crate::table::release_fires(old(self).spec_reporter().holders()),
            final(self).spec_reporter().holders() == crate::table::after_release(
                old(self).spec_reporter().holders(),
            ),
            final(self).spec_reporter().has_reported() == old(self).spec_reporter().has_reported(),
            final(self).audio_enabled() == old(self).audio_enabled(),
            final(self).video_enabled() == old(self).video_enabled(),
            final(self).frames() == old(self).frames(),
    {
        self.reporter.drop_copy()
    }

    /// Signals completion through the reporter. Returns whether this call
    /// was the first.
    pub fn report(&mut self) -> (first: bool)
        ensures
            first == !old(self).spec_reporter().has_reported(),
            final(self).spec_reporter().has_reported(),
            final(self).spec_reporter().holders() == old(self).spec_reporter().holders(),
            final(self).audio_enabled() == old(self).audio_enabled(),
            final(self).video_enabled() == old(self).video_enabled(),
            final(self).frames() == old(self).frames(),
    {
        self.reporter.report()
    }

    /// Stores a decoded frame of a remote participant for the host, over any
    /// frame not yet taken for that participant.
    pub fn on_video_frame(&mut self, track_id: u32, frame: F)
        ensures
            final(self).frames() == after_push(old(self).frames(), track_id, frame),
            final(self).audio_enabled() == old(self).audio_enabled(),
            final(self).video_enabled() == old(self).video_enabled(),
            final(self).spec_reporter() == old(self).spec_reporter(),
    {
        self.incoming_video_sink.on_video_frame(track_id, frame);
    }

    /// Takes the frame held for a participant, for `fillRemoteVideoFrame`.
    /// The identifier is the one the host passed, reduced to 32 bits.
    pub fn take_remote_frame(&mut self, demux_id: i64) -> (frame: Option<F>)
        ensures
            frame == taken(old(self).frames(), demux_id as u32),
            final(self).frames() == after_pop(old(self).frames(), demux_id as u32),
            final(self).audio_enabled() == old(self).audio_enabled(),
            final(self).video_enabled() == old(self).video_enabled(),
            final(self).spec_reporter() == old(self).spec_reporter(),
    {
        self.incoming_video_sink.pop(
            #[verifier::truncate]
            (demux_id as u32),
        )
    }
}

/// The address of the relay that every peek asks.
pub open spec fn peek_sfu_url() -> Seq<char> {
    "https://sfu.voip.signal.org"@
}

impl<F> CallEndpoint<F> {
    /// `setSelfUuid`: the local identity, copied from the host's buffer.
    pub fn set_self_uuid(&self, me: &JByteArray) -> (command: EngineCommand)
        ensures
            command matches EngineCommand::SetSelfUuid { uuid } && uuid@ == me@,
    {
        EngineCommand::SetSelfUuid { uuid: me.to_vec_u8() }
    }

    /// `receivedOffer`: an offer from a peer, with the keys of both sides.
    ///
    /// Fails with `InvalidText` exactly where the peer's name is not UTF-8.
    pub fn received_offer(
        &self,
        peer_id: &JPString,
        call_id: u64,
        offer_type: i32,
        sender_device_id: u32,
        receiver_device_id: u32,
        sender_key: &JByteArray,
        receiver_key: &JByteArray,
        opaque: &JByteArray,
        age_sec: u64,
    ) -> (command: Result<EngineCommand, BridgeError>)
        ensures
            command is Ok <==> valid_utf8(peer_id@),
            command matches Ok(c) ==> c matches EngineCommand::ReceivedOffer {
                peer_id: peer,
                call_id: call,
                media_type,
                opaque: payload,
                age_sec: age,
                sender_device_id: sender,
                receiver_device_id: receiver,
                sender_identity_key,
                receiver_identity_key,
            } && peer@ == decode_utf8(peer_id@) && call.id == call_id && media_type
                == spec_offer_media_type(offer_type) && payload@ == opaque@ && age == age_sec
                && sender == sender_device_id && receiver == receiver_device_id
                && sender_identity_key@ == sender_key@ && receiver_identity_key@ == receiver_key@,
            command matches Err(e) ==> e == BridgeError::InvalidText,
    {
        let peer = peer_id.to_string()?;
        Ok(
            EngineCommand::ReceivedOffer {
                peer_id: peer,
                call_id: CallId::new(call_id),
                media_type: offer_media_type(offer_type),
                opaque: opaque.to_vec_u8(),
                age_sec,
                sender_device_id,
                receiver_device_id,
                sender_identity_key: sender_key.to_vec_u8(),
                receiver_identity_key: receiver_key.to_vec_u8(),
            },
        )
    }

    /// `receivedOpaqueMessage`: a call message from a user's device.
    pub fn received_opaque_message(
        &self,
        sender_juuid: &JByteArray,
        sender_device_id: DeviceId,
        local_device_id: DeviceId,
        opaque: &JByteArray,
        message_age_sec: u64,
    ) -> (command: EngineCommand)
        ensures
            command matches EngineCommand::ReceivedCallMessage {
                sender_uuid,
                sender_device_id: sender,
                local_device_id: local,
                message,
                age_sec,
            } && sender_uuid@ == sender_juuid@ && sender == sender_device_id && local
                == local_device_id && message@ == opaque@ && age_sec == message_age_sec,
    {
        EngineCommand::ReceivedCallMessage {
            sender_uuid: sender_juuid.to_vec_u8(),
            sender_device_id,
            local_device_id,
            message: opaque.to_vec_u8(),
            age_sec: message_age_sec,
        }
    }

    /// `receivedAnswer`: the answer to an offer, with the keys of both sides.
    pub fn received_answer(
        &self,
        call_id: u64,
        sender_device_id: u32,
        sender_key: &JByteArray,
        receiver_key: &JByteArray,
        opaque: &JByteArray,
    ) -> (command: EngineCommand)
        ensures
            command matches EngineCommand::ReceivedAnswer {
                call_id: call,
                opaque: payload,
                sender_device_id: sender,
                sender_identity_key,
                receiver_identity_key,
            } && call.id == call_id && payload@ == opaque@ && sender == sender_device_id
                && sender_identity_key@ == sender_key@ && receiver_identity_key@ == receiver_key@,
    {
        EngineCommand::ReceivedAnswer {
            call_id: CallId::new(call_id),
            opaque: opaque.to_vec_u8(),
            sender_device_id,
            sender_identity_key: sender_key.to_vec_u8(),
            receiver_identity_key: receiver_key.to_vec_u8(),
        }
    }

    /// `createOutgoingCall`: a call to a peer, with video or with audio
    /// only. The call identifier is the host's number read as unsigned.
    ///
    /// Fails with `InvalidText` exactly where the peer's name is not UTF-8.
    pub fn create_outgoing_call(
        &self,
        peer_id: &JPString,
        video_enabled: bool,
        local_device_id: u32,
        call_id: i64,
    ) -> (command: Result<EngineCommand, BridgeError>)
        ensures
            command is Ok <==> valid_utf8(peer_id@),
            command matches Ok(c) ==> c matches EngineCommand::CreateOutgoingCall {
                peer_id: peer,
                call_id: call,
                media_type,
                local_device_id: local,
            } && peer@ == decode_utf8(peer_id@) && call.id == call_id as u64 && media_type == (
            if video_enabled {
                CallMediaType::Video
            } else {
                CallMediaType::Audio
            }) && local == local_device_id,
            command matches Err(e) ==> e == BridgeError::InvalidText,
    {
        let peer = peer_id.to_string()?;
        let media_type = if video_enabled {
            CallMediaType::Video
        } else {
            CallMediaType::Audio
        };
        Ok(
            EngineCommand::CreateOutgoingCall {
                peer_id: peer,
                call_id: CallId::new(
                    #[verifier::truncate]
                    (call_id as u64),
                ),
                media_type,
                local_device_id,
            },
        )
    }

    /// `proceedCall`: go on with a call, with one server whose credentials
    /// are the three texts and whose addresses are the rows of the batch.
    ///
    /// Fails with `InvalidText` exactly where one of the three texts or one
    /// of the rows that carry data is not UTF-8.
    pub fn proceed_call(
        &self,
        call_id: u64,
        data_mode: i32,
        audio_levels_interval_millis: i32,
        ice_user: &JPString,
        ice_pwd: &JPString,
        ice_hostname: &JPString,
        icepack: &JByteArray2D,
    ) -> (command: Result<EngineCommand, BridgeError>)
        ensures
            command is Ok <==> valid_utf8(ice_user@) && valid_utf8(ice_pwd@) && valid_utf8(
                ice_hostname@,
            ) && forall|k: int| 0 <= k < icepack@.len() ==> valid_utf8(#[trigger] icepack@[k]),
            command matches Ok(c) ==> c matches EngineCommand::Proceed {
                call_id: call,
                ice_server,
                data_mode: mode,
                audio_levels_interval_millis: interval,
            } && call.id == call_id && mode == data_mode && interval == spec_audio_levels_interval(
                audio_levels_interval_millis,
            ) && ice_server.username@ == decode_utf8(ice_user@) && ice_server.password@
                == decode_utf8(ice_pwd@) && ice_server.hostname@ == decode_utf8(ice_hostname@)
                && ice_server.urls@.len() == icepack@.len() && forall|k: int|
                0 <= k < icepack@.len() ==> (#[trigger] ice_server.urls@[k])@ == decode_utf8(
                    icepack@[k],
                ),
            command matches Err(e) ==> e == BridgeError::InvalidText,
    {
        let urls = icepack.texts()?;
        let username = ice_user.to_string()?;
        let password = ice_pwd.to_string()?;
        let hostname = ice_hostname.to_string()?;
        Ok(
            EngineCommand::Proceed {
                call_id: CallId::new(call_id),
                ice_server: IceServer { username, password, hostname, urls },
                data_mode,
                audio_levels_interval_millis: audio_levels_interval(audio_levels_interval_millis),
            },
        )
    }

    /// `receivedIce`: connectivity candidates from a peer's device, one per
    /// row of the batch that carries data.
    pub fn received_ice(&self, call_id: u64, sender_device_id: DeviceId, icepack: &JByteArray2D) -> (command:
        EngineCommand)
        ensures
            command matches EngineCommand::ReceivedIce {
                call_id: call,
                candidates,
                sender_device_id: sender,
            } && call.id == call_id && candidate_views(candidates@) == icepack@ && sender
                == sender_device_id,
    {
        EngineCommand::ReceivedIce {
            call_id: CallId::new(call_id),
            candidates: icepack.candidates(),
            sender_device_id,
        }
    }

    /// `acceptCall`.
    pub fn accept_call(&self, call_id: u64) -> (command: EngineCommand)
        ensures
            command matches EngineCommand::AcceptCall { call_id: call } && call.id == call_id,
    {
        EngineCommand::AcceptCall { call_id: CallId::new(call_id) }
    }

    /// `ignoreCall`: drop the call without answering it.
    pub fn ignore_call(&self, call_id: u64) -> (command: EngineCommand)
        ensures
            command matches EngineCommand::DropCall { call_id: call } && call.id == call_id,
    {
        EngineCommand::DropCall { call_id: CallId::new(call_id) }
    }

    /// `hangupCall`.
    pub fn hangup_call(&self) -> (command: EngineCommand)
        ensures
            command is Hangup,
    {
        EngineCommand::Hangup
    }

    /// `signalMessageSent`: the application sent the last signaling message.
    pub fn signal_message_sent(&self, call_id: CallId) -> (command: EngineCommand)
        ensures
            command matches EngineCommand::MessageSent { call_id: call } && call == call_id,
    {
        EngineCommand::MessageSent { call_id }
    }

    /// `setAudioInput`.
    pub fn set_audio_input(&self, index: u16) -> (command: EngineCommand)
        ensures
            command matches EngineCommand::SetAudioRecordingDevice { index: chosen } && chosen
                == index,
    {
        EngineCommand::SetAudioRecordingDevice { index }
    }

    /// `setAudioOutput`.
    pub fn set_audio_output(&self, index: u16) -> (command: EngineCommand)
        ensures
            command matches EngineCommand::SetAudioPlayoutDevice { index: chosen } && chosen
                == index,
    {
        EngineCommand::SetAudioPlayoutDevice { index }
    }

    /// `setOutgoingAudioEnabled`.
    pub fn set_outgoing_audio_enabled(&mut self, enable: bool) -> (command: EngineCommand)
        ensures
            command matches EngineCommand::SetOutgoingAudioTrackEnabled { enabled } && enabled
                == enable,
            final(self).audio_enabled() == enable,
            final(self).video_enabled() == old(self).video_enabled(),
            final(self).frames() == old(self).frames(),
            final(self).spec_reporter() == old(self).spec_reporter(),
    {
        self.outgoing_audio_enabled = enable;
        EngineCommand::SetOutgoingAudioTrackEnabled { enabled: enable }
    }

    /// `setOutgoingVideoEnabled`: the track first, then the word to the
    /// remote side.
    pub fn set_outgoing_video_enabled(&mut self, enable: bool) -> (commands: Vec<EngineCommand>)
        ensures
            commands@.len() == 2,
            commands@[0] matches EngineCommand::SetOutgoingVideoTrackEnabled { enabled } && enabled
                == enable,
            commands@[1] matches EngineCommand::UpdateSenderStatus { video_enabled }
                && video_enabled == enable,
            final(self).video_enabled() == enable,
            final(self).audio_enabled() == old(self).audio_enabled(),
            final(self).frames() == old(self).frames(),
            final(self).spec_reporter() == old(self).spec_reporter(),
    {
        self.outgoing_video_enabled = enable;
        let mut commands: Vec<EngineCommand> = Vec::new();
        commands.push(EngineCommand::SetOutgoingVideoTrackEnabled { enabled: enable });
        commands.push(EngineCommand::UpdateSenderStatus { video_enabled: enable });
        commands
    }

    /// `peekGroupCall`: ask the relay who is in the call of a group.
    ///
    /// Fails with `InvalidGroupMemberBuffer` exactly where the member buffer
    /// is not a whole number of records.
    pub fn peek_group_call(&self, mp: &JByteArray, gm: &JByteArray) -> (command: Result<
        EngineCommand,
        BridgeError,
    >)
        ensures
            command is Ok <==> is_member_buffer(gm@),
            command matches Ok(c) ==> c matches EngineCommand::PeekGroupCall {
                request_id,
                sfu_url,
                membership_proof,
                group_members,
            } && request_id == PEEK_REQUEST_ID && sfu_url@ == peek_sfu_url() && membership_proof@
                == mp@ && member_views(group_members@) == decoded_members(gm@),
            command matches Err(e) ==> e == BridgeError::InvalidGroupMemberBuffer,
    {
        let membership_proof = mp.to_vec_u8();
        let group_members = deserialize_to_group_member_info(gm.to_vec_u8())?;
        Ok(
            EngineCommand::PeekGroupCall {
                request_id: PEEK_REQUEST_ID,
                sfu_url: "https://sfu.voip.signal.org".to_owned(),
                membership_proof,
                group_members,
            },
        )
    }

    /// `panamaReceivedHttpResponse`: the response to a request that the
    /// host performed. The status is the host's number reduced to 16 bits.
    pub fn received_http_response(&self, request_id: u32, status_code: u32, jbody: &JByteArray) -> (command:
        EngineCommand)
        ensures
            command matches EngineCommand::ReceivedHttpResponse { request_id: request, status, body }
                && request == request_id && status == status_code as u16 && body@ == jbody@,
    {
        EngineCommand::ReceivedHttpResponse {
            request_id,
            status: #[verifier::truncate]
            (status_code as u16),
            body: jbody.to_vec_u8(),
        }
    }

    /// `createGroupCallClient`.
    ///
    /// Fails with `InvalidText` exactly where the relay's address is not
    /// UTF-8.
    pub fn create_group_call_client(
        &self,
        group_id: &JByteArray,
        sf_url: &JPString,
        hkdf_extra_info: &JByteArray,
    ) -> (command: Result<EngineCommand, BridgeError>)
        ensures
            command is Ok <==> valid_utf8(sf_url@),
            command matches Ok(c) ==> c matches EngineCommand::CreateGroupCallClient {
                group_id: group,
                sfu_url,
                hkdf_extra_info: extra,
            } && group@ == group_id@ && sfu_url@ == decode_utf8(sf_url@) && extra@
                == hkdf_extra_info@,
            command matches Err(e) ==> e == BridgeError::InvalidText,
    {
        let sfu_url = sf_url.to_string()?;
        Ok(
            EngineCommand::CreateGroupCallClient {
                group_id: group_id.to_vec_u8(),
                sfu_url,
                hkdf_extra_info: hkdf_extra_info.to_vec_u8(),
            },
        )
    }

    /// `deleteGroupCallClient`.
    pub fn delete_group_call_client(&self, client_id: ClientId) -> (command: EngineCommand)
        ensures
            command matches EngineCommand::DeleteGroupCallClient { client_id: client } && client
                == client_id,
    {
        EngineCommand::DeleteGroupCallClient { client_id }
    }

    /// `setOutgoingAudioMuted`: the track is enabled exactly where the
    /// client is not muted.
    pub fn set_outgoing_audio_muted(&mut self, client_id: ClientId, muted: bool) -> (commands: Vec<
        EngineCommand,
    >)
        ensures
            commands@.len() == 2,
            commands@[0] matches EngineCommand::SetOutgoingAudioTrackEnabled { enabled } && enabled
                == !muted,
            commands@[1] matches EngineCommand::SetOutgoingAudioMuted { client_id: client, muted: m }
                && client == client_id && m == muted,
            final(self).audio_enabled() == !muted,
            final(self).video_enabled() == old(self).video_enabled(),
            final(self).frames() == old(self).frames(),
            final(self).spec_reporter() == old(self).spec_reporter(),
    {
        self.outgoing_audio_enabled = !muted;
        let mut commands: Vec<EngineCommand> = Vec::new();
        commands.push(EngineCommand::SetOutgoingAudioTrackEnabled { enabled: !muted });
        commands.push(EngineCommand::SetOutgoingAudioMuted { client_id, muted });
        commands
    }

    /// `setOutgoingVideoMuted`: the track is enabled exactly where the
    /// client is not muted.
    pub fn set_outgoing_video_muted(&mut self, client_id: ClientId, muted: bool) -> (commands: Vec<
        EngineCommand,
    >)
        ensures
            commands@.len() == 2,
            commands@[0] matches EngineCommand::SetOutgoingVideoTrackEnabled { enabled } && enabled
                == !muted,
            commands@[1] matches EngineCommand::SetOutgoingVideoMuted { client_id: client, muted: m }
                && client == client_id && m == muted,
            final(self).video_enabled() == !muted,
            final(self).audio_enabled() == old(self).audio_enabled(),
            final(self).frames() == old(self).frames(),
            final(self).spec_reporter() == old(self).spec_reporter(),
    {
        self.outgoing_video_enabled = !muted;
        let mut commands: Vec<EngineCommand> = Vec::new();
        commands.push(EngineCommand::SetOutgoingVideoTrackEnabled { enabled: !muted });
        commands.push(EngineCommand::SetOutgoingVideoMuted { client_id, muted });
        commands
    }

    /// `group_ring`: ring every member of the group.
    pub fn group_ring(&self, client_id: ClientId) -> (command: EngineCommand)
        ensures
            command matches EngineCommand::GroupRing { client_id: client } && client == client_id,
    {
        EngineCommand::GroupRing { client_id }
    }

    /// `group_connect`.
    pub fn group_connect(&self, client_id: ClientId) -> (command: EngineCommand)
        ensures
            command matches EngineCommand::Connect { client_id: client } && client == client_id,
    {
        EngineCommand::Connect { client_id }
    }

    /// `setMembershipProof`.
    pub fn set_membership_proof(&self, client_id: ClientId, token: &JByteArray) -> (command:
        EngineCommand)
        ensures
            command matches EngineCommand::SetMembershipProof { client_id: client, proof }
                && client == client_id && proof@ == token@,
    {
        EngineCommand::SetMembershipProof { client_id, proof: token.to_vec_u8() }
    }

    /// `setGroupMembers`.
    ///
    /// Fails with `InvalidGroupMemberBuffer` exactly where the buffer is not
    /// a whole number of records.
    pub fn set_group_members(&self, client_id: ClientId, group_info: &JByteArray) -> (command:
        Result<EngineCommand, BridgeError>)
        ensures
            command is Ok <==> is_member_buffer(group_info@),
            command matches Ok(c) ==> c matches EngineCommand::SetGroupMembers {
                client_id: client,
                members,
            } && client == client_id && member_views(members@) == decoded_members(group_info@),
            command matches Err(e) ==> e == BridgeError::InvalidGroupMemberBuffer,
    {
        let members = deserialize_to_group_member_info(group_info.to_vec_u8())?;
        Ok(EngineCommand::SetGroupMembers { client_id, members })
    }

    /// `setDataMode`.
    pub fn set_data_mode(&self, client_id: ClientId, data_mode: i32) -> (command: EngineCommand)
        ensures
            command matches EngineCommand::SetDataMode { client_id: client, data_mode: mode }
                && client == client_id && mode == data_mode,
    {
        EngineCommand::SetDataMode { client_id, data_mode }
    }

    /// `join`.
    pub fn join(&self, client_id: ClientId) -> (command: EngineCommand)
        ensures
            command matches EngineCommand::Join { client_id: client } && client == client_id,
    {
        EngineCommand::Join { client_id }
    }

    /// `disconnect`: outgoing audio and video are disabled, the content hint
    /// is reset, the frames held for the host are dropped, and the client
    /// leaves.
    pub fn disconnect(&mut self, client_id: ClientId) -> (commands: Vec<EngineCommand>)
        ensures
            commands@.len() == 4,
            commands@[0] matches EngineCommand::SetOutgoingAudioTrackEnabled { enabled }
                && !enabled,
            commands@[1] matches EngineCommand::SetOutgoingVideoTrackEnabled { enabled }
                && !enabled,
            commands@[2] matches EngineCommand::SetVideoContentHint { is_screenshare }
                && !is_screenshare,
            commands@[3] matches EngineCommand::Disconnect { client_id: client } && client
                == client_id,
            !final(self).audio_enabled(),
            !final(self).video_enabled(),
            final(self).frames() == Map::<u32, F>::empty(),
            final(self).spec_reporter() == old(self).spec_reporter(),
    {
        self.outgoing_audio_enabled = false;
        self.outgoing_video_enabled = false;
        self.incoming_video_sink.clear();
        let mut commands: Vec<EngineCommand> = Vec::new();
        commands.push(EngineCommand::SetOutgoingAudioTrackEnabled { enabled: false });
        commands.push(EngineCommand::SetOutgoingVideoTrackEnabled { enabled: false });
        commands.push(EngineCommand::SetVideoContentHint { is_screenshare: false });
        commands.push(EngineCommand::Disconnect { client_id });
        commands
    }

    /// `requestVideo`: ask for the video of one participant, at the fixed
    /// size and without a frame rate.
    pub fn request_video(&self, client_id: ClientId, demux_id: DemuxId) -> (command: EngineCommand)
        ensures
            command matches EngineCommand::RequestVideo {
                client_id: client,
                requests,
                active_speaker_height,
            } && client == client_id && active_speaker_height == ACTIVE_SPEAKER_HEIGHT
                && requests@ == seq![
                VideoRequest {
                    demux_id,
                    width: REQUESTED_VIDEO_WIDTH,
                    height: REQUESTED_VIDEO_HEIGHT,
                    framerate: None,
                },
            ],
    {
        let mut rendered_resolutions: Vec<VideoRequest> = Vec::new();
        rendered_resolutions.push(
            VideoRequest {
                demux_id,
                width: REQUESTED_VIDEO_WIDTH,
                height: REQUESTED_VIDEO_HEIGHT,
                framerate: None,
            },
        );
        assert(rendered_resolutions@ =~= seq![
            VideoRequest {
                demux_id,
                width: REQUESTED_VIDEO_WIDTH,
                height: REQUESTED_VIDEO_HEIGHT,
                framerate: None,
            },
        ]);
        EngineCommand::RequestVideo {
            client_id,
            requests: rendered_resolutions,
            active_speaker_height: ACTIVE_SPEAKER_HEIGHT,
        }
    }
}

/// `createCallEndpoint`: makes an endpoint and issues the handle that the
/// host names it by from now on.
///
/// Fails with `CapacityExceeded`, and changes nothing, exactly where the
/// table has no room.
pub fn create_call_endpoint<F>(table: &mut HandleTable<CallEndpoint<F>>) -> (handle: Result<
    i64,
    BridgeError,
>)
    ensures
        handle is Ok <==> old(table).has_room(),
        handle matches Ok(h) ==> {
            &&& h > 0
            &&& !old(table)@.contains_key(h)
            &&& !old(table).retired().contains(h)
            &&& final(table)@.dom() == old(table)@.dom().insert(h)
            &&& forall|other: i64|
                old(table)@.contains_key(other) ==> final(table)@[other] == old(table)@[other]
            &&& !final(table)@[h].audio_enabled()
            &&& !final(table)@[h].video_enabled()
            &&& final(table)@[h].frames() == Map::<u32, F>::empty()
            &&& final(table)@[h].spec_reporter().holders() == REPORTER_COPIES
            &&& final(table).retired() == old(table).retired()
        },
        handle matches Err(e) ==> {
            &&& e == BridgeError::CapacityExceeded
            &&& final(table)@ == old(table)@
            &&& final(table).retired() == old(table).retired()
        },
{
    match table.insert(CallEndpoint::new()) {
        Some(h) => Ok(h),
        None => Err(BridgeError::CapacityExceeded),
    }
}

} // verus!
