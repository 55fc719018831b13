//! The event reporter: the translation of every engine event into the
//! notifications that the host receives for it.
//!
//! The reporter decides; it does not call. `send` returns the notifications
//! in the order in which they are to be made, each naming one entry of the
//! callback table together with its marshaled arguments. Whoever holds the
//! table's function references makes the calls on the thread that raised the
//! event.

use vstd::prelude::*;
use crate::error::DispatchError;
use crate::event::{
    AudioLevel, CallId, CallState, ClientId, DeviceId, Event, GroupId, GroupUpdate, Message,
    NetworkRoute, PeekInfo, RemoteDeviceState, SignalingMessageUrgency, UserId,
};
use crate::http::{
    decoded_headers, header_pairs, lemma_headers_round_trip, pack_body, pack_headers, packed_body,
    packed_headers, pairs_fit, Request,
};
use crate::jtypes::{IceCandidate, JArrayByte};
use crate::table::{after_release, after_share, release_fires, CallbackTable};
use crate::wire::{
    lemma_parse_packed_segments, length_modulus, parsed_segments, segment_views, segments_fit,
};

verus! {

/// The device count limit that every peek notification reports.
pub const MAX_PEEK_DEVICES: i64 = 50;

/// The call and the device under which media toggles are reported, whichever
/// call they belong to.
pub const TOGGLE_CHANNEL: u64 = 1;

/// The device under which call states are reported.
pub const STATE_DEVICE: u64 = 1;

/// The status code of a hangup.
pub const STATUS_HANGUP: i32 = 11;

/// The status code of a media toggle.
pub const STATUS_TOGGLE: i32 = 22;

/// The entries of the callback table, and the host methods reached through
/// the runtime attachment.
#[derive(Clone, Copy, Debug, PartialEq, Eq, Structural)]
pub enum CallbackEntry {
    SignalingMessageOffer,
    SignalingMessageAnswer,
    SignalingMessageIce,
    StatusCallback,
    SendCallMessage,
    SendCallMessageToGroup,
    GroupRequestMembershipProof,
    GroupRequestGroupMembers,
    GroupConnectionStateChanged,
    GroupJoinStateChanged,
    GroupEnded,
    GroupRing,
    MakeHttpRequest,
    HandleRemoteDevicesChanged,
    HandlePeekResponse,
    HandlePeekChanged,
}

/// One notification to make: an entry and its marshaled arguments.
#[derive(Clone, Debug, PartialEq, Eq)]
pub enum HostCall {
    SignalingMessageOffer { offer: JArrayByte },
    SignalingMessageAnswer { answer: JArrayByte },
    SignalingMessageIce { ice: JArrayByte },
    StatusCallback { call_id: u64, device_id: u64, code: i32, extra: i32 },
    SendCallMessage { recipient: JArrayByte, message: JArrayByte, urgency: i32 },
    SendCallMessageToGroup { group_id: JArrayByte, message: JArrayByte, urgency: i32 },
    GroupRequestMembershipProof { client_id: ClientId },
    GroupRequestGroupMembers { client_id: ClientId },
    GroupConnectionStateChanged { client_id: ClientId, connection_state: i32 },
    GroupJoinStateChanged { client_id: ClientId, join_state: i32 },
    GroupEnded { client_id: ClientId, reason: i32 },
    GroupRing { group_id: JArrayByte, ring_id: i64, sender_id: JArrayByte, update: i32 },
    MakeHttpRequest { url: String, method: i8, request_id: i32, headers: Vec<u8>, body: Vec<u8> },
    HandleRemoteDevicesChanged { demux_ids: Vec<i64> },
    HandlePeekResponse {
        joined_members: Vec<UserId>,
        creator: Option<UserId>,
        era_id: Option<String>,
        max_devices: i64,
        device_count: i64,
    },
    HandlePeekChanged {
        joined_members: Vec<UserId>,
        creator: Option<UserId>,
        era_id: Option<String>,
        max_devices: i64,
        device_count: i64,
    },
}

/// The five values of a peek notification.
pub struct PeekModel {
    pub joined_members: Seq<Seq<u8>>,
    pub creator: Option<Seq<u8>>,
    pub era_id: Option<Seq<char>>,
    pub max_devices: i64,
    pub device_count: i64,
}

/// A notification as a plain value: the entry and the arguments that the
/// host sees.
pub enum CallModel {
    SignalingMessageOffer { offer: Seq<u8> },
    SignalingMessageAnswer { answer: Seq<u8> },
    SignalingMessageIce { ice: Seq<u8> },
    StatusCallback { call_id: u64, device_id: u64, code: i32, extra: i32 },
    SendCallMessage { recipient: Seq<u8>, message: Seq<u8>, urgency: i32 },
    SendCallMessageToGroup { group_id: Seq<u8>, message: Seq<u8>, urgency: i32 },
    GroupRequestMembershipProof { client_id: ClientId },
    GroupRequestGroupMembers { client_id: ClientId },
    GroupConnectionStateChanged { client_id: ClientId, connection_state: i32 },
    GroupJoinStateChanged { client_id: ClientId, join_state: i32 },
    GroupEnded { client_id: ClientId, reason: i32 },
    GroupRing { group_id: Seq<u8>, ring_id: i64, sender_id: Seq<u8>, update: i32 },
    MakeHttpRequest {
        url: Seq<char>,
        method: i8,
        request_id: i32,
        headers: Seq<u8>,
        body: Seq<u8>,
    },
    HandleRemoteDevicesChanged { demux_ids: Seq<i64> },
    HandlePeekResponse { peek: PeekModel },
    HandlePeekChanged { peek: PeekModel },
}

/// Optional bytes as a plain value.
pub open spec fn bytes_option(bytes: Option<Vec<u8>>) -> Option<Seq<u8>> {
    match bytes {
        Some(b) => Some(b@),
        None => None,
    }
}

/// An optional text as a plain value.
pub open spec fn text_option(text: Option<String>) -> Option<Seq<char>> {
    match text {
        Some(t) => Some(t@),
        None => None,
    }
}

impl View for HostCall {
    type V = CallModel;

    open spec fn view(&self) -> CallModel {
        match *self {
            HostCall::SignalingMessageOffer { offer } => CallModel::SignalingMessageOffer {
                offer: offer@,
            },
            HostCall::SignalingMessageAnswer { answer } => CallModel::SignalingMessageAnswer {
                answer: answer@,
            },
            HostCall::SignalingMessageIce { ice } => CallModel::SignalingMessageIce { ice: ice@ },
            HostCall::StatusCallback { call_id, device_id, code, extra } => {
                CallModel::StatusCallback { call_id, device_id, code, extra }
            },
            HostCall::SendCallMessage { recipient, message, urgency } => {
                CallModel::SendCallMessage { recipient: recipient@, message: message@, urgency }
            },
            HostCall::SendCallMessageToGroup { group_id, message, urgency } => {
                CallModel::SendCallMessageToGroup { group_id: group_id@, message: message@, urgency }
            },
            HostCall::GroupRequestMembershipProof { client_id } => {
                CallModel::GroupRequestMembershipProof { client_id }
            },
            HostCall::GroupRequestGroupMembers { client_id } => {
                CallModel::GroupRequestGroupMembers { client_id }
            },
            HostCall::GroupConnectionStateChanged { client_id, connection_state } => {
                CallModel::GroupConnectionStateChanged { client_id, connection_state }
            },
            HostCall::GroupJoinStateChanged { client_id, join_state } => {
                CallModel::GroupJoinStateChanged { client_id, join_state }
            },
            HostCall::GroupEnded { client_id, reason } => CallModel::GroupEnded {
                client_id,
                reason,
            },
            HostCall::GroupRing { group_id, ring_id, sender_id, update } => CallModel::GroupRing {
                group_id: group_id@,
                ring_id,
                sender_id: sender_id@,
                update,
            },
            HostCall::MakeHttpRequest { url, method, request_id, headers, body } => {
                CallModel::MakeHttpRequest {
                    url: url@,
                    method,
                    request_id,
                    headers: headers@,
                    body: body@,
                }
            },
            HostCall::HandleRemoteDevicesChanged { demux_ids } => {
                CallModel::HandleRemoteDevicesChanged { demux_ids: demux_ids@ }
            },
            HostCall::HandlePeekResponse {
                joined_members,
                creator,
                era_id,
                max_devices,
                device_count,
            } => CallModel::HandlePeekResponse {
                peek: PeekModel {
                    joined_members: segment_views(joined_members@),
                    creator: bytes_option(creator),
                    era_id: text_option(era_id),
                    max_devices,
                    device_count,
                },
            },
            HostCall::HandlePeekChanged {
                joined_members,
                creator,
                era_id,
                max_devices,
                device_count,
            } => CallModel::HandlePeekChanged {
                peek: PeekModel {
                    joined_members: segment_views(joined_members@),
                    creator: bytes_option(creator),
                    era_id: text_option(era_id),
                    max_devices,
                    device_count,
                },
            },
        }
    }
}

impl CallModel {
    /// The entry that the notification invokes.
    pub open spec fn entry(self) -> CallbackEntry {
        match self {
            CallModel::SignalingMessageOffer { .. } => CallbackEntry::SignalingMessageOffer,
            CallModel::SignalingMessageAnswer { .. } => CallbackEntry::SignalingMessageAnswer,
            CallModel::SignalingMessageIce { .. } => CallbackEntry::SignalingMessageIce,
            CallModel::StatusCallback { .. } => CallbackEntry::StatusCallback,
            CallModel::SendCallMessage { .. } => CallbackEntry::SendCallMessage,
            CallModel::SendCallMessageToGroup { .. } => CallbackEntry::SendCallMessageToGroup,
            CallModel::GroupRequestMembershipProof { .. } => {
                CallbackEntry::GroupRequestMembershipProof
            },
            CallModel::GroupRequestGroupMembers { .. } => CallbackEntry::GroupRequestGroupMembers,
            CallModel::GroupConnectionStateChanged { .. } => {
                CallbackEntry::GroupConnectionStateChanged
            },
            CallModel::GroupJoinStateChanged { .. } => CallbackEntry::GroupJoinStateChanged,
            CallModel::GroupEnded { .. } => CallbackEntry::GroupEnded,
            CallModel::GroupRing { .. } => CallbackEntry::GroupRing,
            CallModel::MakeHttpRequest { .. } => CallbackEntry::MakeHttpRequest,
            CallModel::HandleRemoteDevicesChanged { .. } => {
                CallbackEntry::HandleRemoteDevicesChanged
            },
            CallModel::HandlePeekResponse { .. } => CallbackEntry::HandlePeekResponse,
            CallModel::HandlePeekChanged { .. } => CallbackEntry::HandlePeekChanged,
        }
    }

    /// Whether the notification is made through the runtime attachment, so
    /// that the calling thread must be attached first.
    pub open spec fn needs_attachment(self) -> bool {
        match self {
            CallModel::MakeHttpRequest { .. } => true,
            CallModel::HandleRemoteDevicesChanged { .. } => true,
            CallModel::HandlePeekResponse { .. } => true,
            CallModel::HandlePeekChanged { .. } => true,
            _ => false,
        }
    }
}

impl HostCall {
    /// The entry that the notification invokes.
    pub fn entry(&self) -> (entry: CallbackEntry)
        ensures
            entry == self@.entry(),
    {
        match self {
            HostCall::SignalingMessageOffer { .. } => CallbackEntry::SignalingMessageOffer,
            HostCall::SignalingMessageAnswer { .. } => CallbackEntry::SignalingMessageAnswer,
            HostCall::SignalingMessageIce { .. } => CallbackEntry::SignalingMessageIce,
            HostCall::StatusCallback { .. } => CallbackEntry::StatusCallback,
            HostCall::SendCallMessage { .. } => CallbackEntry::SendCallMessage,
            HostCall::SendCallMessageToGroup { .. } => CallbackEntry::SendCallMessageToGroup,
            HostCall::GroupRequestMembershipProof { .. } => {
                CallbackEntry::GroupRequestMembershipProof
            },
            HostCall::GroupRequestGroupMembers { .. } => CallbackEntry::GroupRequestGroupMembers,
            HostCall::GroupConnectionStateChanged { .. } => {
                CallbackEntry::GroupConnectionStateChanged
            },
            HostCall::GroupJoinStateChanged { .. } => CallbackEntry::GroupJoinStateChanged,
            HostCall::GroupEnded { .. } => CallbackEntry::GroupEnded,
            HostCall::GroupRing { .. } => CallbackEntry::GroupRing,
            HostCall::MakeHttpRequest { .. } => CallbackEntry::MakeHttpRequest,
            HostCall::HandleRemoteDevicesChanged { .. } => {
                CallbackEntry::HandleRemoteDevicesChanged
            },
            HostCall::HandlePeekResponse { .. } => CallbackEntry::HandlePeekResponse,
            HostCall::HandlePeekChanged { .. } => CallbackEntry::HandlePeekChanged,
        }
    }

    /// Whether the calling thread must be attached to the host runtime
    /// before the notification is made.
    pub fn needs_attachment(&self) -> (needed: bool)
        ensures
            needed == self@.needs_attachment(),
    {
        match self {
            HostCall::MakeHttpRequest { .. } => true,
            HostCall::HandleRemoteDevicesChanged { .. } => true,
            HostCall::HandlePeekResponse { .. } => true,
            HostCall::HandlePeekChanged { .. } => true,
            _ => false,
        }
    }
}

/// What becomes of a notification once the calling thread has tried to
/// attach to the host runtime: it is made, unless it needs the attachment
/// and the attachment failed. Then it is dropped, for good: nothing is
/// retried and nothing is queued.
pub fn deliverable(call: HostCall, attached: bool) -> (kept: Option<HostCall>)
    ensures
        kept == if call@.needs_attachment() && !attached {
            None
        } else {
            Some(call)
        },
{
    if call.needs_attachment() && !attached {
        None
    } else {
        Some(call)
    }
}

/// The notifications of a list as plain values.
pub open spec fn call_views(calls: Seq<HostCall>) -> Seq<CallModel> {
    Seq::new(calls.len(), |i: int| calls[i]@)
}

/// What the status callback receives for a call state: the call, the state
/// device, and for an incoming or outgoing call the direction and the media
/// type, for every other state ten times its index and zero.
pub open spec fn call_state_status(call_id: u64, state: CallState) -> CallModel {
    match state {
        CallState::Incoming(media) => CallModel::StatusCallback {
            call_id,
            device_id: STATE_DEVICE,
            code: 0,
            extra: media.spec_code(),
        },
        CallState::Outgoing(media) => CallModel::StatusCallback {
            call_id,
            device_id: STATE_DEVICE,
            code: 1,
            extra: media.spec_code(),
        },
        CallState::Ringing => CallModel::StatusCallback {
            call_id,
            device_id: STATE_DEVICE,
            code: 10,
            extra: 0,
        },
        CallState::Connected => CallModel::StatusCallback {
            call_id,
            device_id: STATE_DEVICE,
            code: 20,
            extra: 0,
        },
        CallState::Connecting => CallModel::StatusCallback {
            call_id,
            device_id: STATE_DEVICE,
            code: 30,
            extra: 0,
        },
        CallState::Concluded => CallModel::StatusCallback {
            call_id,
            device_id: STATE_DEVICE,
            code: 40,
            extra: 0,
        },
        CallState::Ended => CallModel::StatusCallback {
            call_id,
            device_id: STATE_DEVICE,
            code: 70,
            extra: 0,
        },
    }
}

/// The media that a remote toggle concerns.
#[derive(Clone, Copy, Debug, PartialEq, Eq, Structural)]
pub enum RemoteMedia {
    Audio,
    Video,
    SharingScreen,
}

/// The code that reports a toggle: one of a pair per media, the first for
/// enabled, the second for disabled.
pub open spec fn toggle_code(media: RemoteMedia, enabled: bool) -> i32 {
    match media {
        RemoteMedia::Audio => if enabled {
            41i32
        } else {
            42i32
        },
        RemoteMedia::Video => if enabled {
            31i32
        } else {
            32i32
        },
        RemoteMedia::SharingScreen => if enabled {
            33i32
        } else {
            34i32
        },
    }
}

/// What the status callback receives for a media toggle.
pub open spec fn toggle_status(media: RemoteMedia, enabled: bool) -> CallModel {
    CallModel::StatusCallback {
        call_id: TOGGLE_CHANNEL,
        device_id: TOGGLE_CHANNEL,
        code: STATUS_TOGGLE,
        extra: toggle_code(media, enabled),
    }
}

/// The notifications for a signaling message: one for an offer, an answer or
/// a hangup, one per candidate for candidates, none for a busy message.
pub open spec fn planned_signaling(call_id: CallId, message: Message) -> Seq<CallModel> {
    match message {
        Message::Offer(offer) => seq![CallModel::SignalingMessageOffer { offer: offer.opaque@ }],
        Message::Answer(answer) => seq![
            CallModel::SignalingMessageAnswer { answer: answer.opaque@ },
        ],
        Message::Ice(ice) => Seq::new(
            ice.candidates@.len(),
            |i: int| CallModel::SignalingMessageIce { ice: ice.candidates@[i]@ },
        ),
        Message::Hangup(hangup) => seq![
            CallModel::StatusCallback {
                call_id: call_id.id,
                device_id: match hangup.spec_type_and_device_id().1 {
                    Some(device_id) => device_id as u64,
                    None => 0u64,
                },
                code: STATUS_HANGUP,
                extra: hangup.spec_type_and_device_id().0.spec_code(),
            },
        ],
        Message::Busy => Seq::empty(),
    }
}

/// The notification for a request: the method code, the request number as a
/// signed 32-bit value, the packed headers and the length-prefixed body.
pub open spec fn planned_request(request_id: u32, request: Request) -> CallModel {
    CallModel::MakeHttpRequest {
        url: request.url@,
        method: request.method.spec_code(),
        request_id: request_id as i32,
        headers: packed_headers(header_pairs(request.headers@)),
        body: packed_body(bytes_option(request.body)),
    }
}

/// The five values reported for a peek.
pub open spec fn peek_model(info: PeekInfo) -> PeekModel {
    PeekModel {
        joined_members: segment_views(info.joined_members@),
        creator: bytes_option(info.creator),
        era_id: text_option(info.era_id),
        max_devices: MAX_PEEK_DEVICES,
        device_count: info.device_count as i64,
    }
}

/// The five values reported for a peek that failed: nobody joined, no
/// creator, no era, no device.
pub open spec fn empty_peek_model() -> PeekModel {
    PeekModel {
        joined_members: Seq::empty(),
        creator: None,
        era_id: None,
        max_devices: MAX_PEEK_DEVICES,
        device_count: 0,
    }
}

/// The identifiers of the remote devices, as the host's 64-bit numbers.
pub open spec fn demux_numbers(states: Seq<RemoteDeviceState>) -> Seq<i64> {
    Seq::new(states.len(), |i: int| states[i].demux_id as i64)
}

/// The notifications for a group update: one each, but none for a change of
/// network route.
pub open spec fn planned_group_update(update: GroupUpdate) -> Seq<CallModel> {
    match update {
        GroupUpdate::RequestMembershipProof(client_id) => seq![
            CallModel::GroupRequestMembershipProof { client_id },
        ],
        GroupUpdate::RequestGroupMembers(client_id) => seq![
            CallModel::GroupRequestGroupMembers { client_id },
        ],
        GroupUpdate::ConnectionStateChanged(client_id, state) => seq![
            CallModel::GroupConnectionStateChanged {
                client_id,
                connection_state: state.spec_ordinal(),
            },
        ],
        GroupUpdate::NetworkRouteChanged(_, _) => Seq::empty(),
        GroupUpdate::JoinStateChanged(client_id, state) => seq![
            CallModel::GroupJoinStateChanged { client_id, join_state: state.spec_ordinal() },
        ],
        GroupUpdate::RemoteDeviceStatesChanged(_, states) => seq![
            CallModel::HandleRemoteDevicesChanged { demux_ids: demux_numbers(states@) },
        ],
        GroupUpdate::PeekChanged { client_id, peek_info } => seq![
            CallModel::HandlePeekChanged { peek: peek_model(peek_info) },
        ],
        GroupUpdate::PeekResult { request_id, peek_result } => seq![
            CallModel::HandlePeekResponse {
                peek: match peek_result {
                    Some(info) => peek_model(info),
                    None => empty_peek_model(),
                },
            },
        ],
        GroupUpdate::Ended(client_id, reason) => seq![CallModel::GroupEnded { client_id, reason }],
        GroupUpdate::Ring { group_id, ring_id, sender_id, update } => seq![
            CallModel::GroupRing {
                group_id: group_id@,
                ring_id,
                sender_id: sender_id@,
                update: update.spec_code(),
            },
        ],
    }
}

/// The notifications that an event is translated into, in the order in which
/// they are made.
pub open spec fn planned_calls(event: Event) -> Seq<CallModel> {
    match event {
        Event::SendSignaling(_, _, call_id, message) => planned_signaling(call_id, message),
        Event::SendCallMessage { recipient_uuid, message, urgency } => seq![
            CallModel::SendCallMessage {
                recipient: recipient_uuid@,
                message: message@,
                urgency: urgency.spec_code(),
            },
        ],
        Event::SendCallMessageToGroup { group_id, message, urgency } => seq![
            CallModel::SendCallMessageToGroup {
                group_id: group_id@,
                message: message@,
                urgency: urgency.spec_code(),
            },
        ],
        Event::CallState(_, call_id, state) => seq![call_state_status(call_id.id, state)],
        Event::RemoteAudioStateChange(_, enabled) => seq![
            toggle_status(RemoteMedia::Audio, enabled),
        ],
        Event::RemoteVideoStateChange(_, enabled) => seq![
            toggle_status(RemoteMedia::Video, enabled),
        ],
        Event::RemoteSharingScreenChange(_, enabled) => seq![
            toggle_status(RemoteMedia::SharingScreen, enabled),
        ],
        Event::GroupUpdate(update) => planned_group_update(update),
        Event::SendHttpRequest { request_id, request } => seq![
            planned_request(request_id, request),
        ],
        Event::NetworkRouteChange(_, _) => Seq::empty(),
        Event::AudioLevels { .. } => Seq::empty(),
        Event::LowBandwidthForVideo { .. } => Seq::empty(),
    }
}

/// The events for which the host has no entry: they are dropped.
pub open spec fn is_unreported(event: Event) -> bool {
    match event {
        Event::SendSignaling(_, _, _, Message::Busy) => true,
        Event::GroupUpdate(GroupUpdate::NetworkRouteChanged(_, _)) => true,
        Event::NetworkRouteChange(_, _) => true,
        Event::AudioLevels { .. } => true,
        Event::LowBandwidthForVideo { .. } => true,
        _ => false,
    }
}

/// The candidates of an event that carries candidates to send.
pub open spec fn candidates_of(event: Event) -> Option<Seq<IceCandidate>> {
    match event {
        Event::SendSignaling(_, _, _, Message::Ice(ice)) => Some(ice.candidates@),
        _ => None,
    }
}

/// Every event with an entry of its own is translated into exactly one
/// notification; candidates to send give one notification each, in order and
/// all through the same entry; an event without an entry gives none.
pub proof fn lemma_one_notification_per_event(event: Event)
    ensures
        !is_unreported(event) && candidates_of(event) is None ==> planned_calls(event).len() == 1,
        is_unreported(event) ==> planned_calls(event).len() == 0,
        candidates_of(event) matches Some(candidates) ==> {
            &&& planned_calls(event).len() == candidates.len()
            &&& forall|i: int|
                0 <= i < candidates.len() ==> #[trigger] planned_calls(event)[i]
                    == (CallModel::SignalingMessageIce { ice: candidates[i]@ })
        },
{
}

/// The host reads back from the notification of a request what the request
/// held: its headers as the same ordered pairs, and its body as the one
/// segment of the body buffer, as long as every length fits its field.
pub proof fn lemma_request_reads_back(request_id: u32, request: Request)
    requires
        pairs_fit(header_pairs(request.headers@)),
        request.body matches Some(body) ==> body@.len() < length_modulus(),
    ensures
        planned_request(request_id, request) matches CallModel::MakeHttpRequest {
            headers,
            body,
            ..
        } && decoded_headers(headers) == Some(header_pairs(request.headers@)) && parsed_segments(
            body,
        ) == Some(
            seq![
                match request.body {
                    Some(bytes) => bytes@,
                    None => Seq::<u8>::empty(),
                },
            ],
        ),
{
    lemma_headers_round_trip(header_pairs(request.headers@));
    let payload = match request.body {
        Some(bytes) => bytes@,
        None => Seq::<u8>::empty(),
    };
    let one = seq![payload];
    assert(segments_fit(one));
    lemma_parse_packed_segments(one);
    assert(one.drop_first() =~= Seq::<Seq<u8>>::empty());
    assert(crate::wire::packed_segments(one) =~= packed_body(bytes_option(request.body))) by {
        reveal_with_fuel(crate::wire::packed_segments, 2);
    }
}

/// A list of one notification.
fn single(call: HostCall) -> (calls: Vec<HostCall>)
    ensures
        call_views(calls@) == seq![call@],
{
    let mut calls: Vec<HostCall> = Vec::new();
    calls.push(call);
    assert(call_views(calls@) =~= seq![call@]);
    calls
}

/// A list of no notification.
fn nothing() -> (calls: Vec<HostCall>)
    ensures
        call_views(calls@) == Seq::<CallModel>::empty(),
{
    let calls: Vec<HostCall> = Vec::new();
    assert(call_views(calls@) =~= Seq::<CallModel>::empty());
    calls
}

/// The status notification for a call state.
pub fn encode_call_state(call_id: CallId, state: CallState) -> (call: HostCall)
    ensures
        call@ == call_state_status(call_id.id, state),
{
    let (code, extra): (i32, i32) = match state {
        CallState::Incoming(media) => (0, media.code()),
        CallState::Outgoing(media) => (1, media.code()),
        CallState::Ringing => (10, 0),
        CallState::Connected => (20, 0),
        CallState::Connecting => (30, 0),
        CallState::Concluded => (40, 0),
        CallState::Ended => (70, 0),
    };
    HostCall::StatusCallback { call_id: call_id.as_u64(), device_id: STATE_DEVICE, code, extra }
}

/// The status notification for a media toggle.
pub fn encode_toggle(media: RemoteMedia, enabled: bool) -> (call: HostCall)
    ensures
        call@ == toggle_status(media, enabled),
{
    let extra: i32 = match media {
        RemoteMedia::Audio => if enabled {
            41
        } else {
            42
        },
        RemoteMedia::Video => if enabled {
            31
        } else {
            32
        },
        RemoteMedia::SharingScreen => if enabled {
            33
        } else {
            34
        },
    };
    HostCall::StatusCallback {
        call_id: TOGGLE_CHANNEL,
        device_id: TOGGLE_CHANNEL,
        code: STATUS_TOGGLE,
        extra,
    }
}

/// The notifications for a signaling message.
pub fn translate_signaling(call_id: CallId, message: Message) -> (calls: Vec<HostCall>)
    ensures
        call_views(calls@) == planned_signaling(call_id, message),
{
    match message {
        Message::Offer(offer) => single(
            HostCall::SignalingMessageOffer { offer: JArrayByte::new(offer.opaque) },
        ),
        Message::Answer(answer) => single(
            HostCall::SignalingMessageAnswer { answer: JArrayByte::new(answer.opaque) },
        ),
        Message::Ice(ice) => {
            let mut calls: Vec<HostCall> = Vec::new();
            let n: usize = ice.candidates.len();
            let mut i: usize = 0;
            while i < n
                invariant
                    n == ice.candidates@.len(),
                    i <= n,
                    calls@.len() == i,
                    forall|k: int|
                        0 <= k < i ==> (#[trigger] calls@[k])@ == (CallModel::SignalingMessageIce {
                            ice: ice.candidates@[k]@,
                        }),
                decreases n - i,
            {
                let opaque = &ice.candidates[i].opaque;
                let copy = crate::wire::copy_range(opaque.as_slice(), 0, opaque.len());
                assert(copy@ =~= opaque@);
                calls.push(HostCall::SignalingMessageIce { ice: JArrayByte::new(copy) });
                i = i + 1;
            }
            assert(call_views(calls@) =~= planned_signaling(call_id, message));
            calls
        },
        Message::Hangup(hangup) => {
            let (hangup_type, hangup_device_id) = hangup.to_type_and_device_id();
            let device_id: u64 = match hangup_device_id {
                Some(device_id) => device_id as u64,
                None => 0,
            };
            single(
                HostCall::StatusCallback {
                    call_id: call_id.as_u64(),
                    device_id,
                    code: STATUS_HANGUP,
                    extra: hangup_type.code(),
                },
            )
        },
        Message::Busy => nothing(),
    }
}

/// The notification for a request.
pub fn encode_request(request_id: u32, request: Request) -> (call: HostCall)
    ensures
        call@ == planned_request(request_id, request),
{
    let headers = pack_headers(&request.headers);
    let body = pack_body(&request.body);
    HostCall::MakeHttpRequest {
        url: request.url,
        method: request.method.code(),
        request_id: #[verifier::truncate]
        (request_id as i32),
        headers,
        body,
    }
}

/// The identifiers of the remote devices as the host's 64-bit numbers.
pub fn encode_remote_devices(states: &Vec<RemoteDeviceState>) -> (call: HostCall)
    ensures
        call@ == (CallModel::HandleRemoteDevicesChanged { demux_ids: demux_numbers(states@) }),
{
    let mut demux_ids: Vec<i64> = Vec::new();
    let n: usize = states.len();
    let mut i: usize = 0;
    while i < n
        invariant
            n == states@.len(),
            i <= n,
            demux_ids@.len() == i,
            forall|k: int| 0 <= k < i ==> #[trigger] demux_ids@[k] == states@[k].demux_id as i64,
        decreases n - i,
    {
        demux_ids.push(states[i].demux_id as i64);
        i = i + 1;
    }
    assert(demux_ids@ =~= demux_numbers(states@));
    HostCall::HandleRemoteDevicesChanged { demux_ids }
}

/// The notifications for a group update.
pub fn translate_group_update(update: GroupUpdate) -> (calls: Vec<HostCall>)
    ensures
        call_views(calls@) == planned_group_update(update),
{
    match update {
        GroupUpdate::RequestMembershipProof(client_id) => single(
            HostCall::GroupRequestMembershipProof { client_id },
        ),
        GroupUpdate::RequestGroupMembers(client_id) => single(
            HostCall::GroupRequestGroupMembers { client_id },
        ),
        GroupUpdate::ConnectionStateChanged(client_id, connection_state) => single(
            HostCall::GroupConnectionStateChanged {
                client_id,
                connection_state: connection_state.ordinal(),
            },
        ),
        GroupUpdate::NetworkRouteChanged(_client_id, _network_route) => nothing(),
        GroupUpdate::JoinStateChanged(client_id, join_state) => single(
            HostCall::GroupJoinStateChanged { client_id, join_state: join_state.ordinal() },
        ),
        GroupUpdate::RemoteDeviceStatesChanged(_client_id, remote_device_states) => single(
            encode_remote_devices(&remote_device_states),
        ),
        GroupUpdate::PeekChanged { client_id: _, peek_info } => single(
            HostCall::HandlePeekChanged {
                joined_members: peek_info.joined_members,
                creator: peek_info.creator,
                era_id: peek_info.era_id,
                max_devices: MAX_PEEK_DEVICES,
                device_count: #[verifier::truncate]
                (peek_info.device_count as i64),
            },
        ),
        GroupUpdate::PeekResult { request_id: _, peek_result } => match peek_result {
            Some(peek_info) => single(
                HostCall::HandlePeekResponse {
                    joined_members: peek_info.joined_members,
                    creator: peek_info.creator,
                    era_id: peek_info.era_id,
                    max_devices: MAX_PEEK_DEVICES,
                    device_count: #[verifier::truncate]
                    (peek_info.device_count as i64),
                },
            ),
            None => {
                let joined_members: Vec<UserId> = Vec::new();
                assert(segment_views(joined_members@) =~= Seq::<Seq<u8>>::empty());
                single(
                    HostCall::HandlePeekResponse {
                        joined_members,
                        creator: None,
                        era_id: None,
                        max_devices: MAX_PEEK_DEVICES,
                        device_count: 0,
                    },
                )
            },
        },
        GroupUpdate::Ended(client_id, reason) => single(HostCall::GroupEnded { client_id, reason }),
        GroupUpdate::Ring { group_id, ring_id, sender_id, update } => single(
            HostCall::GroupRing {
                group_id: JArrayByte::new(group_id),
                ring_id,
                sender_id: JArrayByte::new(sender_id),
                update: update.code(),
            },
        ),
    }
}

/// Translates an event into the notifications to make for it, in order.
pub fn translate(event: Event) -> (calls: Vec<HostCall>)
    ensures
        call_views(calls@) == planned_calls(event),
{
    match event {
        Event::SendSignaling(_peer_id, _maybe_device_id, call_id, signal) => translate_signaling(
            call_id,
            signal,
        ),
        Event::SendCallMessage { recipient_uuid, message, urgency } => single(
            HostCall::SendCallMessage {
                recipient: JArrayByte::new(recipient_uuid),
                message: JArrayByte::new(message),
                urgency: urgency.code(),
            },
        ),
        Event::SendCallMessageToGroup { group_id, message, urgency } => single(
            HostCall::SendCallMessageToGroup {
                group_id: JArrayByte::new(group_id),
                message: JArrayByte::new(message),
                urgency: urgency.code(),
            },
        ),
        Event::CallState(_peer_id, call_id, state) => single(encode_call_state(call_id, state)),
        Event::RemoteAudioStateChange(_peer_id, enabled) => single(
            encode_toggle(RemoteMedia::Audio, enabled),
        ),
        Event::RemoteVideoStateChange(_peer_id, enabled) => single(
            encode_toggle(RemoteMedia::Video, enabled),
        ),
        Event::RemoteSharingScreenChange(_peer_id, enabled) => single(
            encode_toggle(RemoteMedia::SharingScreen, enabled),
        ),
        Event::GroupUpdate(update) => translate_group_update(update),
        Event::SendHttpRequest { request_id, request } => single(
            encode_request(request_id, request),
        ),
        Event::NetworkRouteChange(_peer_id, _network_route) => nothing(),
        Event::AudioLevels { peer_id: _, captured_level: _, received_level: _ } => nothing(),
        Event::LowBandwidthForVideo { peer_id: _, recovered: _ } => nothing(),
    }
}

/// The one logical owner of the callback table, and the source of every
/// notification.
#[derive(Debug, PartialEq, Eq)]
pub struct EventReporter {
    table: CallbackTable,
    reported: bool,
}

impl EventReporter {
    /// The number of structural copies that hold the callback table; zero
    /// once the table is torn down.
    pub closed spec fn holders(&self) -> nat {
        self.table@
    }

    /// Whether the completion signal has been given.
    pub closed spec fn has_reported(&self) -> bool {
        self.reported
    }

    /// A reporter for a table that was just handed over: one holder, and no
    /// completion signalled.
    pub fn new() -> (reporter: Self)
        ensures
            reporter.holders() == 1,
            !reporter.has_reported(),
    {
        EventReporter { table: CallbackTable::new(), reported: false }
    }

    /// Translates an event for delivery.
    ///
    /// Fails with `TableReleased` exactly where the callback table is torn
    /// down; otherwise returns the notifications to make, in order.
    pub fn send(&self, event: Event) -> (calls: Result<Vec<HostCall>, DispatchError>)
        ensures
            calls is Ok <==> self.holders() > 0,
            calls matches Ok(list) ==> call_views(list@) == planned_calls(event),
            calls matches Err(e) ==> e == DispatchError::TableReleased,
    {
        if self.table.is_released() {
            Err(DispatchError::TableReleased)
        } else {
            Ok(translate(event))
        }
    }

    /// Signals completion. Returns whether this call was the first: every
    /// later call changes nothing.
    pub fn report(&mut self) -> (first: bool)
        ensures
            first == !old(self).has_reported(),
            final(self).has_reported(),
            final(self).holders() == old(self).holders(),
    {
        let first = !self.reported;
        self.reported = true;
        first
    }

    /// Counts one more structural copy of the reporter.
    ///
    /// Fails with `TableReleased` exactly where the table is torn down, and
    /// with `TooManyHolders` exactly where the count is at its limit; the
    /// count is then unchanged.
    pub fn add_copy(&mut self) -> (added: Result<(), DispatchError>)
        ensures
            added is Ok <==> 0 < old(self).holders() < u64::MAX,
            added is Ok ==> final(self).holders() == after_share(old(self).holders()),
            added is Err ==> final(self).holders() == old(self).holders(),
            added matches Err(e) ==> e == if old(self).holders() == 0 {
                DispatchError::TableReleased
            } else {
                DispatchError::TooManyHolders
            },
            final(self).has_reported() == old(self).has_reported(),
    {
        self.table.share()
    }

    /// Lets one structural copy go. Returns whether the host's destructor
    /// must be invoked now: exactly where this was the last copy.
    pub fn drop_copy(&mut self) -> (destroy: bool)
        ensures
            destroy == release_fires(old(self).holders()),
            final(self).holders() == after_release(old(self).holders()),
            final(self).has_reported() == old(self).has_reported(),
    {
        self.table.release()
    }

    /// Hands a signaling message to the application.
    pub fn send_signaling(
        &self,
        recipient_id: &str,
        call_id: CallId,
        receiver_device_id: Option<DeviceId>,
        msg: Message,
    ) -> (calls: Result<Vec<HostCall>, DispatchError>)
        ensures
            calls is Ok <==> self.holders() > 0,
            calls matches Ok(list) ==> call_views(list@) == planned_signaling(call_id, msg),
            calls matches Err(e) ==> e == DispatchError::TableReleased,
    {
        self.send(Event::SendSignaling(recipient_id.to_owned(), receiver_device_id, call_id, msg))
    }

    /// Hands a call message for one user to the application.
    pub fn send_call_message(
        &self,
        recipient_uuid: UserId,
        message: Vec<u8>,
        urgency: SignalingMessageUrgency,
    ) -> (calls: Result<Vec<HostCall>, DispatchError>)
        ensures
            calls is Ok <==> self.holders() > 0,
            calls matches Ok(list) ==> call_views(list@) == seq![
                CallModel::SendCallMessage {
                    recipient: recipient_uuid@,
                    message: message@,
                    urgency: urgency.spec_code(),
                },
            ],
            calls matches Err(e) ==> e == DispatchError::TableReleased,
    {
        self.send(Event::SendCallMessage { recipient_uuid, message, urgency })
    }

    /// Hands a call message for a group to the application. The message goes
    /// to the group as a whole: the host has no entry that takes a narrower
    /// list of recipients, so such a list is not forwarded.
    pub fn send_call_message_to_group(
        &self,
        group_id: GroupId,
        message: Vec<u8>,
        urgency: SignalingMessageUrgency,
        recipients_override: Vec<UserId>,
    ) -> (calls: Result<Vec<HostCall>, DispatchError>)
        ensures
            calls is Ok <==> self.holders() > 0,
            calls matches Ok(list) ==> call_views(list@) == seq![
                CallModel::SendCallMessageToGroup {
                    group_id: group_id@,
                    message: message@,
                    urgency: urgency.spec_code(),
                },
            ],
            calls matches Err(e) ==> e == DispatchError::TableReleased,
    {
        self.send(Event::SendCallMessageToGroup { group_id, message, urgency })
    }

    /// Reports the state of the call with a peer.
    pub fn handle_call_state(&self, remote_peer_id: &str, call_id: CallId, call_state: CallState) -> (calls:
        Result<Vec<HostCall>, DispatchError>)
        ensures
            calls is Ok <==> self.holders() > 0,
            calls matches Ok(list) ==> call_views(list@) == seq![
                call_state_status(call_id.id, call_state),
            ],
            calls matches Err(e) ==> e == DispatchError::TableReleased,
    {
        self.send(Event::CallState(remote_peer_id.to_owned(), call_id, call_state))
    }

    /// Takes note of a change of network route; the host is not told.
    pub fn handle_network_route(&self, remote_peer_id: &str, network_route: NetworkRoute) -> (calls:
        Result<Vec<HostCall>, DispatchError>)
        ensures
            calls is Ok <==> self.holders() > 0,
            calls matches Ok(list) ==> list@.len() == 0,
            calls matches Err(e) ==> e == DispatchError::TableReleased,
    {
        let calls = self.send(Event::NetworkRouteChange(remote_peer_id.to_owned(), network_route));
        proof {
            if calls is Ok {
                assert(call_views(calls->Ok_0@).len() == calls->Ok_0@.len());
            }
        }
        calls
    }

    /// Reports that the remote audio was enabled or disabled.
    pub fn handle_remote_audio_state(&self, remote_peer_id: &str, enabled: bool) -> (calls: Result<
        Vec<HostCall>,
        DispatchError,
    >)
        ensures
            calls is Ok <==> self.holders() > 0,
            calls matches Ok(list) ==> call_views(list@) == seq![
                toggle_status(RemoteMedia::Audio, enabled),
            ],
            calls matches Err(e) ==> e == DispatchError::TableReleased,
    {
        self.send(Event::RemoteAudioStateChange(remote_peer_id.to_owned(), enabled))
    }

    /// Reports that the remote video was enabled or disabled.
    pub fn handle_remote_video_state(&self, remote_peer_id: &str, enabled: bool) -> (calls: Result<
        Vec<HostCall>,
        DispatchError,
    >)
        ensures
            calls is Ok <==> self.holders() > 0,
            calls matches Ok(list) ==> call_views(list@) == seq![
                toggle_status(RemoteMedia::Video, enabled),
            ],
            calls matches Err(e) ==> e == DispatchError::TableReleased,
    {
        self.send(Event::RemoteVideoStateChange(remote_peer_id.to_owned(), enabled))
    }

    /// Reports that the remote side started or stopped sharing its screen.
    pub fn handle_remote_sharing_screen(&self, remote_peer_id: &str, enabled: bool) -> (calls:
        Result<Vec<HostCall>, DispatchError>)
        ensures
            calls is Ok <==> self.holders() > 0,
            calls matches Ok(list) ==> call_views(list@) == seq![
                toggle_status(RemoteMedia::SharingScreen, enabled),
            ],
            calls matches Err(e) ==> e == DispatchError::TableReleased,
    {
        self.send(Event::RemoteSharingScreenChange(remote_peer_id.to_owned(), enabled))
    }

    /// Takes note of an audio level sample; the host is not told.
    pub fn handle_audio_levels(
        &self,
        remote_peer_id: &str,
        captured_level: AudioLevel,
        received_level: AudioLevel,
    ) -> (calls: Result<Vec<HostCall>, DispatchError>)
        ensures
            calls is Ok <==> self.holders() > 0,
            calls matches Ok(list) ==> list@.len() == 0,
            calls matches Err(e) ==> e == DispatchError::TableReleased,
    {
        let calls = self.send(
            Event::AudioLevels {
                peer_id: remote_peer_id.to_owned(),
                captured_level,
                received_level,
            },
        );
        proof {
            if calls is Ok {
                assert(call_views(calls->Ok_0@).len() == calls->Ok_0@.len());
            }
        }
        calls
    }

    /// Takes note of low bandwidth for video; the host is not told.
    pub fn handle_low_bandwidth_for_video(&self, remote_peer_id: &str, recovered: bool) -> (calls:
        Result<Vec<HostCall>, DispatchError>)
        ensures
            calls is Ok <==> self.holders() > 0,
            calls matches Ok(list) ==> list@.len() == 0,
            calls matches Err(e) ==> e == DispatchError::TableReleased,
    {
        let calls = self.send(Event::LowBandwidthForVideo { peer_id: remote_peer_id.to_owned(), recovered });
        proof {
            if calls is Ok {
                assert(call_views(calls->Ok_0@).len() == calls->Ok_0@.len());
            }
        }
        calls
    }

    /// Hands a request to the host. A failure is not reported back: the
    /// request then yields no notification.
    pub fn send_request(&self, request_id: u32, request: Request) -> (calls: Vec<HostCall>)
        ensures
            call_views(calls@) == if self.holders() > 0 {
                seq![planned_request(request_id, request)]
            } else {
                Seq::<CallModel>::empty()
            },
    {
        match self.send(Event::SendHttpRequest { request_id, request }) {
            Ok(calls) => calls,
            Err(_) => nothing(),
        }
    }

    /// Reports an update about a group call.
    pub fn handle_group_update(&self, update: GroupUpdate) -> (calls: Result<
        Vec<HostCall>,
        DispatchError,
    >)
        ensures
            calls is Ok <==> self.holders() > 0,
            calls matches Ok(list) ==> call_views(list@) == planned_group_update(update),
            calls matches Err(e) ==> e == DispatchError::TableReleased,
    {
        self.send(Event::GroupUpdate(update))
    }
}

} // verus!
