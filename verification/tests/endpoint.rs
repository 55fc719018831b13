use tringlib::endpoint::{
    audio_levels_interval, create_call_endpoint, entry_status, frame_buffer_size,
    frame_fill_status, get_version, group_client_id, offer_media_type, pack_frame_dimensions,
    CallEndpoint, EngineCommand, EntryPoint, IceServer, VideoRequest,
};
use tringlib::error::BridgeError;
use tringlib::event::{CallId, CallMediaType};
use tringlib::handles::HandleTable;
use tringlib::jtypes::{IceCandidate, JByteArray, JByteArray2D, JPString};
use tringlib::members::GroupMember;

fn endpoint() -> CallEndpoint<Vec<u8>> {
    CallEndpoint::new()
}

fn bytes(b: &[u8]) -> JByteArray {
    JByteArray::new(b.to_vec())
}

fn text(s: &str) -> JPString {
    JPString::new(s.as_bytes().to_vec())
}

#[test]
fn a_new_endpoint_has_outgoing_media_disabled() {
    let mut e = endpoint();
    assert!(!e.outgoing_audio_enabled());
    assert!(!e.outgoing_video_enabled());
    assert_eq!(e.take_remote_frame(1), None);
}

#[test]
fn the_callback_table_is_destroyed_with_the_last_of_four_copies() {
    let mut e = endpoint();
    assert!(!e.drop_reporter_copy());
    assert!(!e.drop_reporter_copy());
    assert!(!e.drop_reporter_copy());
    assert!(e.drop_reporter_copy());
    assert!(!e.drop_reporter_copy());
}

#[test]
fn completion_is_signalled_once() {
    let mut e = endpoint();
    assert!(e.report());
    assert!(!e.report());
}

#[test]
fn statuses() {
    assert_eq!(entry_status(EntryPoint::SetSelfUuid), 1);
    assert_eq!(entry_status(EntryPoint::ProceedCall), 147);
    assert_eq!(entry_status(EntryPoint::AcceptCall), 573);
    assert_eq!(entry_status(EntryPoint::SignalMessageSent), 135);
    assert_eq!(entry_status(EntryPoint::Disconnect), 1);
    assert_eq!(get_version(), 1);
}

#[test]
fn offer_types() {
    assert_eq!(offer_media_type(1), CallMediaType::Video);
    assert_eq!(offer_media_type(0), CallMediaType::Audio);
    assert_eq!(offer_media_type(2), CallMediaType::Audio);
    assert_eq!(offer_media_type(-1), CallMediaType::Audio);
}

#[test]
fn audio_level_intervals() {
    assert_eq!(audio_levels_interval(0), None);
    assert_eq!(audio_levels_interval(-5), None);
    assert_eq!(audio_levels_interval(1), Some(1));
    assert_eq!(audio_levels_interval(i32::MAX), Some(2_147_483_647));
}

#[test]
fn frame_sizes() {
    assert_eq!(frame_buffer_size(640, 480, 0), Some(614_400));
    assert_eq!(frame_buffer_size(640, 480, 1), Some(1_228_800));
    assert_eq!(frame_buffer_size(640, 480, 2), Some(614_400));
    assert_eq!(frame_buffer_size(0, 480, 1), Some(0));
    assert_eq!(frame_buffer_size(65_536, 32_768, 0), None);
    assert_eq!(frame_buffer_size(65_535, 32_768, 0), Some(4_294_901_760));
    assert_eq!(frame_buffer_size(65_535, 32_768, 1), None);
    assert_eq!(frame_buffer_size(u32::MAX, u32::MAX, 1), None);
}

#[test]
fn packed_dimensions() {
    assert_eq!(pack_frame_dimensions(640, 480), (640 << 16) | 480);
    assert_eq!(pack_frame_dimensions(640, 480), 41_943_520);
    assert_eq!(pack_frame_dimensions(0, 0), 0);
    assert_eq!(pack_frame_dimensions(65_535, 65_535), 0xffff_ffff);
    assert_eq!(pack_frame_dimensions(65_536, 7), 7);
    assert_eq!(pack_frame_dimensions(1, 65_536), 0x1_0000);
    assert_eq!(frame_fill_status(Some((320, 200))), 320 * 65_536 + 200);
    assert_eq!(frame_fill_status(None), 0);
}

#[test]
fn group_client_identifiers() {
    assert_eq!(group_client_id(Some(12)), 12);
    assert_eq!(group_client_id(None), 0);
}

#[test]
fn frames_are_taken_by_the_reduced_identifier() {
    let mut e = endpoint();
    e.on_video_frame(5, vec![1]);
    e.on_video_frame(5, vec![2]);
    assert_eq!(e.take_remote_frame(5), Some(vec![2]));
    assert_eq!(e.take_remote_frame(5), None);
    e.on_video_frame(5, vec![3]);
    assert_eq!(e.take_remote_frame(0x1_0000_0005), Some(vec![3]));
    e.on_video_frame(u32::MAX, vec![4]);
    assert_eq!(e.take_remote_frame(-1), Some(vec![4]));
}

#[test]
fn set_self_uuid() {
    assert_eq!(
        endpoint().set_self_uuid(&bytes(&[1, 2, 3])),
        EngineCommand::SetSelfUuid { uuid: vec![1, 2, 3] }
    );
}

#[test]
fn received_offer() {
    let e = endpoint();
    let command =
        e.received_offer(&text("alice"), 9, 1, 2, 3, &bytes(&[4]), &bytes(&[5]), &bytes(&[6, 7]), 30);
    assert_eq!(
        command,
        Ok(EngineCommand::ReceivedOffer {
            peer_id: "alice".to_string(),
            call_id: CallId::new(9),
            media_type: CallMediaType::Video,
            opaque: vec![6, 7],
            age_sec: 30,
            sender_device_id: 2,
            receiver_device_id: 3,
            sender_identity_key: vec![4],
            receiver_identity_key: vec![5],
        })
    );
    let bad = JPString::new(vec![0xff]);
    assert_eq!(
        e.received_offer(&bad, 9, 1, 2, 3, &bytes(&[]), &bytes(&[]), &bytes(&[]), 0),
        Err(BridgeError::InvalidText)
    );
}

#[test]
fn received_opaque_message_and_answer() {
    let e = endpoint();
    assert_eq!(
        e.received_opaque_message(&bytes(&[1]), 2, 3, &bytes(&[4, 5]), 6),
        EngineCommand::ReceivedCallMessage {
            sender_uuid: vec![1],
            sender_device_id: 2,
            local_device_id: 3,
            message: vec![4, 5],
            age_sec: 6,
        }
    );
    assert_eq!(
        e.received_answer(7, 2, &bytes(&[1]), &bytes(&[2]), &bytes(&[3])),
        EngineCommand::ReceivedAnswer {
            call_id: CallId::new(7),
            opaque: vec![3],
            sender_device_id: 2,
            sender_identity_key: vec![1],
            receiver_identity_key: vec![2],
        }
    );
}

#[test]
fn create_outgoing_call() {
    let e = endpoint();
    assert_eq!(
        e.create_outgoing_call(&text("bob"), true, 4, 11),
        Ok(EngineCommand::CreateOutgoingCall {
            peer_id: "bob".to_string(),
            call_id: CallId::new(11),
            media_type: CallMediaType::Video,
            local_device_id: 4,
        })
    );
    assert_eq!(
        e.create_outgoing_call(&text("bob"), false, 4, -1),
        Ok(EngineCommand::CreateOutgoingCall {
            peer_id: "bob".to_string(),
            call_id: CallId::new(u64::MAX),
            media_type: CallMediaType::Audio,
            local_device_id: 4,
        })
    );
    assert_eq!(
        e.create_outgoing_call(&JPString::new(vec![0xc0]), false, 4, 1),
        Err(BridgeError::InvalidText)
    );
}

#[test]
fn proceed_call() {
    let e = endpoint();
    let pack = JByteArray2D::new(vec![
        IceCandidate::new(b"turn:one".to_vec()),
        IceCandidate::new(b"turn:two".to_vec()),
    ])
    .unwrap();
    assert_eq!(
        e.proceed_call(5, 2, 200, &text("user"), &text("pwd"), &text("host"), &pack),
        Ok(EngineCommand::Proceed {
            call_id: CallId::new(5),
            ice_server: IceServer {
                username: "user".to_string(),
                password: "pwd".to_string(),
                hostname: "host".to_string(),
                urls: vec!["turn:one".to_string(), "turn:two".to_string()],
            },
            data_mode: 2,
            audio_levels_interval_millis: Some(200),
        })
    );
    let bad_pack = JByteArray2D::new(vec![IceCandidate::new(vec![0xfe])]).unwrap();
    assert_eq!(
        e.proceed_call(5, 2, 0, &text("user"), &text("pwd"), &text("host"), &bad_pack),
        Err(BridgeError::InvalidText)
    );
    assert_eq!(
        e.proceed_call(5, 2, 0, &text("user"), &JPString::new(vec![0x80]), &text("host"), &pack),
        Err(BridgeError::InvalidText)
    );
}

#[test]
fn received_ice() {
    let candidates = vec![IceCandidate::new(vec![1]), IceCandidate::new(vec![2, 3])];
    let pack = JByteArray2D::new(candidates.clone()).unwrap();
    assert_eq!(
        endpoint().received_ice(8, 2, &pack),
        EngineCommand::ReceivedIce { call_id: CallId::new(8), candidates, sender_device_id: 2 }
    );
}

#[test]
fn call_lifecycle_commands() {
    let e = endpoint();
    assert_eq!(e.accept_call(3), EngineCommand::AcceptCall { call_id: CallId::new(3) });
    assert_eq!(e.ignore_call(3), EngineCommand::DropCall { call_id: CallId::new(3) });
    assert_eq!(e.hangup_call(), EngineCommand::Hangup);
    assert_eq!(
        e.signal_message_sent(CallId::new(3)),
        EngineCommand::MessageSent { call_id: CallId::new(3) }
    );
    assert_eq!(e.set_audio_input(2), EngineCommand::SetAudioRecordingDevice { index: 2 });
    assert_eq!(e.set_audio_output(3), EngineCommand::SetAudioPlayoutDevice { index: 3 });
}

#[test]
fn outgoing_media_toggles() {
    let mut e = endpoint();
    assert_eq!(
        e.set_outgoing_audio_enabled(true),
        EngineCommand::SetOutgoingAudioTrackEnabled { enabled: true }
    );
    assert!(e.outgoing_audio_enabled());
    assert_eq!(
        e.set_outgoing_video_enabled(true),
        vec![
            EngineCommand::SetOutgoingVideoTrackEnabled { enabled: true },
            EngineCommand::UpdateSenderStatus { video_enabled: true },
        ]
    );
    assert!(e.outgoing_video_enabled());
    assert_eq!(
        e.set_outgoing_audio_muted(4, true),
        vec![
            EngineCommand::SetOutgoingAudioTrackEnabled { enabled: false },
            EngineCommand::SetOutgoingAudioMuted { client_id: 4, muted: true },
        ]
    );
    assert!(!e.outgoing_audio_enabled());
    assert_eq!(
        e.set_outgoing_video_muted(4, false),
        vec![
            EngineCommand::SetOutgoingVideoTrackEnabled { enabled: true },
            EngineCommand::SetOutgoingVideoMuted { client_id: 4, muted: false },
        ]
    );
    assert!(e.outgoing_video_enabled());
}

#[test]
fn disconnect_disables_media_and_drops_frames() {
    let mut e = endpoint();
    e.set_outgoing_audio_enabled(true);
    e.set_outgoing_video_enabled(true);
    e.on_video_frame(1, vec![1]);
    assert_eq!(
        e.disconnect(6),
        vec![
            EngineCommand::SetOutgoingAudioTrackEnabled { enabled: false },
            EngineCommand::SetOutgoingVideoTrackEnabled { enabled: false },
            EngineCommand::SetVideoContentHint { is_screenshare: false },
            EngineCommand::Disconnect { client_id: 6 },
        ]
    );
    assert!(!e.outgoing_audio_enabled());
    assert!(!e.outgoing_video_enabled());
    assert_eq!(e.take_remote_frame(1), None);
}

#[test]
fn group_call_commands() {
    let e = endpoint();
    let member_bytes: Vec<u8> = (0..81u8).collect();
    let member =
        GroupMember { user_id: member_bytes[..16].to_vec(), member_id: member_bytes[16..].to_vec() };
    assert_eq!(
        e.peek_group_call(&bytes(&[9]), &bytes(&member_bytes)),
        Ok(EngineCommand::PeekGroupCall {
            request_id: 1,
            sfu_url: "https://sfu.voip.signal.org".to_string(),
            membership_proof: vec![9],
            group_members: vec![member.clone()],
        })
    );
    assert_eq!(
        e.peek_group_call(&bytes(&[9]), &bytes(&[0; 80])),
        Err(BridgeError::InvalidGroupMemberBuffer)
    );
    assert_eq!(
        e.set_group_members(2, &bytes(&member_bytes)),
        Ok(EngineCommand::SetGroupMembers { client_id: 2, members: vec![member] })
    );
    assert_eq!(e.set_group_members(2, &bytes(&[1])), Err(BridgeError::InvalidGroupMemberBuffer));
    assert_eq!(
        e.create_group_call_client(&bytes(&[1]), &text("https://sfu"), &bytes(&[2])),
        Ok(EngineCommand::CreateGroupCallClient {
            group_id: vec![1],
            sfu_url: "https://sfu".to_string(),
            hkdf_extra_info: vec![2],
        })
    );
    assert_eq!(
        e.create_group_call_client(&bytes(&[1]), &JPString::new(vec![0xff]), &bytes(&[2])),
        Err(BridgeError::InvalidText)
    );
    assert_eq!(e.delete_group_call_client(2), EngineCommand::DeleteGroupCallClient { client_id: 2 });
    assert_eq!(e.group_ring(2), EngineCommand::GroupRing { client_id: 2 });
    assert_eq!(e.group_connect(2), EngineCommand::Connect { client_id: 2 });
    assert_eq!(e.join(2), EngineCommand::Join { client_id: 2 });
    assert_eq!(
        e.set_membership_proof(2, &bytes(&[7])),
        EngineCommand::SetMembershipProof { client_id: 2, proof: vec![7] }
    );
    assert_eq!(e.set_data_mode(2, 1), EngineCommand::SetDataMode { client_id: 2, data_mode: 1 });
    assert_eq!(
        e.request_video(2, 77),
        EngineCommand::RequestVideo {
            client_id: 2,
            requests: vec![VideoRequest { demux_id: 77, width: 320, height: 200, framerate: None }],
            active_speaker_height: 150,
        }
    );
}

#[test]
fn http_response_status_is_reduced_to_sixteen_bits() {
    let e = endpoint();
    assert_eq!(
        e.received_http_response(4, 200, &bytes(&[1])),
        EngineCommand::ReceivedHttpResponse { request_id: 4, status: 200, body: vec![1] }
    );
    assert_eq!(
        e.received_http_response(4, 65_536 + 404, &bytes(&[])),
        EngineCommand::ReceivedHttpResponse { request_id: 4, status: 404, body: Vec::new() }
    );
}

#[test]
fn endpoints_are_reached_through_their_handles() {
    let mut table: HandleTable<CallEndpoint<Vec<u8>>> = HandleTable::new();
    let first = create_call_endpoint(&mut table).unwrap();
    let second = create_call_endpoint(&mut table).unwrap();
    assert_ne!(first, 0);
    assert_ne!(first, second);
    table.resolve_mut(first).unwrap().set_outgoing_audio_enabled(true);
    assert!(table.resolve(first).unwrap().outgoing_audio_enabled());
    assert!(!table.resolve(second).unwrap().outgoing_audio_enabled());
    assert!(table.resolve(0).is_err());
    assert_eq!(table.resolve(second + 1).err(), Some(BridgeError::InvalidHandle));
    assert!(table.remove(first).is_ok());
    assert_eq!(table.resolve(first).err(), Some(BridgeError::InvalidHandle));
    assert!(table.resolve(second).is_ok());
}
