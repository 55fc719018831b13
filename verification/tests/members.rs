use tringlib::error::BridgeError;
use tringlib::members::{
    deserialize_to_group_member_info, GroupMember, MEMBER_ID_LEN, MEMBER_RECORD_LEN, USER_ID_LEN,
};

fn record(seed: u8) -> Vec<u8> {
    (0..81u8).map(|i| seed.wrapping_add(i)).collect()
}

#[test]
fn record_sizes() {
    assert_eq!(USER_ID_LEN, 16);
    assert_eq!(MEMBER_ID_LEN, 65);
    assert_eq!(MEMBER_RECORD_LEN, 81);
}

#[test]
fn empty_buffer_holds_no_member() {
    assert_eq!(deserialize_to_group_member_info(Vec::new()), Ok(Vec::new()));
}

#[test]
fn one_record_is_split_at_byte_sixteen() {
    let bytes = record(0);
    let members = deserialize_to_group_member_info(bytes.clone()).unwrap();
    assert_eq!(
        members,
        vec![GroupMember { user_id: bytes[..16].to_vec(), member_id: bytes[16..].to_vec() }]
    );
    assert_eq!(members[0].user_id.len(), 16);
    assert_eq!(members[0].member_id.len(), 65);
}

#[test]
fn records_come_out_in_order() {
    let mut bytes = record(10);
    bytes.extend(record(100));
    bytes.extend(record(200));
    let members = deserialize_to_group_member_info(bytes.clone()).unwrap();
    assert_eq!(members.len(), 3);
    for (i, member) in members.iter().enumerate() {
        assert_eq!(member.user_id, bytes[81 * i..81 * i + 16].to_vec());
        assert_eq!(member.member_id, bytes[81 * i + 16..81 * (i + 1)].to_vec());
    }
}

#[test]
fn a_length_that_is_no_multiple_of_the_record_fails() {
    for len in [1usize, 16, 80, 82, 161, 163] {
        assert_eq!(
            deserialize_to_group_member_info(vec![0; len]),
            Err(BridgeError::InvalidGroupMemberBuffer)
        );
    }
}

#[test]
fn error_names() {
    assert_eq!(BridgeError::InvalidGroupMemberBuffer.name(), "InvalidGroupMemberBuffer");
    assert_eq!(BridgeError::InvalidText.name(), "InvalidText");
    assert_eq!(BridgeError::MalformedHeaders.name(), "MalformedHeaders");
    assert_eq!(BridgeError::CapacityExceeded.name(), "CapacityExceeded");
    assert_eq!(BridgeError::InvalidHandle.name(), "InvalidHandle");
}
