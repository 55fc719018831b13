//! Group members as the host serialises them: a flat buffer of fixed-size
//! records, each a user identifier followed by a member identifier.

use vstd::prelude::*;
use crate::error::BridgeError;
use crate::wire::copy_range;

verus! {

/// The number of bytes of a user identifier.
pub const USER_ID_LEN: usize = 16;

/// The number of bytes of a member identifier.
pub const MEMBER_ID_LEN: usize = 65;

/// The number of bytes of one serialised member.
pub const MEMBER_RECORD_LEN: usize = 81;

/// One member of a group.
#[derive(Clone, Debug, PartialEq, Eq)]
pub struct GroupMember {
    pub user_id: Vec<u8>,
    pub member_id: Vec<u8>,
}

impl View for GroupMember {
    type V = (Seq<u8>, Seq<u8>);

    open spec fn view(&self) -> (Seq<u8>, Seq<u8>) {
        (self.user_id@, self.member_id@)
    }
}

/// The members of a list, each as its two identifiers.
pub open spec fn member_views(members: Seq<GroupMember>) -> Seq<(Seq<u8>, Seq<u8>)> {
    Seq::new(members.len(), |i: int| members[i]@)
}

/// Whether a buffer is a whole number of member records.
pub open spec fn is_member_buffer(bytes: Seq<u8>) -> bool {
    bytes.len() % (MEMBER_RECORD_LEN as nat) == 0
}

/// The record with the given number: the first `USER_ID_LEN` bytes of its
/// chunk are the user identifier, the rest the member identifier.
pub open spec fn member_record(bytes: Seq<u8>, number: int) -> (Seq<u8>, Seq<u8>) {
    let start = number * MEMBER_RECORD_LEN;
    (
        bytes.subrange(start, start + USER_ID_LEN),
        bytes.subrange(start + USER_ID_LEN, start + MEMBER_RECORD_LEN),
    )
}

/// The members that a buffer of whole records holds, in order.
pub open spec fn decoded_members(bytes: Seq<u8>) -> Seq<(Seq<u8>, Seq<u8>)> {
    Seq::new(bytes.len() / (MEMBER_RECORD_LEN as nat), |i: int| member_record(bytes, i))
}

/// Splits a flat buffer into group members.
///
/// Fails with `InvalidGroupMemberBuffer` exactly where the length of the
/// buffer is not a multiple of `MEMBER_RECORD_LEN`.
pub fn deserialize_to_group_member_info(serialized_group_members: Vec<u8>) -> (members: Result<
    Vec<GroupMember>,
    BridgeError,
>)
    ensures
        members is Ok <==> is_member_buffer(serialized_group_members@),
        members matches Ok(list) ==> {
            &&& list@.len() == serialized_group_members@.len() / (MEMBER_RECORD_LEN as nat)
            &&& member_views(list@) == decoded_members(serialized_group_members@)
            &&& forall|i: int|
                0 <= i < list@.len() ==> (#[trigger] list@[i]).user_id@.len() == USER_ID_LEN
                    && list@[i].member_id@.len() == MEMBER_ID_LEN
        },
        members matches Err(e) ==> e == BridgeError::InvalidGroupMemberBuffer,
{
    let len: usize = serialized_group_members.len();
    if len % MEMBER_RECORD_LEN != 0 {
        return Err(BridgeError::InvalidGroupMemberBuffer);
    }
    let count: usize = len / MEMBER_RECORD_LEN;
    let bytes = serialized_group_members.as_slice();
    let mut group_members: Vec<GroupMember> = Vec::new();
    let mut i: usize = 0;
    while i < count
        invariant
            i <= count,
            len == bytes@.len(),
            bytes@ == serialized_group_members@,
            count * MEMBER_RECORD_LEN == len,
            group_members@.len() == i,
            forall|k: int|
                0 <= k < i ==> (#[trigger] group_members@[k])@ == member_record(bytes@, k),
            forall|k: int|
                0 <= k < i ==> (#[trigger] group_members@[k]).user_id@.len() == USER_ID_LEN
                    && group_members@[k].member_id@.len() == MEMBER_ID_LEN,
        decreases count - i,
    {
        assert((i + 1) * MEMBER_RECORD_LEN <= count * MEMBER_RECORD_LEN) by (nonlinear_arith)
            requires
                i + 1 <= count,
        ;
        let start: usize = i * MEMBER_RECORD_LEN;
        let split: usize = start + USER_ID_LEN;
        let end: usize = start + MEMBER_RECORD_LEN;
        let user_id = copy_range(bytes, start, split);
        let member_id = copy_range(bytes, split, end);
        group_members.push(GroupMember { user_id, member_id });
        i = i + 1;
    }
    assert(member_views(group_members@) =~= decoded_members(serialized_group_members@));
    Ok(group_members)
}

} // verus!
