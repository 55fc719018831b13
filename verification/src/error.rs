//! The failures that the bridge reports to its immediate caller.

use vstd::prelude::*;

verus! {

/// Why a marshaling step or an entry point refused its input.
#[derive(Clone, Copy, Debug, PartialEq, Eq, Structural)]
pub enum BridgeError {
    /// A flat group-member buffer whose length is not a whole number of
    /// records.
    InvalidGroupMemberBuffer,
    /// A payload that had to be text and is not UTF-8.
    InvalidText,
    /// A header buffer that ends inside a segment or holds a name without a
    /// value.
    MalformedHeaders,
    /// More rows than a fixed-capacity batch can carry.
    CapacityExceeded,
    /// An integer handle that names no live object.
    InvalidHandle,
}

/// Why an event could not be turned into host notifications.
#[derive(Clone, Copy, Debug, PartialEq, Eq, Structural)]
pub enum DispatchError {
    /// The callback table has already been torn down, so none of its entries
    /// may be invoked any more.
    TableReleased,
    /// The callback table cannot count one more holder.
    TooManyHolders,
}

impl BridgeError {
    /// A short name of the failure, for logs.
    pub fn name(&self) -> (text: &'static str)
        ensures
            text@ == match *self {
                BridgeError::InvalidGroupMemberBuffer => "InvalidGroupMemberBuffer"@,
                BridgeError::InvalidText => "InvalidText"@,
                BridgeError::MalformedHeaders => "MalformedHeaders"@,
                BridgeError::CapacityExceeded => "CapacityExceeded"@,
                BridgeError::InvalidHandle => "InvalidHandle"@,
            },
    {
        match self {
            BridgeError::InvalidGroupMemberBuffer => "InvalidGroupMemberBuffer",
            BridgeError::InvalidText => "InvalidText",
            BridgeError::MalformedHeaders => "MalformedHeaders",
            BridgeError::CapacityExceeded => "CapacityExceeded",
            BridgeError::InvalidHandle => "InvalidHandle",
        }
    }
}

} // verus!
