//! Ownership of the host's callback table.
//!
//! The table is one resource with many holders: every structural copy of the
//! reporter holds it, and the host's destructor must run exactly once, when
//! the last holder lets go. The count of holders is the whole state; zero
//! means that the destructor has run.

use vstd::prelude::*;
use crate::error::DispatchError;

verus! {

/// What a holder can do to the table.
#[derive(Clone, Copy, Debug, PartialEq, Eq, Structural)]
pub enum TableOp {
    /// One more copy takes hold of the table.
    Share,
    /// One holder lets go.
    Release,
}

/// The count of holders after one more tries to take hold; a table that is
/// torn down stays so.
pub open spec fn after_share(holders: nat) -> nat {
    if holders == 0 {
        0
    } else {
        holders + 1
    }
}

/// The count of holders after one lets go.
pub open spec fn after_release(holders: nat) -> nat {
    if holders == 0 {
        0
    } else {
        (holders - 1) as nat
    }
}

/// Whether a release makes the destructor run: it is the last holder's.
pub open spec fn release_fires(holders: nat) -> bool {
    holders == 1
}

/// The count of holders after one operation.
pub open spec fn after_op(holders: nat, op: TableOp) -> nat {
    match op {
        TableOp::Share => after_share(holders),
        TableOp::Release => after_release(holders),
    }
}

/// The count of holders after a run of operations.
pub open spec fn holders_after(holders: nat, ops: Seq<TableOp>) -> nat
    decreases ops.len(),
{
    if ops.len() == 0 {
        holders
    } else {
        holders_after(after_op(holders, ops[0]), ops.drop_first())
    }
}

/// How often the destructor runs during a run of operations.
pub open spec fn destructions(holders: nat, ops: Seq<TableOp>) -> nat
    decreases ops.len(),
{
    if ops.len() == 0 {
        0
    } else {
        let fired: nat = if ops[0] == TableOp::Release && release_fires(holders) {
            1
        } else {
            0
        };
        fired + destructions(after_op(holders, ops[0]), ops.drop_first())
    }
}

/// Over any run of operations on a live table the destructor runs once if
/// the run leaves no holder, and not at all otherwise; on a table that is
/// torn down it never runs again.
pub proof fn lemma_destroyed_exactly_once(holders: nat, ops: Seq<TableOp>)
    ensures
        destructions(holders, ops) == if holders > 0 && holders_after(holders, ops) == 0 {
            1nat
        } else {
            0nat
        },
        holders == 0 ==> holders_after(holders, ops) == 0,
    decreases ops.len(),
{
    if ops.len() > 0 {
        lemma_destroyed_exactly_once(after_op(holders, ops[0]), ops.drop_first());
    }
}

/// The holders of one callback table.
#[derive(Debug, PartialEq, Eq)]
pub struct CallbackTable {
    holders: u64,
}

impl View for CallbackTable {
    type V = nat;

    /// The number of holders; zero once the destructor has run.
    closed spec fn view(&self) -> nat {
        self.holders as nat
    }
}

impl CallbackTable {
    /// A table with its first holder.
    pub fn new() -> (table: Self)
        ensures
            table@ == 1,
    {
        CallbackTable { holders: 1 }
    }

    /// Whether the destructor has run.
    pub fn is_released(&self) -> (released: bool)
        ensures
            released == (self@ == 0),
    {
        self.holders == 0
    }

    /// Counts one more holder.
    ///
    /// Fails with `TableReleased` exactly where the table is torn down, and
    /// with `TooManyHolders` exactly where the count is at its limit; the
    /// count is then unchanged.
    pub fn share(&mut self) -> (shared: Result<(), DispatchError>)
        ensures
            shared is Ok <==> 0 < old(self)@ < u64::MAX,
            shared is Ok ==> final(self)@ == after_share(old(self)@),
            shared is Err ==> final(self)@ == old(self)@,
            shared matches Err(e) ==> e == if old(self)@ == 0 {
                DispatchError::TableReleased
            } else {
                DispatchError::TooManyHolders
            },
    {
        if self.holders == 0 {
            Err(DispatchError::TableReleased)
        } else if self.holders == u64::MAX {
            Err(DispatchError::TooManyHolders)
        } else {
            self.holders = self.holders + 1;
            Ok(())
        }
    }

    /// Lets one holder go. Returns whether the destructor must run now:
    /// exactly where this was the last holder.
    pub fn release(&mut self) -> (destroy: bool)
        ensures
            destroy == release_fires(old(self)@),
            final(self)@ == after_release(old(self)@),
    {
        if self.holders == 0 {
            false
        } else {
            self.holders = self.holders - 1;
            self.holders == 0
        }
    }
}

} // verus!
