//! Opaque handles: the integers that stand for native objects on the other
//! side of the boundary.
//!
//! A handle is an index into a table of slots together with the generation
//! of the slot at the time the handle was issued. A slot that is reused gets
//! a new generation, so a handle that was removed never resolves again, and
//! zero is no handle at all.

use vstd::prelude::*;
use vstd::arithmetic::div_mod::lemma_fundamental_div_mod_converse;
use crate::error::BridgeError;

verus! {

/// The factor between the generation and the index within a handle.
pub const HANDLE_RADIX: i64 = 0x1_0000_0000;

/// The last generation a slot can have; a slot that reached it is not reused.
pub const MAX_GENERATION: u32 = 0x7fff_ffff;

/// The largest number of slots a table can have.
pub const MAX_SLOTS: usize = 0x7fff_ffff;

/// The slot that a handle points at.
pub open spec fn handle_index(handle: i64) -> int {
    handle as int % (HANDLE_RADIX as int)
}

/// The generation that a handle was issued under.
pub open spec fn handle_generation(handle: i64) -> int {
    handle as int / (HANDLE_RADIX as int)
}

/// The handle for a slot in a generation.
pub open spec fn handle_of(generation: int, index: int) -> int {
    generation * HANDLE_RADIX + index
}

proof fn lemma_handle_parts(generation: int, index: int)
    requires
        0 <= index < HANDLE_RADIX,
        0 <= generation,
    ensures
        handle_of(generation, index) / (HANDLE_RADIX as int) == generation,
        handle_of(generation, index) % (HANDLE_RADIX as int) == index,
{
    lemma_fundamental_div_mod_converse(
        handle_of(generation, index),
        HANDLE_RADIX as int,
        generation,
        index,
    );
}

struct Slot<T> {
    generation: u32,
    value: Option<T>,
}

/// The table that owns the objects behind the handles.
pub struct HandleTable<T> {
    slots: Vec<Slot<T>>,
}

impl<T> View for HandleTable<T> {
    type V = Map<i64, T>;

    /// The live handles, each with the object it resolves to.
    closed spec fn view(&self) -> Map<i64, T> {
        Map::new(
            |handle: i64| self.is_live(handle),
            |handle: i64| self.slots@[handle_index(handle)].value->Some_0,
        )
    }
}

impl<T> HandleTable<T> {
    spec fn is_live(&self, handle: i64) -> bool {
        &&& handle > 0
        &&& handle_generation(handle) >= 1
        &&& handle_index(handle) < self.slots@.len()
        &&& self.slots@[handle_index(handle)].generation == handle_generation(handle)
        &&& self.slots@[handle_index(handle)].value is Some
    }

    spec fn is_retired(&self, handle: i64) -> bool {
        &&& handle > 0
        &&& handle_generation(handle) >= 1
        &&& handle_index(handle) < self.slots@.len()
        &&& {
            let slot = self.slots@[handle_index(handle)];
            ||| handle_generation(handle) < slot.generation
            ||| (handle_generation(handle) == slot.generation && slot.value is None)
        }
    }

    spec fn reusable(&self, index: int) -> bool {
        &&& 0 <= index < self.slots@.len()
        &&& index < MAX_SLOTS
        &&& self.slots@[index].value is None
        &&& self.slots@[index].generation < MAX_GENERATION
    }

    /// The handles that were issued and removed since.
    pub closed spec fn retired(&self) -> Set<i64> {
        Set::new(|handle: i64| self.is_retired(handle))
    }

    /// The number of slots the table has made so far.
    pub closed spec fn slot_count(&self) -> nat {
        self.slots@.len()
    }

    /// Whether one more handle can be issued: a slot can be reused or made.
    pub closed spec fn has_room(&self) -> bool {
        (exists|index: int| self.reusable(index)) || self.slots@.len() < MAX_SLOTS
    }

    /// No handle is both live and retired, zero is neither, and a table that
    /// has made fewer slots than it can have has room.
    pub proof fn lemma_handle_states(&self)
        ensures
            forall|handle: i64| !(self@.contains_key(handle) && self.retired().contains(handle)),
            !self@.contains_key(0),
            !self.retired().contains(0),
            forall|handle: i64| handle <= 0 ==> !self@.contains_key(handle),
            self.slot_count() < MAX_SLOTS ==> self.has_room(),
    {
    }

    /// A table without handles.
    pub fn new() -> (table: Self)
        ensures
            table@ == Map::<i64, T>::empty(),
            table.retired() == Set::<i64>::empty(),
            table.slot_count() == 0,
    {
        let table = HandleTable { slots: Vec::new() };
        assert(table@ =~= Map::<i64, T>::empty());
        assert(table.retired() =~= Set::<i64>::empty());
        table
    }

    /// The slot that a live handle points at.
    fn locate(&self, handle: i64) -> (found: Option<usize>)
        ensures
            found is Some <==> self.is_live(handle),
            found matches Some(index) ==> index == handle_index(handle),
    {
        if handle <= 0 {
            return None;
        }
        let generation: i64 = handle / HANDLE_RADIX;
        let index: i64 = handle % HANDLE_RADIX;
        if generation < 1 {
            return None;
        }
        if index as u64 >= self.slots.len() as u64 {
            return None;
        }
        let slot = &self.slots[index as usize];
        if slot.generation as i64 == generation && slot.value.is_some() {
            Some(index as usize)
        } else {
            None
        }
    }

    /// Whether the handle is live.
    pub fn contains(&self, handle: i64) -> (live: bool)
        ensures
            live == self@.contains_key(handle),
    {
        self.locate(handle).is_some()
    }

    /// The object behind a handle.
    ///
    /// Fails with `InvalidHandle` exactly where the handle is not live.
    pub fn resolve(&self, handle: i64) -> (found: Result<&T, BridgeError>)
        ensures
            found is Ok <==> self@.contains_key(handle),
            found matches Ok(value) ==> *value == self@[handle],
            found matches Err(e) ==> e == BridgeError::InvalidHandle,
    {
        match self.locate(handle) {
            Some(index) => match &self.slots[index].value {
                Some(value) => Ok(value),
                None => Err(BridgeError::InvalidHandle),
            },
            None => Err(BridgeError::InvalidHandle),
        }
    }

    /// The first slot that can be reused, if there is one.
    fn find_reusable(&self) -> (found: Option<usize>)
        ensures
            found matches Some(index) ==> self.reusable(index as int),
            found is None ==> forall|index: int| !self.reusable(index),
    {
        let n: usize = if self.slots.len() < MAX_SLOTS {
            self.slots.len()
        } else {
            MAX_SLOTS
        };
        let mut i: usize = 0;
        while i < n
            invariant
                n <= self.slots@.len(),
                n <= MAX_SLOTS,
                n == self.slots@.len() || n == MAX_SLOTS,
                i <= n,
                forall|index: int| 0 <= index < i ==> !self.reusable(index),
            decreases n - i,
        {
            if self.slots[i].value.is_none() && self.slots[i].generation < MAX_GENERATION {
                return Some(i);
            }
            i = i + 1;
        }
        None
    }

    /// Takes ownership of an object and issues the handle for it.
    ///
    /// The handle is new: it is not zero, it was never issued before, and it
    /// resolves to the object from now on. Returns `None`, and drops the
    /// object, exactly where the table has no room.
    pub fn insert(&mut self, value: T) -> (issued: Option<i64>)
        ensures
            issued is Some <==> old(self).has_room(),
            issued matches Some(handle) ==> {
                &&& handle > 0
                &&& !old(self)@.contains_key(handle)
                &&& !old(self).retired().contains(handle)
                &&& final(self)@ == old(self)@.insert(handle, value)
                &&& final(self).retired() == old(self).retired()
                &&& final(self).slot_count() <= old(self).slot_count() + 1
            },
            issued is None ==> {
                &&& final(self)@ == old(self)@
                &&& final(self).retired() == old(self).retired()
                &&& final(self).slot_count() == old(self).slot_count()
            },
    {
        let (index, generation): (usize, u32) = match self.find_reusable() {
            Some(index) => {
                let generation: u32 = self.slots[index].generation + 1;
                let slot = &mut self.slots[index];
                slot.generation = generation;
                slot.value = Some(value);
                (index, generation)
            },
            None => {
                if self.slots.len() >= MAX_SLOTS {
                    return None;
                }
                let index: usize = self.slots.len();
                self.slots.push(Slot { generation: 1, value: Some(value) });
                (index, 1)
            },
        };
        let handle: i64 = generation as i64 * HANDLE_RADIX + index as i64;
        proof {
            lemma_handle_parts(generation as int, index as int);
            assert(handle_index(handle) == index);
            assert(handle_generation(handle) == generation);
            assert forall|h: i64| final(self).is_live(h) == (h == handle || old(self).is_live(
                h,
            )) by {}
            assert forall|h: i64| final(self).is_retired(h) == old(self).is_retired(h) by {}
            assert(final(self)@ =~= old(self)@.insert(handle, value));
            assert(final(self).retired() =~= old(self).retired());
        }
        Some(handle)
    }

    /// Takes the object behind a handle out of the table and retires the
    /// handle.
    ///
    /// Fails with `InvalidHandle`, and changes nothing, exactly where the
    /// handle is not live.
    pub fn remove(&mut self, handle: i64) -> (taken: Result<T, BridgeError>)
        ensures
            taken is Ok <==> old(self)@.contains_key(handle),
            taken matches Ok(value) ==> {
                &&& value == old(self)@[handle]
                &&& final(self)@ == old(self)@.remove(handle)
                &&& final(self).retired() == old(self).retired().insert(handle)
                &&& final(self).slot_count() == old(self).slot_count()
            },
            taken matches Err(e) ==> {
                &&& e == BridgeError::InvalidHandle
                &&& final(self)@ == old(self)@
                &&& final(self).retired() == old(self).retired()
                &&& final(self).slot_count() == old(self).slot_count()
            },
    {
        match self.locate(handle) {
            Some(index) => {
                let slot = &mut self.slots[index];
                let value = slot.value.take();
                proof {
                    assert forall|h: i64| final(self).is_live(h) == (h != handle && old(
                        self,
                    ).is_live(h)) by {}
                    assert forall|h: i64| final(self).is_retired(h) == (h == handle || old(
                        self,
                    ).is_retired(h)) by {}
                    assert(final(self)@ =~= old(self)@.remove(handle));
                    assert(final(self).retired() =~= old(self).retired().insert(handle));
                }
                match value {
                    Some(value) => Ok(value),
                    None => Err(BridgeError::InvalidHandle),
                }
            },
            None => Err(BridgeError::InvalidHandle),
        }
    }

    /// The object behind a handle, to change it in place.
    ///
    /// Fails with `InvalidHandle` exactly where the handle is not live. The
    /// handle stays live and resolves to the object as the caller leaves it;
    /// no other handle is touched.
    pub fn resolve_mut(&mut self, handle: i64) -> (found: Result<&mut T, BridgeError>)
        ensures
            found is Ok <==> old(self)@.contains_key(handle),
            found matches Ok(value) ==> {
                &&& *value == old(self)@[handle]
                &&& final(self)@ == old(self)@.insert(handle, *final(value))
                &&& final(self).retired() == old(self).retired()
                &&& final(self).slot_count() == old(self).slot_count()
            },
            found matches Err(e) ==> {
                &&& e == BridgeError::InvalidHandle
                &&& final(self)@ == old(self)@
                &&& final(self).retired() == old(self).retired()
                &&& final(self).slot_count() == old(self).slot_count()
            },
    {
        match self.locate(handle) {
            Some(index) => {
                proof {
                    let before = *self;
                    assert forall|after: Self|
                        #![trigger after.view()]
                        before.same_but_value(after, index as int) implies {
                        &&& after@ == before@.insert(
                            handle,
                            after.slots@[index as int].value->Some_0,
                        )
                        &&& after.retired() == before.retired()
                    } by {
                        before.lemma_value_replaced(after, handle);
                    }
                }
                let slot = &mut self.slots[index];
                match slot.value.as_mut() {
                    Some(value) => Ok(value),
                    None => Err(BridgeError::InvalidHandle),
                }
            },
            None => Err(BridgeError::InvalidHandle),
        }
    }

    /// Two tables that differ at most in the object held by one occupied
    /// slot.
    spec fn same_but_value(&self, after: Self, index: int) -> bool {
        &&& 0 <= index < self.slots@.len()
        &&& after.slots@.len() == self.slots@.len()
        &&& forall|j: int|
            0 <= j < self.slots@.len() && j != index ==> after.slots@[j] == self.slots@[j]
        &&& after.slots@[index].generation == self.slots@[index].generation
        &&& after.slots@[index].value is Some
        &&& self.slots@[index].value is Some
    }

    proof fn lemma_value_replaced(&self, after: Self, handle: i64)
        requires
            self.is_live(handle),
            self.same_but_value(after, handle_index(handle)),
        ensures
            after@ == self@.insert(handle, after.slots@[handle_index(handle)].value->Some_0),
            after.retired() == self.retired(),
    {
        assert forall|h: i64| after.is_live(h) == self.is_live(h) by {}
        assert forall|h: i64| after.is_retired(h) == self.is_retired(h) by {}
        assert(after@ =~= self@.insert(
            handle,
            after.slots@[handle_index(handle)].value->Some_0,
        ));
        assert(after.retired() =~= self.retired());
    }
}

} // verus!
