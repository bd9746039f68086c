//! The record that stands for a handle across a foreign-function boundary,
//! and the two operations of that boundary.

use crate::alloc_result::AllocResult;
use crate::alloc_result::AllocationError;
use crate::memory::refusal;
use crate::memory::AllocationPlan;
use crate::memory::MemoryState;
use crate::memory::Release;
use vstd::prelude::*;
use vstd::std_specs::convert::FromSpecImpl;

verus! {

/// Information about the allocated memory.
#[derive(Clone, Copy, Debug, PartialEq, Eq, Structural)]
pub struct Memory {
    /// The allocation status: 0 if valid.
    pub status: u32,
    /// Allocation flags. Used internally when calling free.
    pub flags: u32,
    /// The number of allocated bytes. Used internally when calling free.
    pub num_bytes: u32,
    /// The address of the allocated memory; null (zero) unless the status is 0.
    pub address: usize,
}

impl Memory {
    /// The record of a request that was turned down: the code of the status,
    /// and neither flags, size nor address.
    pub open spec fn failure(status: AllocResult) -> Memory {
        Memory { status: status.spec_code(), flags: 0, num_bytes: 0, address: 0 }
    }

    /// The record of a handle with a block: status 0, and the flags, the size
    /// and the address of the handle. The size is one that 32 bits hold.
    pub open spec fn of(memory: MemoryState) -> Memory
        recommends
            memory.address != 0,
            memory.num_bytes <= u32::MAX,
    {
        Memory {
            status: AllocResult::Success.spec_code(),
            flags: memory.flags,
            num_bytes: memory.num_bytes as u32,
            address: memory.address,
        }
    }

    /// What the handle of this record holds.
    pub open spec fn state(self) -> MemoryState {
        MemoryState {
            flags: self.flags,
            num_bytes: self.num_bytes as usize,
            address: self.address,
        }
    }

    /// A record is well formed when its status is one of the three codes, it
    /// has an address exactly under status 0, and its flags, size and address
    /// are those of a handle.
    pub open spec fn wf(self) -> bool {
        &&& self.status <= 2
        &&& self.status == 0 <==> self.address != 0
        &&& self.state().wf()
    }

    /// Tells whether the record is well formed, so that it can be turned into
    /// a handle and freed.
    pub fn is_well_formed(&self) -> (valid: bool)
        ensures
            valid == self.wf(),
    {
        self.status <= 2 && (self.status == 0) == (self.address != 0)
            && crate::memory::Memory::is_handle(
            self.flags,
            self.num_bytes as usize,
            self.address,
        )
    }

    /// Makes the record of a handle that has a block. The block now belongs
    /// to the record.
    ///
    /// The record holds the size in 32 bits, so the handle is one of a block
    /// that is no larger; such are the handles of the plans that
    /// [`allocate_block`] returns. Read back with [`Memory::into_memory`], the
    /// record gives the handle as it was.
    pub fn of_handle(memory: crate::memory::Memory) -> (record: Memory)
        requires
            memory@.address != 0,
            memory@.num_bytes <= u32::MAX,
        ensures
            record == Memory::of(memory@),
            record.wf(),
            record.state() == memory@,
            record.status == 0,
    {
        let num_bytes = memory.len();
        Memory {
            status: AllocResult::Success.code(),
            flags: memory.flags(),
            num_bytes: num_bytes as u32,
            address: memory.to_ptr_const(),
        }
    }

    /// Makes the handle that this record stands for.
    pub fn into_memory(self) -> (memory: crate::memory::Memory)
        requires
            self.wf(),
        ensures
            memory@ == self.state(),
    {
        crate::memory::Memory::new(
            AllocResult::from_code(self.status),
            self.flags,
            self.num_bytes as usize,
            self.address,
        )
    }
}

impl From<AllocationError> for Memory {
    /// The record of a request that was turned down.
    fn from(error: AllocationError) -> (record: Self) {
        let result: AllocResult = AllocResult::from(error);
        Memory { status: result.code(), flags: 0, num_bytes: 0, address: 0 }
    }
}

impl FromSpecImpl<AllocationError> for Memory {
    open spec fn obeys_from_spec() -> bool {
        true
    }

    open spec fn from_spec(error: AllocationError) -> Self {
        Memory::failure(error.status())
    }
}

/// Plans the allocation of `num_bytes` bytes for a foreign caller.
///
/// Returns the plan to carry out, or, for a request that is turned down, the
/// record to hand to the caller at once. The record of a block that was
/// allocated is made from its handle, with [`Memory::of_handle`].
pub fn allocate_block(num_bytes: u32, sequential: bool, clear: bool) -> (outcome: Result<
    AllocationPlan,
    Memory,
>)
    ensures
        match refusal(num_bytes as usize) {
            Some(status) => outcome == Err::<AllocationPlan, Memory>(Memory::failure(status)),
            None => outcome == Ok::<AllocationPlan, Memory>(
                AllocationPlan::for_request(num_bytes as usize, sequential, clear),
            ),
        },
        outcome matches Ok(plan) ==> plan.wf() && plan.request.num_bytes <= u32::MAX,
        outcome matches Err(record) ==> record.wf() && record.status != 0 && record.address == 0,
{
    match crate::memory::Memory::allocate(num_bytes as usize, sequential, clear) {
        Ok(plan) => Ok(plan),
        Err(e) => Err(Memory::from(e)),
    }
}

/// Releases the block of a record, if it has one.
///
/// The record is one that came from an allocation and has not been freed
/// since. Returns what has to be done with its block.
#[must_use]
pub fn free_block(memory: Memory) -> (release: Option<Release>)
    requires
        memory.wf(),
    ensures
        release == memory.state().release(),
{
    let mut wrapped = memory.into_memory();
    wrapped.free()
}

/// A handle with a block whose size fits the record's 32 bits is read back
/// from its record as it was, so freeing the record releases the block of
/// the handle.
pub proof fn lemma_record_round_trip(memory: MemoryState)
    requires
        memory.wf(),
        memory.address != 0,
        memory.num_bytes <= u32::MAX,
    ensures
        Memory::of(memory).wf(),
        Memory::of(memory).state() == memory,
        Memory::of(memory).state().release() == memory.release(),
        Memory::of(memory).status == 0,
{
}

/// A record has status 0 exactly when freeing it releases a block.
pub proof fn lemma_status_tells_the_block(record: Memory)
    requires
        record.wf(),
    ensures
        record.status == 0 <==> record.state().release() is Some,
        record.status != 0 ==> record.state().is_empty(),
{
}

/// The record of a request that was turned down has no block: freeing it
/// does nothing.
pub proof fn lemma_failure_has_no_block(status: AllocResult)
    requires
        status != AllocResult::Success,
    ensures
        Memory::failure(status).wf(),
        Memory::failure(status).status != 0,
        Memory::failure(status).state().release() is None,
{
}

} // verus!
