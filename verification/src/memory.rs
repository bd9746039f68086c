//! The memory handle: the bookkeeping of one allocated block, from the plan
//! for its allocation to its release.
//!
//! A handle keeps the flags, the size and the address of its block. The
//! alignment is not kept: the policy gives it again for the same size, so the
//! block is released on the boundary it was allocated on.

use crate::advice;
use crate::alignment::lemma_hint_of_positive_size;
use crate::alignment::AlignmentHint;
use crate::alignment::TWO_MEGABYTES;
use crate::alloc_free::alloc_aligned;
use crate::alloc_free::free_aligned;
use crate::alloc_free::Block;
use crate::alloc_free::BlockRequest;
use crate::alloc_result::AllocResult;
use crate::alloc_result::AllocationError;
use vstd::layout::size_of;
use vstd::layout::valid_layout;
use vstd::prelude::*;

verus! {

/// No special instructions.
pub const ALLOC_FLAGS_NONE: u32 = 0;

/// Indicates that huge pages should be used (bit 0).
pub const ALLOC_FLAGS_HUGE_PAGES: u32 = 1;

/// Indicates that memory access is mainly sequential rather than random-access (bit 1).
pub const ALLOC_FLAGS_SEQUENTIAL: u32 = 2;

/// Whether every bit of `flag` is set in `flags`.
pub open spec fn has_flag(flags: u32, flag: u32) -> bool {
    flags & flag == flag
}

/// The flags recorded for a block: bit 1 for sequential access, bit 0 for
/// huge pages, so 3 for both.
pub open spec fn allocation_flags(sequential: bool, use_huge_pages: bool) -> u32 {
    if sequential && use_huge_pages {
        3
    } else if sequential {
        ALLOC_FLAGS_SEQUENTIAL
    } else if use_huge_pages {
        ALLOC_FLAGS_HUGE_PAGES
    } else {
        ALLOC_FLAGS_NONE
    }
}

/// The advice about the access pattern of a fresh block: sequential where
/// the caller asked for it, the default pattern otherwise.
pub open spec fn pattern_advice(sequential: bool) -> i32 {
    if sequential {
        advice::spec_sequential()
    } else {
        advice::spec_normal()
    }
}

/// The advice about huge pages for a fresh block: given, beside the advice
/// about the access pattern, exactly where the policy suggests huge pages.
pub open spec fn huge_page_advice(use_huge_pages: bool) -> Option<i32> {
    if use_huge_pages {
        Some(advice::spec_huge_page())
    } else {
        None
    }
}

/// The advice to give about a block that is about to be released: that its
/// pages are free, if the block was flagged for huge pages.
pub open spec fn release_advice(flags: u32) -> Option<i32> {
    if has_flag(flags, ALLOC_FLAGS_HUGE_PAGES) {
        Some(advice::spec_free())
    } else {
        None
    }
}

/// Whether a size, rounded up to the boundary chosen for it, is at most
/// `isize::MAX`. A size that is not zero forms a valid layout with its
/// boundary exactly then.
pub open spec fn fits(num_bytes: usize) -> bool {
    num_bytes + AlignmentHint::for_size(num_bytes).alignment - 1 <= isize::MAX
}

/// Why a request for `num_bytes` bytes is turned down, if it is: the size is
/// zero, or it forms no valid layout with the boundary chosen for it.
pub open spec fn refusal(num_bytes: usize) -> Option<AllocResult> {
    if num_bytes == 0 {
        Some(AllocResult::Empty)
    } else if !fits(num_bytes) {
        Some(AllocResult::InvalidAlignment)
    } else {
        None
    }
}

/// What has to be done to allocate a block: the request to the allocator, the
/// advice to give about the fresh block, and the flags to keep with it.
///
/// Each advice is given about the whole block, from its address over its
/// size. Advice is a hint: whether the system takes it changes nothing about
/// the block or its handle.
#[derive(Debug, PartialEq, Eq)]
pub struct AllocationPlan {
    /// The block to ask the allocator for.
    pub request: BlockRequest,
    /// The advice about the access pattern: sequential or default.
    pub pattern: i32,
    /// The advice about huge pages, to give after the one about the pattern.
    pub huge_pages: Option<i32>,
    /// The flags of the handle to come.
    pub flags: u32,
}

/// What has to be done to release a block.
#[derive(Clone, Copy, Debug, PartialEq, Eq, Structural)]
pub struct Release {
    /// The block to give back to the allocator.
    pub block: Block,
    /// The advice to apply to the whole block before it is given back.
    pub advice: Option<i32>,
}

/// What a handle holds.
pub struct MemoryState {
    /// The allocation flags.
    pub flags: u32,
    /// The size of the block in bytes; zero when there is none.
    pub num_bytes: usize,
    /// Where the block starts; null (zero) when there is none.
    pub address: usize,
}

impl MemoryState {
    /// The state without a block.
    pub open spec fn is_empty(self) -> bool {
        self.num_bytes == 0 && self.address == 0
    }

    /// The boundary of the block, as the policy gives it for the size.
    pub open spec fn alignment(self) -> usize {
        AlignmentHint::for_size(self.num_bytes).alignment
    }

    /// A handle either holds no block, and then neither size nor address, or
    /// it holds a block of its size that starts on the boundary chosen for
    /// that size, and is flagged for huge pages only where the size calls
    /// for them.
    pub open spec fn wf(self) -> bool {
        &&& self.address == 0 <==> self.num_bytes == 0
        &&& self.num_bytes != 0 ==> {
            &&& fits(self.num_bytes)
            &&& self.address as int % self.alignment() as int == 0
            &&& has_flag(self.flags, ALLOC_FLAGS_HUGE_PAGES) ==> AlignmentHint::for_size(
                self.num_bytes,
            ).use_huge_pages
        }
    }

    /// The state after a release: no block, the flags as they were.
    pub open spec fn released(self) -> MemoryState {
        MemoryState { flags: self.flags, num_bytes: 0, address: 0 }
    }

    /// What a release has to do: nothing without a block; otherwise give the
    /// block back under its size and the boundary chosen for that size, after
    /// the advice for a block with these flags.
    pub open spec fn release(self) -> Option<Release> {
        if self.address == 0 {
            None
        } else {
            Some(
                Release {
                    block: Block {
                        address: self.address,
                        num_bytes: self.num_bytes,
                        alignment: self.alignment(),
                    },
                    advice: release_advice(self.flags),
                },
            )
        }
    }
}

impl AllocationPlan {
    /// The plan for a request that is not turned down.
    pub open spec fn for_request(num_bytes: usize, sequential: bool, clear: bool) -> AllocationPlan {
        let hint = AlignmentHint::for_size(num_bytes);
        AllocationPlan {
            request: BlockRequest { num_bytes, alignment: hint.alignment, clear },
            pattern: pattern_advice(sequential),
            huge_pages: huge_page_advice(hint.use_huge_pages),
            flags: allocation_flags(sequential, hint.use_huge_pages),
        }
    }

    /// A plan is well formed when its block has a size, lies on the boundary
    /// chosen for that size, fits, and is flagged for huge pages only where
    /// the size calls for them.
    pub open spec fn wf(self) -> bool {
        let hint = AlignmentHint::for_size(self.request.num_bytes);
        &&& self.request.num_bytes != 0
        &&& self.request.alignment == hint.alignment
        &&& fits(self.request.num_bytes)
        &&& has_flag(self.flags, ALLOC_FLAGS_HUGE_PAGES) ==> hint.use_huge_pages
    }

    /// What the handle for a block at `address` holds.
    pub open spec fn completed(self, address: usize) -> MemoryState {
        MemoryState { flags: self.flags, num_bytes: self.request.num_bytes, address }
    }

    /// Tells whether `address` can be that of the block that the allocator
    /// returned for this plan's request: it is not null and lies on the
    /// requested boundary. With such an address the plan can be completed.
    pub fn accepts(&self, address: usize) -> (valid: bool)
        ensures
            valid == (address != 0 && self.request.alignment != 0 && address as int
                % self.request.alignment as int == 0),
    {
        address != 0 && self.request.alignment != 0 && address % self.request.alignment == 0
    }

    /// Makes the handle for the block that the allocator returned for this
    /// plan's request.
    ///
    /// The allocator returns a block that is not null and starts on the
    /// requested boundary, or does not return at all. The handle has the
    /// length that was asked for, is not empty, and its address lies on the
    /// boundary that the policy chose for its length.
    pub fn complete(self, address: usize) -> (memory: Memory)
        requires
            self.wf(),
            address != 0,
            address as int % self.request.alignment as int == 0,
        ensures
            memory@ == self.completed(address),
            memory@.wf(),
            memory@.num_bytes == self.request.num_bytes,
            memory@.address == address,
            !memory@.is_empty(),
            memory@.address as int % AlignmentHint::for_size(memory@.num_bytes).alignment as int
                == 0,
    {
        Memory::new(AllocResult::Success, self.flags, self.request.num_bytes, address)
    }
}

/// Allocated memory.
///
/// A handle is either allocated (it has an address and a size) or empty (it
/// has neither). [`Memory::free`] takes it from the first state to the
/// second, and leaves an empty one as it is. Nothing takes an empty handle
/// back: a new allocation makes a new handle.
#[derive(Debug)]
pub struct Memory {
    flags: u32,
    num_bytes: usize,
    address: usize,
}

impl View for Memory {
    type V = MemoryState;

    closed spec fn view(&self) -> MemoryState {
        MemoryState { flags: self.flags, num_bytes: self.num_bytes, address: self.address }
    }
}

impl Memory {
    #[verifier::type_invariant]
    spec fn inv(self) -> bool {
        self@.wf()
    }

    /// Plans the allocation of the specified number of bytes.
    ///
    /// The optimal alignment will be determined by the number of bytes provided.
    /// If the amount of bytes is a multiple of 2MB, Huge/Large Page support is enabled.
    ///
    /// A request for zero bytes fails as `EmptyAllocation`, and one whose
    /// size does not fit as `InvalidAlignment`. Every other request is
    /// granted: the plan names the block to allocate, the advice to give
    /// about it (sequential or default access, and huge pages beside it
    /// where the size calls for them), and the flags of its handle, which
    /// [`AllocationPlan::complete`] makes once the block is there.
    ///
    /// ## Arguments
    /// * `num_bytes` - The number of bytes to allocate.
    /// * `sequential` - Whether or not the memory access pattern is sequential mostly.
    /// * `clear` - Whether or not to zero out the allocated memory.
    pub fn allocate(num_bytes: usize, sequential: bool, clear: bool) -> (outcome: Result<
        AllocationPlan,
        AllocationError,
    >)
        ensures
            match refusal(num_bytes) {
                Some(status) => outcome matches Err(e) && e.status() == status,
                None => outcome == Ok::<AllocationPlan, AllocationError>(
                    AllocationPlan::for_request(num_bytes, sequential, clear),
                ),
            },
            num_bytes == 0 ==> outcome == Err::<AllocationPlan, AllocationError>(
                AllocationError::EmptyAllocation,
            ),
            outcome matches Ok(plan) ==> {
                &&& plan.wf()
                &&& plan.request.clear == clear
                &&& plan.pattern == pattern_advice(sequential)
                &&& plan.huge_pages is Some <==> num_bytes % TWO_MEGABYTES == 0
                &&& has_flag(plan.flags, ALLOC_FLAGS_HUGE_PAGES) <==> AlignmentHint::for_size(
                    num_bytes,
                ).use_huge_pages
                &&& has_flag(plan.flags, ALLOC_FLAGS_SEQUENTIAL) <==> sequential
            },
    {
        if num_bytes == 0 {
            return Err(AllocationError::EmptyAllocation);
        }
        proof {
            lemma_policy_layout(num_bytes);
            lemma_allocation_flags(sequential, AlignmentHint::for_size(num_bytes).use_huge_pages);
        }
        let alignment = AlignmentHint::new(num_bytes);
        let request = match alloc_aligned(num_bytes, alignment.alignment, clear) {
            Ok(request) => request,
            Err(e) => {
                return Err(e);
            },
        };

        let pattern = if sequential {
            advice::sequential()
        } else {
            advice::normal()
        };

        let mut flags = if sequential {
            ALLOC_FLAGS_SEQUENTIAL
        } else {
            ALLOC_FLAGS_NONE
        };

        let mut huge_pages = None;
        if alignment.use_huge_pages {
            huge_pages = Some(advice::huge_page());
            flags |= ALLOC_FLAGS_HUGE_PAGES;
        }
        assert(0u32 | 1u32 == 1u32 && 2u32 | 1u32 == 3u32) by (bit_vector);

        Ok(AllocationPlan { request, pattern, huge_pages, flags })
    }

    /// Frees the block, if the handle has one, and leaves the handle empty.
    ///
    /// Returns what has to be done with the block. On an empty handle there
    /// is nothing to do, so freeing twice is the same as freeing once.
    #[must_use]
    pub fn free(&mut self) -> (release: Option<Release>)
        ensures
            release == old(self)@.release(),
            final(self)@ == old(self)@.released(),
            final(self)@.is_empty(),
            final(self)@.wf(),
            old(self)@.is_empty() ==> release is None && final(self)@ == old(self)@,
    {
        proof {
            use_type_invariant(&*self);
        }
        if self.address == 0 {
            return None;
        }
        proof {
            lemma_policy_layout(self.num_bytes);
        }
        let alignment = AlignmentHint::new(self.num_bytes);
        let ptr = self.to_ptr();

        let advice = if (self.flags & ALLOC_FLAGS_HUGE_PAGES) == ALLOC_FLAGS_HUGE_PAGES {
            assert(alignment.use_huge_pages);
            Some(advice::free())
        } else {
            None
        };

        let block = free_aligned(ptr, self.num_bytes, alignment.alignment);

        // Zero out the fields.
        *self = Memory { flags: self.flags, num_bytes: 0, address: 0 };

        match block {
            Some(block) => Some(Release { block, advice }),
            None => None,
        }
    }

    /// Makes a handle from its parts.
    ///
    /// The parts are those of a handle: there is an address exactly under
    /// the status of success, and flags, size and address fit together.
    pub fn new(status: AllocResult, flags: u32, num_bytes: usize, address: usize) -> (memory: Self)
        requires
            status == AllocResult::Success <==> address != 0,
            (MemoryState { flags, num_bytes, address }).wf(),
        ensures
            memory@ == (MemoryState { flags, num_bytes, address }),
            memory@.wf(),
    {
        Memory { flags, num_bytes, address }
    }

    /// Tells whether flags, size and address fit together as the parts of a
    /// handle, so that [`Memory::new`] can be called on them.
    pub fn is_handle(flags: u32, num_bytes: usize, address: usize) -> (valid: bool)
        ensures
            valid == (MemoryState { flags, num_bytes, address }).wf(),
    {
        if num_bytes == 0 || address == 0 {
            return num_bytes == 0 && address == 0;
        }
        let hint = AlignmentHint::new(num_bytes);
        let fits = num_bytes <= isize::MAX as usize - (hint.alignment - 1);
        let flagged = (flags & ALLOC_FLAGS_HUGE_PAGES) == ALLOC_FLAGS_HUGE_PAGES;
        fits && address % hint.alignment == 0 && (!flagged || hint.use_huge_pages)
    }

    /// Makes the empty handle that stands for a failed allocation.
    pub fn from_error(status: AllocResult) -> (memory: Self)
        requires
            status != AllocResult::Success,
        ensures
            memory@ == (MemoryState { flags: 0, num_bytes: 0, address: 0 }),
            memory@.is_empty(),
            memory@.wf(),
    {
        Memory { flags: 0, num_bytes: 0, address: 0 }
    }

    /// Returns the number of bytes allocated.
    #[inline(always)]
    pub fn len(&self) -> (num_bytes: usize)
        ensures
            num_bytes == self@.num_bytes,
            self@.wf(),
    {
        proof {
            use_type_invariant(self);
        }
        self.num_bytes
    }

    /// Returns whether this instance has zero bytes allocated.
    ///
    /// A handle has zero bytes exactly when it has no address.
    pub fn is_empty(&self) -> (empty: bool)
        ensures
            empty == (self@.num_bytes == 0),
            empty == (self@.address == 0),
            empty == self@.is_empty(),
            self@.wf(),
    {
        proof {
            use_type_invariant(self);
        }
        assert(self.num_bytes > 0 || self.address == 0);
        self.num_bytes == 0
    }

    /// Returns how many elements of type `T` a view of the block holds.
    ///
    /// The size of the block need not be a multiple of the size of `T`: the
    /// count is rounded down, and a view of that many elements stays within
    /// the block and leaves fewer bytes out than one element takes.
    pub fn len_of<T>(&self) -> (count: usize)
        requires
            size_of::<T>() != 0,
        ensures
            count == self@.num_bytes as nat / size_of::<T>(),
            count * size_of::<T>() <= self@.num_bytes,
            self@.num_bytes - count * size_of::<T>() < size_of::<T>(),
    {
        let size = core::mem::size_of::<T>();
        let count = self.num_bytes / size;
        assert(count * size <= self.num_bytes && self.num_bytes - count * size < size) by {
            let n = self.num_bytes as int;
            let d = size as int;
            vstd::arithmetic::div_mod::lemma_fundamental_div_mod(n, d);
            vstd::arithmetic::div_mod::lemma_mod_bound(n, d);
            vstd::arithmetic::mul::lemma_mul_is_commutative(d, n / d);
        }
        count
    }

    /// See [`Memory::to_ptr_const`] or [`Memory::to_ptr`].
    #[inline(always)]
    pub fn as_ptr(&self) -> (address: usize)
        ensures
            address == self@.address,
    {
        self.to_ptr_const()
    }

    /// Returns the address of the data buffer, for reading; null (zero) for
    /// an empty handle.
    ///
    /// The address is that of a block only until the handle is freed.
    #[inline(always)]
    pub fn to_ptr_const(&self) -> (address: usize)
        ensures
            address == self@.address,
    {
        self.address
    }

    /// See [`Memory::to_ptr_mut`] or [`Memory::to_ptr`].
    #[inline(always)]
    pub fn as_ptr_mut(&mut self) -> (address: usize)
        ensures
            address == old(self)@.address,
            final(self)@ == old(self)@,
    {
        self.to_ptr_mut()
    }

    /// Returns the address of the data buffer, for writing; null (zero) for
    /// an empty handle.
    ///
    /// The address is that of a block only until the handle is freed.
    #[inline(always)]
    pub fn to_ptr_mut(&mut self) -> (address: usize)
        ensures
            address == old(self)@.address,
            final(self)@ == old(self)@,
    {
        self.address
    }

    /// Returns the address of the data buffer, or `None` for an empty handle.
    ///
    /// The address is that of a block only until the handle is freed.
    #[inline(always)]
    pub fn to_ptr(&self) -> (ptr: Option<usize>)
        ensures
            self@.address == 0 ==> ptr is None,
            self@.address != 0 ==> ptr == Some(self@.address),
    {
        if self.address == 0 {
            None
        } else {
            Some(self.address)
        }
    }

    /// Returns the allocation flags.
    #[inline(always)]
    pub fn flags(&self) -> (flags: u32)
        ensures
            flags == self@.flags,
    {
        self.flags
    }
}

impl Default for Memory {
    /// The empty handle.
    fn default() -> (memory: Self)
        ensures
            memory@ == (MemoryState { flags: 0, num_bytes: 0, address: 0 }),
            memory@.is_empty(),
    {
        Memory::from_error(AllocResult::Empty)
    }
}

/// A size that is not zero forms a valid layout with the boundary chosen for
/// it exactly when it fits: the boundary is a power of two.
pub proof fn lemma_policy_layout(num_bytes: usize)
    requires
        num_bytes != 0,
    ensures
        valid_layout(num_bytes, AlignmentHint::for_size(num_bytes).alignment) <==> fits(num_bytes),
{
    lemma_hint_of_positive_size(num_bytes);
    assert(isize::MAX as int % 64 == 63);
    assert(isize::MAX as int % 0x20_0000 == 0x1f_ffff);
}

/// The flags of a block have bit 0 set exactly when huge pages are used, and
/// bit 1 exactly when access is sequential.
pub proof fn lemma_allocation_flags(sequential: bool, use_huge_pages: bool)
    ensures
        has_flag(allocation_flags(sequential, use_huge_pages), ALLOC_FLAGS_HUGE_PAGES)
            <==> use_huge_pages,
        has_flag(allocation_flags(sequential, use_huge_pages), ALLOC_FLAGS_SEQUENTIAL)
            <==> sequential,
{
    assert(0u32 & 1u32 != 1u32 && 1u32 & 1u32 == 1u32 && 2u32 & 1u32 != 1u32 && 3u32 & 1u32
        == 1u32) by (bit_vector);
    assert(0u32 & 2u32 != 2u32 && 1u32 & 2u32 != 2u32 && 2u32 & 2u32 == 2u32 && 3u32 & 2u32
        == 2u32) by (bit_vector);
}

/// A request is granted exactly when it is for at least one byte and fits,
/// and the plan of a granted request is well formed.
pub proof fn lemma_granted_plan(num_bytes: usize, sequential: bool, clear: bool)
    ensures
        refusal(num_bytes) is None <==> num_bytes != 0 && fits(num_bytes),
        refusal(num_bytes) is None ==> AllocationPlan::for_request(
            num_bytes,
            sequential,
            clear,
        ).wf(),
{
    lemma_allocation_flags(sequential, AlignmentHint::for_size(num_bytes).use_huge_pages);
}

/// The plan of a granted request advises sequential access exactly where it
/// was asked for, and the default pattern otherwise; beside that it advises
/// huge pages exactly for a whole number of 2 MiB.
pub proof fn lemma_plan_advice(num_bytes: usize, sequential: bool, clear: bool)
    requires
        refusal(num_bytes) is None,
    ensures
        ({
            let plan = AllocationPlan::for_request(num_bytes, sequential, clear);
            &&& sequential ==> plan.pattern == advice::spec_sequential()
            &&& !sequential ==> plan.pattern == advice::spec_normal()
            &&& num_bytes % TWO_MEGABYTES == 0 ==> plan.huge_pages == Some(
                advice::spec_huge_page(),
            )
            &&& num_bytes % TWO_MEGABYTES != 0 ==> plan.huge_pages is None
        }),
{
}

/// A view of elements of four bytes holds a quarter as many elements as the
/// block has bytes, rounded down.
pub proof fn lemma_four_byte_view(num_bytes: usize)
    ensures
        num_bytes as nat / size_of::<u32>() == num_bytes / 4,
        num_bytes as nat / size_of::<i32>() == num_bytes / 4,
{
    broadcast use vstd::layout::layout_of_primitives;

}

/// A granted request comes back as a handle of the requested length that is
/// not empty and whose block lies on the boundary chosen for that length.
///
/// The allocator's part is taken as given: the block it returned for the
/// plan's request is not null and starts on the requested boundary.
pub proof fn lemma_allocate_round_trip(
    num_bytes: usize,
    sequential: bool,
    clear: bool,
    address: usize,
)
    requires
        refusal(num_bytes) is None,
        address != 0,
        address as int % AllocationPlan::for_request(
            num_bytes,
            sequential,
            clear,
        ).request.alignment as int == 0,
    ensures
        ({
            let memory = AllocationPlan::for_request(num_bytes, sequential, clear).completed(
                address,
            );
            &&& memory.wf()
            &&& memory.num_bytes == num_bytes
            &&& !memory.is_empty()
            &&& memory.address == address
            &&& memory.address != 0
            &&& memory.address as int % AlignmentHint::for_size(num_bytes).alignment as int == 0
        }),
{
    lemma_allocation_flags(sequential, AlignmentHint::for_size(num_bytes).use_huge_pages);
}

/// What is released is what was allocated: the block that a handle gives
/// back has the address, the size and the alignment of the block that its
/// plan asked for, and is advised as free exactly when it was advised for
/// huge pages.
pub proof fn lemma_release_returns_allocation(
    num_bytes: usize,
    sequential: bool,
    clear: bool,
    address: usize,
)
    requires
        refusal(num_bytes) is None,
        address != 0,
    ensures
        ({
            let plan = AllocationPlan::for_request(num_bytes, sequential, clear);
            let release = plan.completed(address).release();
            &&& release matches Some(release)
            &&& release.block.address == address
            &&& release.block.num_bytes == plan.request.num_bytes
            &&& release.block.alignment == plan.request.alignment
            &&& release.advice is Some <==> AlignmentHint::for_size(num_bytes).use_huge_pages
            &&& release.advice matches Some(advice) ==> advice == advice::spec_free()
        }),
{
    lemma_allocation_flags(sequential, AlignmentHint::for_size(num_bytes).use_huge_pages);
}

/// Freeing is idempotent: a freed handle is empty and well formed, and
/// freeing it again does nothing and leaves it as it is.
pub proof fn lemma_release_idempotent(memory: MemoryState)
    requires
        memory.wf(),
    ensures
        memory.released().is_empty(),
        memory.released().wf(),
        memory.released().release() is None,
        memory.released().released() == memory.released(),
{
}

/// An empty handle has nothing to release, and a handle with a block
/// releases that block.
pub proof fn lemma_release_of_each_state(memory: MemoryState)
    requires
        memory.wf(),
    ensures
        memory.is_empty() <==> memory.release() is None,
        memory.is_empty() ==> memory.released() == memory,
        memory.release() matches Some(release) ==> {
            &&& release.block.address == memory.address
            &&& release.block.num_bytes == memory.num_bytes
            &&& valid_layout(release.block.num_bytes, release.block.alignment)
        },
{
    if memory.num_bytes != 0 {
        lemma_policy_layout(memory.num_bytes);
    }
}

} // verus!
