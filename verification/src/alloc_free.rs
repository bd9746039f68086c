//! The allocation primitives: which requests the allocator can serve, and
//! which block goes back to it.
//!
//! A block is described by its size and its alignment, and the allocator must
//! see the same pair when the block is released as when it was allocated.

use crate::alloc_result::AllocationError;
use std::alloc::Layout;
use std::alloc::LayoutError;
use vstd::layout::valid_layout;
use vstd::prelude::*;

verus! {

/// `std::alloc::Layout::from_size_align`, with the layout itself left out.
///
/// The standard library documents that the call fails unless `align` is a
/// power of two (so not zero) and `size`, rounded up to the nearest multiple
/// of `align`, is at most `isize::MAX`. `valid_layout` says the same: for a
/// power of two, `isize::MAX % align` is `align - 1`, and `size` rounds up to
/// at most `isize::MAX` exactly when `size <= isize::MAX - (align - 1)`.
#[verifier::external_body]
fn check_layout(size: usize, align: usize) -> (outcome: Result<(), LayoutError>)
    ensures
        outcome is Ok <==> valid_layout(size, align),
{
    match Layout::from_size_align(size, align) {
        Ok(_) => Ok(()),
        Err(e) => Err(e),
    }
}

/// A block that the allocator is asked for.
#[derive(Clone, Copy, Debug, PartialEq, Eq, Structural)]
pub struct BlockRequest {
    /// The size of the block in bytes; never zero.
    pub num_bytes: usize,
    /// The boundary the block starts on.
    pub alignment: usize,
    /// Whether the block must be handed out zeroed.
    pub clear: bool,
}

/// A block that goes back to the allocator.
#[derive(Clone, Copy, Debug, PartialEq, Eq, Structural)]
pub struct Block {
    /// Where the block starts; never null.
    pub address: usize,
    /// The size the block was allocated with.
    pub num_bytes: usize,
    /// The boundary the block was allocated on.
    pub alignment: usize,
}

/// Whether `address` can be the start of a block that the allocator returned
/// for `num_bytes` bytes on an `alignment` boundary: the request was a valid
/// one, and the address is not null and lies on the boundary.
pub open spec fn is_block(address: usize, num_bytes: usize, alignment: usize) -> bool {
    &&& address != 0
    &&& num_bytes != 0
    &&& valid_layout(num_bytes, alignment)
    &&& address as int % alignment as int == 0
}

/// Tells whether `address` can be the start of a block that the allocator
/// returned for `num_bytes` bytes on an `alignment` boundary. Such a block,
/// and no other, may be passed to [`free_aligned`].
pub fn check_block(address: usize, num_bytes: usize, alignment: usize) -> (valid: bool)
    ensures
        valid == is_block(address, num_bytes, alignment),
{
    if address == 0 || num_bytes == 0 {
        return false;
    }
    match check_layout(num_bytes, alignment) {
        Ok(_) => {
            proof {
                // A power of two is not zero.
                reveal(vstd::arithmetic::power2::is_pow2);
            }
            address % alignment == 0
        },
        Err(_) => false,
    }
}

/// Checks a request for a block of `num_bytes` bytes on an `alignment`
/// boundary, and returns what to ask the allocator for.
///
/// A request for zero bytes is turned down as `EmptyAllocation`; one whose
/// size and alignment form no valid layout as `InvalidAlignment`, with the
/// error of the layout. What is returned otherwise is the request as given.
/// The allocator treats exhaustion as fatal, so a request that passes here has
/// no further way to fail.
///
/// # Arguments
///
/// * `num_bytes` - The size of the block.
/// * `alignment` - The boundary the block starts on.
/// * `clear` - Whether the block is to be zeroed.
pub fn alloc_aligned(num_bytes: usize, alignment: usize, clear: bool) -> (outcome: Result<
    BlockRequest,
    AllocationError,
>)
    ensures
        num_bytes == 0 ==> outcome == Err::<BlockRequest, AllocationError>(
            AllocationError::EmptyAllocation,
        ),
        num_bytes != 0 && !valid_layout(num_bytes, alignment) ==> outcome matches Err(
            AllocationError::InvalidAlignment(_),
        ),
        num_bytes != 0 && valid_layout(num_bytes, alignment) ==> outcome == Ok::<
            BlockRequest,
            AllocationError,
        >(BlockRequest { num_bytes, alignment, clear }),
{
    if num_bytes == 0 {
        return Err(AllocationError::EmptyAllocation);
    }
    match check_layout(num_bytes, alignment) {
        Err(e) => Err(AllocationError::InvalidAlignment(e)),
        Ok(_) => Ok(BlockRequest { num_bytes, alignment, clear }),
    }
}

/// Names the block to give back to the allocator, if there is one.
///
/// Without an address there is nothing to release. With one, the block is
/// released under the size and alignment it was allocated with: the caller
/// passes the same pair again, and an address that the allocator returned for
/// that pair.
///
/// # Arguments
///
/// * `ptr` - The address of the block, or `None`.
/// * `num_bytes` - The size of the allocation in bytes.
/// * `alignment` - The alignment of the allocation.
#[must_use]
pub fn free_aligned(ptr: Option<usize>, num_bytes: usize, alignment: usize) -> (block: Option<
    Block,
>)
    requires
        ptr matches Some(address) ==> is_block(address, num_bytes, alignment),
    ensures
        ptr is None ==> block is None,
        ptr matches Some(address) ==> block == Some(Block { address, num_bytes, alignment }),
{
    let address = if let Some(address) = ptr {
        address
    } else {
        return None;
    };
    Some(Block { address, num_bytes, alignment })
}

} // verus!
