//! The alignment policy: from the size of a request to the boundary its block
//! is aligned to, and whether huge pages are worth asking for.

use vstd::arithmetic::power2::is_pow2;
use vstd::prelude::*;

verus! {

/// The size of a huge page (2 MiB), and the boundary for blocks made of whole
/// huge pages.
pub const TWO_MEGABYTES: usize = 0x20_0000;

/// The boundary for every other block; wide enough for 512-bit vector loads.
pub const SIXTY_FOUR_BYTES: usize = 64;

/// The boundary reported for an empty request, for which nothing is allocated.
pub const ZERO_BYTES: usize = 0;

/// An alignment hint to control subsequent allocations or de-allocations.
#[derive(Clone, Copy, Debug, PartialEq, Eq, Structural)]
pub struct AlignmentHint {
    /// The alignment byte boundary.
    ///
    /// If a zero-byte allocation is attempted, this value will be zero.
    /// In all other cases, the value is positive and a multiple of 64.
    pub alignment: usize,
    /// Whether the use of Huge/Large Pages are suggested.
    pub use_huge_pages: bool,
}

impl AlignmentHint {
    /// The hint for a request of `num_bytes` bytes.
    pub open spec fn for_size(num_bytes: usize) -> AlignmentHint {
        if num_bytes == 0 {
            AlignmentHint { alignment: ZERO_BYTES, use_huge_pages: false }
        } else if num_bytes % TWO_MEGABYTES == 0 {
            AlignmentHint { alignment: TWO_MEGABYTES, use_huge_pages: true }
        } else {
            AlignmentHint { alignment: SIXTY_FOUR_BYTES, use_huge_pages: false }
        }
    }

    /// Gets the optimal alignment for the number of bytes.
    ///
    /// If the number of bytes is a positive multiple of 2 MB, a natural 2 MB
    /// boundary is selected and a hint for using Huge/Large Pages is issued.
    ///
    /// In any other case, an alignment of 64 byte boundaries is produced,
    /// which should be optimal for both AVX-2 and AVX-512 operations. Zero
    /// bytes give the boundary zero, which is no alignment at all: there is
    /// nothing to allocate.
    ///
    /// ## Arguments
    /// * `num_bytes` - The number of bytes to allocate.
    ///
    /// ## Returns
    /// An [`AlignmentHint`] outlining the suggested alignment.
    #[inline(always)]
    pub fn new(num_bytes: usize) -> (hint: Self)
        ensures
            hint == Self::for_size(num_bytes),
            num_bytes == 0 ==> hint.alignment == 0 && !hint.use_huge_pages,
            num_bytes > 0 && num_bytes % TWO_MEGABYTES == 0 ==> hint.alignment == TWO_MEGABYTES
                && hint.use_huge_pages,
            num_bytes > 0 && num_bytes % TWO_MEGABYTES != 0 ==> hint.alignment == SIXTY_FOUR_BYTES
                && !hint.use_huge_pages,
    {
        assert((num_bytes & 0x1f_ffff) == 0 <==> num_bytes % 0x20_0000 == 0) by (bit_vector);
        if num_bytes == 0 {
            AlignmentHint { alignment: ZERO_BYTES, use_huge_pages: false }
        } else if (num_bytes & (TWO_MEGABYTES - 1)) == 0 {
            AlignmentHint { alignment: TWO_MEGABYTES, use_huge_pages: true }
        } else {
            AlignmentHint { alignment: SIXTY_FOUR_BYTES, use_huge_pages: false }
        }
    }
}

/// For a request that is not empty, the boundary is a power of two and a
/// multiple of 64. Huge pages are suggested exactly for the 2 MiB boundary,
/// and then the block is made of whole huge pages.
pub proof fn lemma_hint_of_positive_size(num_bytes: usize)
    requires
        num_bytes > 0,
    ensures
        is_pow2(AlignmentHint::for_size(num_bytes).alignment as int),
        AlignmentHint::for_size(num_bytes).alignment > 0,
        AlignmentHint::for_size(num_bytes).alignment % SIXTY_FOUR_BYTES == 0,
        AlignmentHint::for_size(num_bytes).use_huge_pages <==> AlignmentHint::for_size(
            num_bytes,
        ).alignment == TWO_MEGABYTES,
        AlignmentHint::for_size(num_bytes).use_huge_pages ==> num_bytes % AlignmentHint::for_size(
            num_bytes,
        ).alignment == 0,
{
    reveal_with_fuel(is_pow2, 23);
    assert(is_pow2(64));
    assert(is_pow2(0x20_0000));
}

} // verus!
