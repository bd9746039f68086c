//! Aligned memory blocks with access-pattern advice.
//!
//! The alignment of a block is chosen from its size: a size that is a whole
//! number of 2 MiB huge pages is aligned to 2 MiB and marked for huge pages,
//! every other size is aligned to 64 bytes.
//!
//! Nothing in this crate touches memory. Each operation decides what has to be
//! done and returns it as a value: [`Memory::allocate`] returns the
//! [`AllocationPlan`] to carry out, [`Memory::free`] the [`Release`] to
//! perform. The caller runs the allocator and the advisory call, and hands the
//! address of the block back with [`AllocationPlan::complete`].

pub mod advice;
pub mod alignment;
pub mod alloc_free;
pub mod alloc_result;
pub mod ffi;
pub mod memory;

pub use alignment::AlignmentHint;
pub use alloc_result::AllocResult;
pub use alloc_result::AllocationError;
pub use memory::AllocationPlan;
pub use memory::Memory;
pub use memory::Release;
