//! The advice values that `madvise` takes.
//!
//! The values are read from the libc crate. It has all four of them for
//! Linux, Android, Emscripten and Fuchsia only, and gives them the same
//! numbers there; for any other system this crate does not build.

use vstd::prelude::*;

verus! {

/// No special treatment; the default of every mapping.
pub open spec fn spec_normal() -> i32 {
    0
}

/// Expect page references in sequential order.
pub open spec fn spec_sequential() -> i32 {
    2
}

/// The pages are no longer needed and may be reclaimed lazily.
pub open spec fn spec_free() -> i32 {
    8
}

/// Back the range with transparent huge pages.
pub open spec fn spec_huge_page() -> i32 {
    14
}

/// `libc::MADV_NORMAL`, which the libc crate defines as 0.
#[verifier::external_body]
#[verifier::when_used_as_spec(spec_normal)]
pub(crate) fn normal() -> (advice: i32)
    ensures
        advice == spec_normal(),
{
    libc::MADV_NORMAL
}

/// `libc::MADV_SEQUENTIAL`, which the libc crate defines as 2.
#[verifier::external_body]
#[verifier::when_used_as_spec(spec_sequential)]
pub(crate) fn sequential() -> (advice: i32)
    ensures
        advice == spec_sequential(),
{
    libc::MADV_SEQUENTIAL
}

/// `libc::MADV_FREE`, which the libc crate defines as 8.
#[verifier::external_body]
#[verifier::when_used_as_spec(spec_free)]
pub(crate) fn free() -> (advice: i32)
    ensures
        advice == spec_free(),
{
    libc::MADV_FREE
}

/// `libc::MADV_HUGEPAGE`, which the libc crate defines as 14.
#[verifier::external_body]
#[verifier::when_used_as_spec(spec_huge_page)]
pub(crate) fn huge_page() -> (advice: i32)
    ensures
        advice == spec_huge_page(),
{
    libc::MADV_HUGEPAGE
}

} // verus!
