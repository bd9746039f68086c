//! The ways an allocation request can be turned down, and the status codes
//! that stand for them across a foreign-function boundary.

use std::alloc::LayoutError;
use vstd::prelude::*;
use vstd::std_specs::convert::FromSpecImpl;
use vstd::string::StringExecFns;

verus! {

/// The error that `std::alloc::Layout::from_size_align` returns. Nothing of
/// its inside is known here: it is carried along for diagnostics.
#[verifier::external_type_specification]
#[verifier::external_body]
pub struct ExLayoutError(LayoutError);

/// Why a request for memory was turned down.
#[derive(Debug, PartialEq)]
pub enum AllocationError {
    /// An allocation of zero bytes was attempted.
    EmptyAllocation,
    /// The size and alignment do not form a valid memory layout.
    InvalidAlignment(LayoutError),
}

/// The text that the standard library prints for the error of a layout, as
/// `format!` gives it. Nothing is stated of the text.
#[verifier::external_body]
fn layout_error_text(error: &LayoutError) -> (text: String) {
    format!("{error}")
}

impl AllocationError {
    /// The status that stands for this error.
    pub open spec fn status(self) -> AllocResult {
        match self {
            AllocationError::EmptyAllocation => AllocResult::Empty,
            AllocationError::InvalidAlignment(_) => AllocResult::InvalidAlignment,
        }
    }

    /// Describes the error for a reader: `zero-byte allocation`, or
    /// `invalid memory layout: ` followed by what the error of the layout
    /// prints.
    pub fn message(&self) -> (text: String)
        ensures
            self is EmptyAllocation ==> text@ == "zero-byte allocation"@,
            self is InvalidAlignment ==> "invalid memory layout: "@.is_prefix_of(text@),
    {
        match self {
            AllocationError::EmptyAllocation => "zero-byte allocation".to_owned(),
            AllocationError::InvalidAlignment(e) => {
                let detail = layout_error_text(e);
                let text = "invalid memory layout: ".to_owned().concat(detail.as_str());
                assert(text@.subrange(0, "invalid memory layout: "@.len() as int)
                    =~= "invalid memory layout: "@);
                text
            },
        }
    }
}

impl From<LayoutError> for AllocationError {
    fn from(value: LayoutError) -> (error: Self) {
        AllocationError::InvalidAlignment(value)
    }
}

impl FromSpecImpl<LayoutError> for AllocationError {
    open spec fn obeys_from_spec() -> bool {
        true
    }

    open spec fn from_spec(value: LayoutError) -> Self {
        AllocationError::InvalidAlignment(value)
    }
}

/// The outcome of an allocation as a status.
#[derive(PartialEq, Eq, Copy, Clone, Debug, Structural)]
pub enum AllocResult {
    /// The block was allocated. Its code is 0.
    Success,
    /// Zero bytes were requested. Its code is 1.
    Empty,
    /// The size and alignment do not form a valid memory layout. Its code is 2.
    InvalidAlignment,
}

impl AllocResult {
    /// The number that stands for the status in a record.
    pub open spec fn spec_code(self) -> u32 {
        match self {
            AllocResult::Success => 0,
            AllocResult::Empty => 1,
            AllocResult::InvalidAlignment => 2,
        }
    }

    /// The number that stands for the status in a record.
    #[verifier::when_used_as_spec(spec_code)]
    pub fn code(self) -> (code: u32)
        ensures
            code == self.spec_code(),
    {
        match self {
            AllocResult::Success => 0,
            AllocResult::Empty => 1,
            AllocResult::InvalidAlignment => 2,
        }
    }

    /// The status that a number stands for. Only 0, 1 and 2 stand for one.
    pub fn from_code(value: u32) -> (status: Self)
        requires
            value <= 2,
        ensures
            status.spec_code() == value,
            value == 0 ==> status == AllocResult::Success,
            value == 1 ==> status == AllocResult::Empty,
            value == 2 ==> status == AllocResult::InvalidAlignment,
    {
        match value {
            0 => AllocResult::Success,
            1 => AllocResult::Empty,
            _ => AllocResult::InvalidAlignment,
        }
    }
}

impl From<AllocationError> for AllocResult {
    fn from(val: AllocationError) -> (status: Self) {
        match val {
            AllocationError::EmptyAllocation => AllocResult::Empty,
            AllocationError::InvalidAlignment(_) => AllocResult::InvalidAlignment,
        }
    }
}

impl FromSpecImpl<AllocationError> for AllocResult {
    open spec fn obeys_from_spec() -> bool {
        true
    }

    open spec fn from_spec(val: AllocationError) -> Self {
        val.status()
    }
}

/// Every status has a code of its own among 0, 1 and 2, and only success has
/// the code 0.
pub proof fn lemma_codes_are_distinct(a: AllocResult, b: AllocResult)
    ensures
        a.spec_code() <= 2,
        a.spec_code() == b.spec_code() ==> a == b,
        a.spec_code() == 0 <==> a == AllocResult::Success,
{
}

} // verus!
