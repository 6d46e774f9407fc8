//! Recoverable validation errors reported by the ability computation.
//!
//! Malformed module structure (an out-of-range pool index) is a programming
//! invariant handled by `requires` clauses, not by this type.  What is
//! reported here is the one condition that can legitimately arrive from a
//! not-yet-validated source: a type-argument list whose length disagrees
//! with the instantiated struct's declared generic arity.

use vstd::prelude::*;

verus! {

/// A descriptive status code carried by a validation error.
#[derive(Clone, Copy, PartialEq, Eq, Structural, Debug)]
pub enum StatusCode {
    /// A struct instantiation supplied a number of type arguments different
    /// from the number of type parameters declared on its struct handle.
    NumberOfTypeArgumentsMismatch,
}

/// A structured, recoverable error: a status code describing what was wrong
/// with the input.
#[derive(Clone, Copy, PartialEq, Eq, Structural, Debug)]
pub struct PartialVMError {
    pub major_status: StatusCode,
}

impl PartialVMError {
    pub open spec fn spec_new(major_status: StatusCode) -> PartialVMError {
        PartialVMError { major_status }
    }

    #[verifier::when_used_as_spec(spec_new)]
    pub fn new(major_status: StatusCode) -> (r: PartialVMError)
        ensures
            r == (PartialVMError { major_status }),
    {
        PartialVMError { major_status }
    }
}

pub type PartialVMResult<T> = Result<T, PartialVMError>;

/// The error value produced when a type-argument count disagrees with the
/// declared type-parameter count.
pub open spec fn arity_mismatch_error() -> PartialVMError {
    PartialVMError { major_status: StatusCode::NumberOfTypeArgumentsMismatch }
}

} // verus!
