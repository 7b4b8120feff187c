//! The error enum of the generated-service examples, with its reserved
//! success, null and panic codes.

use vstd::prelude::*;
use crate::pattern::Success;

verus! {

/// The error enum every example service returns.
#[derive(Clone, Copy, PartialEq, Eq, Structural, Debug)]
pub enum FFIError {
    /// All went fine.
    Success,
    /// A null pointer was passed where it must not be.
    Null,
    /// A panic was caught at the boundary.
    Panic,
    /// The operation failed.
    Fail,
}

impl Success for FFIError {
    open spec fn spec_success() -> FFIError {
        FFIError::Success
    }

    open spec fn spec_null() -> FFIError {
        FFIError::Null
    }

    open spec fn spec_panic() -> FFIError {
        FFIError::Panic
    }

    proof fn reserved_codes_distinct() {
    }

    fn success_value() -> FFIError {
        FFIError::Success
    }

    fn null_value() -> FFIError {
        FFIError::Null
    }

    fn panic_value() -> FFIError {
        FFIError::Panic
    }
}

} // verus!
