//! Result codes of the host library. This layer never interprets a code: it
//! produces `Success` itself and passes every other value through unchanged.

use vstd::prelude::*;

verus! {

/// A result code as the host library numbers it.
#[derive(Clone, Copy, Debug, PartialEq, Eq, Structural)]
pub struct ErrorCode {
    pub value: i32,
}

impl ErrorCode {
    /// The code that reports success.
    pub open spec fn success_code() -> ErrorCode {
        ErrorCode { value: 0 }
    }

    /// Returns the code that reports success.
    pub fn success() -> (code: ErrorCode)
        ensures
            code == Self::success_code(),
    {
        ErrorCode { value: 0 }
    }

    /// Wraps a raw number of the host library.
    pub fn from_raw(value: i32) -> (code: ErrorCode)
        ensures
            code.value == value,
    {
        ErrorCode { value }
    }

    /// Tells whether this code reports success.
    pub fn is_success(&self) -> (yes: bool)
        ensures
            yes == (*self == Self::success_code()),
    {
        self.value == 0
    }
}

} // verus!
