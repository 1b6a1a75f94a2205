//! Classification of native result codes into success and failure.
//!
//! The sign bit of the 32-bit code decides the class; the remaining bits are
//! an opaque vendor-defined reason that is preserved verbatim.

use vstd::prelude::*;

verus! {

/// A native result code, classified by its sign.
#[derive(Debug, Clone, Copy, PartialEq, Eq, Structural)]
pub enum HResult {
    /// A non-negative code: the call succeeded (possibly with an
    /// informational reason).
    Success(i32),
    /// A negative code: the call failed for the carried reason.
    Failure(i32),
}

impl HResult {
    /// Classifies a raw code: negative codes are failures, all others are
    /// successes. The code is kept verbatim either way.
    pub fn new(kind: i32) -> (r: HResult)
        ensures
            kind < 0 ==> r == HResult::Failure(kind),
            kind >= 0 ==> r == HResult::Success(kind),
    {
        if kind < 0 {
            HResult::Failure(kind)
        } else {
            HResult::Success(kind)
        }
    }

    /// True exactly of the success class.
    pub fn is_success(self) -> (r: bool)
        ensures
            r == (self is Success),
    {
        if let HResult::Success(_) = self {
            true
        } else {
            false
        }
    }

    /// True exactly of the failure class.
    pub fn is_failure(self) -> (r: bool)
        ensures
            r == (self is Failure),
    {
        if let HResult::Failure(_) = self {
            true
        } else {
            false
        }
    }

    /// Turns the classification into a `Result`, keeping the code on both
    /// sides.
    pub fn to_result(self) -> (r: Result<HResult, HResult>)
        ensures
            self is Success ==> r == Result::<HResult, HResult>::Ok(self),
            self is Failure ==> r == Result::<HResult, HResult>::Err(self),
    {
        match self {
            HResult::Success(_) => Ok(self),
            HResult::Failure(_) => Err(self),
        }
    }
}

} // verus!
