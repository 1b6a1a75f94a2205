//! Errors of the binding layer, and the translation of native status codes.
//!
//! The native exports follow a signed 32-bit status convention: a negative
//! value reports a failure whose remaining bits carry a vendor-defined
//! reason, and every non-negative value (including informational non-zero
//! codes) is a success.

use vstd::prelude::*;

verus! {

/// Result alias used by every fallible operation of the binding layer.
pub type HostFxrResult<T> = Result<T, HostFxrError>;

/// An error of the binding layer.
#[derive(Debug, Clone, PartialEq, Eq)]
pub enum HostFxrError {
    /// A native call returned a negative status code; the code is kept
    /// verbatim for diagnostics.
    Status(i32),
    /// A required export was missing from the loaded library; carries the
    /// name of the export that failed to resolve.
    ImportNotFound(String),
    /// The native initializer reported success but produced a null context
    /// handle.
    BadHandle,
    /// An operation was attempted on a context that was already released.
    UseAfterClose,
    /// The guard serializing access to the native handle was poisoned by an
    /// earlier panic.
    PoisonedHandle,
    /// A string argument holds an embedded terminator unit and cannot be
    /// passed to the native side.
    EmbeddedTerminator,
    /// An argument count did not fit the native 32-bit argument counter.
    TryFromIntError,
    /// The native side reported more property entries than the fixed
    /// enumeration buffers hold.
    InvalidBufferSize,
    /// Locating the loader library on the system failed.
    ResolveHostFxr(GetHostFxrError),
}

/// An error reported while locating the loader library on the system.
#[derive(Debug, Clone, PartialEq, Eq)]
pub enum GetHostFxrError {
    /// The resolver returned a non-zero status that is not the
    /// buffer-too-small code.
    Unexpected(i32),
    /// The resolved path exceeds the fixed maximum buffer size.
    InvalidBufferSize,
    /// The resolver produced a length that does not fit its own buffer.
    InvalidUtf16,
}

impl HostFxrError {
    /// Translates a native status code: negative codes are failures carrying
    /// the code verbatim, all non-negative codes (zero as well as
    /// informational positive values) are success.
    pub fn from_status(code: i32) -> (r: HostFxrResult<()>)
        ensures
            code < 0 ==> r == HostFxrResult::<()>::Err(HostFxrError::Status(code)),
            code >= 0 ==> r == HostFxrResult::<()>::Ok(()),
    {
        if code < 0 {
            Err(HostFxrError::Status(code))
        } else {
            Ok(())
        }
    }
}

} // verus!
