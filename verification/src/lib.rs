//! Safe-binding layer over a native host-loading library.
//!
//! The crate models the protocol around a dynamically loaded host runtime:
//! translating its numeric status codes, converting strings to and from the
//! native character widths, resolving the fixed set of required exports,
//! initializing an execution context, operating on that context, and
//! releasing it exactly once.  Every call into the native side is performed
//! by an unverified driver; this crate holds the decisions and conversions
//! around those calls, each with a proved contract.

pub mod context;
pub mod error;
pub mod hresult;
pub mod library;
pub mod managed;
pub mod marshal;
pub mod nethost;
pub mod runtime;
pub mod string;
pub mod wide;
