//! The bridge protocol between the host and code running inside a context.
//!
//! A bridge is obtained by resolving one well-known entry point inside a
//! well-known unit of loaded code; the native side then hands back a handle
//! to a small table of callables.  The names, the null-handle decision and
//! the method-resolution requests live here; the calls are the unverified
//! driver's.

use vstd::prelude::*;
use vstd::string::StrSliceExecFns;
use vstd::utf8::encode_utf8;

use crate::managed::TypeId;

verus! {

/// The assembly-qualified name of the type that exposes the bridge entry
/// point.
pub fn get_bridge_type_name() -> (r: &'static str)
    ensures
        r@ == "Bridge, Bridge, Version=1.0.0.0, Culture=neutral, PublicKeyToken=null"@,
{
    "Bridge, Bridge, Version=1.0.0.0, Culture=neutral, PublicKeyToken=null"
}

/// The name of the bridge entry point.
pub fn get_bridge_method_name() -> (r: &'static str)
    ensures
        r@ == "GetBridge"@,
{
    "GetBridge"
}

/// The assembly-qualified name of the bridge entry point's delegate type.
pub fn get_bridge_delegate_name() -> (r: &'static str)
    ensures
        r@ == "GetBridgeDelegate, Bridge, Version=1.0.0.0, Culture=neutral, PublicKeyToken=null"@,
{
    "GetBridgeDelegate, Bridge, Version=1.0.0.0, Culture=neutral, PublicKeyToken=null"
}

/// An error of the bridge protocol.
#[derive(Debug, Clone, Copy, PartialEq, Eq, Structural)]
pub enum BridgeError {
    /// The requested method was not found inside the loaded code.
    MethodNotFound,
}

/// The table of callables the bridge entry point hands back, carried as
/// opaque tokens.
#[derive(Debug, Clone, Copy, PartialEq, Eq, Structural)]
pub struct BridgeImpl {
    pub release: u64,
    pub get_method: u64,
    pub test: i32,
}

/// What a bridge callable reports: a value, or a bridge error.
#[derive(Debug, Clone, Copy, PartialEq, Eq)]
pub enum BridgeResult<T> {
    Success(T),
    Failure(BridgeError),
}

impl<T> BridgeResult<T> {
    /// Turns the bridge's reply into a `Result`.
    pub fn into_result(self) -> (r: Result<T, BridgeError>)
        ensures
            match self {
                BridgeResult::Success(v) => r == Result::<T, BridgeError>::Ok(v),
                BridgeResult::Failure(e) => r == Result::<T, BridgeError>::Err(e),
            },
    {
        match self {
            Self::Success(val) => Ok(val),
            Self::Failure(err) => Err(err),
        }
    }
}

/// A live bridge: the callable table behind a nonzero handle.
#[derive(Debug, Clone, Copy)]
pub struct Bridge {
    pub imp: BridgeImpl,
}

/// A prepared method resolution through the bridge: the callable to invoke,
/// the path of the method encoded in 8-bit units without a terminator (the
/// native side takes an explicit length), and the argument and return type
/// identities, the return type last.
pub struct MethodQuery {
    pub symbol: u64,
    pub path: Vec<u8>,
    pub types: Vec<TypeId>,
}

impl Bridge {
    /// Wraps the handle the bridge entry point returned.  A null handle
    /// yields no bridge; only a nonzero handle carries a callable table.
    pub fn from_handle(handle: u64, imp: BridgeImpl) -> (r: Option<Bridge>)
        ensures
            handle == 0 ==> r is None,
            handle != 0 ==> r == Some(Bridge { imp }),
    {
        if handle == 0 {
            None
        } else {
            Some(Bridge { imp })
        }
    }

    /// Prepares the resolution of a method by path and type identities.
    pub fn get_method(&self, path: &str, types: Vec<TypeId>) -> (r: MethodQuery)
        ensures
            r.symbol == self.imp.get_method,
            r.path@ == encode_utf8(path@),
            r.types == types,
    {
        MethodQuery { symbol: self.imp.get_method, path: path.as_bytes_vec(), types }
    }

    /// The callable that releases a handle the bridge handed out.
    pub fn release(&self) -> (r: u64)
        ensures
            r == self.imp.release,
    {
        self.imp.release
    }
}

/// A hosted runtime: what the reflection layer needs from an embedding.
/// The implementations live with the unverified driver, which alone can
/// reach the native side.
pub trait Runtime: Sized {
    type Error;

    /// Obtains the runtime instance.
    fn get() -> Result<Self, Self::Error>;

    /// Releases a handle the runtime handed out.
    fn release(&self, handle: u64) -> Result<(), Self::Error>;
}

/// What a runtime call reports: a value, or a runtime error.
pub enum RuntimeResult<T> {
    Success(T),
    Failure(RuntimeError),
}

/// An error reported from inside the hosted runtime.
pub enum RuntimeError {
    /// The hosted code raised an exception.
    Exception(crate::managed::Exception),
}

/// A value handed back across the bridge.
#[derive(Debug, Clone)]
pub struct HostResult<T: Clone> {
    pub value: T,
}

} // verus!
