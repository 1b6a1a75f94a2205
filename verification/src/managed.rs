//! Handles to values owned by the hosted runtime, and the queries the
//! reflection layer derives from them.
//!
//! A managed value is reached through an opaque nonzero handle.  Reading a
//! member of such a value takes a runtime call; what this layer decides is
//! which member of which handle is asked for, captured as a [`MemberQuery`]
//! that the unverified driver carries to the runtime.

use vstd::prelude::*;

verus! {

/// The identity of a managed type, as the bridge describes call signatures.
#[derive(Debug, PartialEq, Eq)]
pub enum TypeId {
    Char,
    Byte,
    Int16,
    Int32,
    Int64,
    SByte,
    UInt16,
    UInt32,
    UInt64,
    Float,
    Double,
    String,
    Boolean,
    Object,
    Array(Box<TypeId>),
    Nullable(Box<TypeId>),
    Enumerable(Box<TypeId>),
}

/// The kind of a value crossing the bridge by layout.
#[derive(Debug, Clone, Copy)]
pub enum ObjectKind {
    Char,
    Byte,
    SByte,
    Boolean,
    Short,
    UShort,
    Int32,
    UInt32,
    Int64,
    UInt64,
    Float,
    Double,
    Decimal,
    String,
    Object,
}

/// An owned handle to a value kept alive by the hosted runtime's collector.
/// The handle is nonzero for as long as the value is held; releasing it is
/// the driver's duty, through the runtime that handed it out.
#[derive(Debug, Clone, Copy, PartialEq, Eq, Structural)]
pub struct GcHandle {
    raw: u64,
}

impl GcHandle {
    /// The raw handle value.
    pub closed spec fn spec_raw(self) -> u64 {
        self.raw
    }

    /// Wraps a raw handle; a null handle is no handle.
    pub fn new(raw: u64) -> (r: Option<GcHandle>)
        ensures
            raw == 0 ==> r is None,
            raw != 0 ==> (r matches Some(h) && h.spec_raw() == raw),
    {
        if raw == 0 {
            None
        } else {
            Some(GcHandle { raw })
        }
    }

    /// Returns the raw handle value.
    pub fn raw(&self) -> (r: u64)
        ensures
            r == self.spec_raw(),
    {
        self.raw
    }
}

/// The kind of member a query asks for.
#[derive(Debug, Clone, Copy, PartialEq, Eq, Structural)]
pub enum MemberKind {
    Field,
    Property,
    Method,
}

/// A prepared member read on a managed value: the handle of the target, the
/// kind of member, and its name.
pub struct MemberQuery {
    pub target: u64,
    pub kind: MemberKind,
    pub member: String,
}

/// A managed class instance, reached through its collector handle.
#[derive(Debug, Clone, Copy, PartialEq, Eq, Structural)]
pub struct Class {
    pub handle: GcHandle,
}

impl Class {
    /// Wraps a collector handle.
    pub fn new(handle: GcHandle) -> (r: Class)
        ensures
            r.handle == handle,
    {
        Class { handle }
    }

    /// Prepares the read of a named field of this instance.
    pub fn get_field(&self, name: &str) -> (q: MemberQuery)
        ensures
            q.target == self.handle.spec_raw(),
            q.kind == MemberKind::Field,
            q.member@ == name@,
    {
        MemberQuery { target: self.handle.raw(), kind: MemberKind::Field, member: name.to_owned() }
    }

    /// Prepares the read of a named property of this instance.
    pub fn get_property(&self, name: &str) -> (q: MemberQuery)
        ensures
            q.target == self.handle.spec_raw(),
            q.kind == MemberKind::Property,
            q.member@ == name@,
    {
        MemberQuery {
            target: self.handle.raw(),
            kind: MemberKind::Property,
            member: name.to_owned(),
        }
    }

    /// Prepares the query for this instance's runtime type.
    pub fn get_type(&self) -> (q: MemberQuery)
        ensures
            q.target == self.handle.spec_raw(),
            q.kind == MemberKind::Method,
            q.member@ == "GetType"@,
    {
        MemberQuery {
            target: self.handle.raw(),
            kind: MemberKind::Method,
            member: "GetType".to_owned(),
        }
    }
}

/// A managed exception, reached like any other class instance.
#[derive(Debug, Clone, Copy, PartialEq, Eq, Structural)]
pub struct Exception(pub Class);

impl Exception {
    /// Prepares the read of the exception's message text.
    pub fn message(&self) -> (q: MemberQuery)
        ensures
            q.target == self.0.handle.spec_raw(),
            q.kind == MemberKind::Property,
            q.member@ == "Message"@,
    {
        self.0.get_property("Message")
    }
}

/// A managed reflection type, reached like any other class instance.
#[derive(Debug, Clone, Copy, PartialEq, Eq, Structural)]
pub struct Type(pub Class);

impl Type {
    /// Prepares the read of the type's name.
    pub fn get_name(&self) -> (q: MemberQuery)
        ensures
            q.target == self.0.handle.spec_raw(),
            q.kind == MemberKind::Property,
            q.member@ == "Name"@,
    {
        self.0.get_property("Name")
    }

    /// Prepares the read of whether the type is a class.
    pub fn is_class(&self) -> (q: MemberQuery)
        ensures
            q.target == self.0.handle.spec_raw(),
            q.kind == MemberKind::Property,
            q.member@ == "IsClass"@,
    {
        self.0.get_property("IsClass")
    }
}

/// The identities a method's signature carries across the bridge: its
/// argument types in order, then its return type.
pub trait Method<Args> {
    /// The identity of the return type.
    fn ret_type_id() -> TypeId;

    /// The identities of the argument types, in order.
    fn arg_type_ids() -> Vec<TypeId>;
}

} // verus!
