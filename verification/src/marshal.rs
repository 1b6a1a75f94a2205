//! Conversions between host values and their managed representations.
//!
//! A blittable value crosses the bridge unchanged.  Reference-shaped values
//! (strings, arrays) cross as a pointer-and-length pair, carried here as
//! plain numbers; producing or consuming the pointed-at memory is the
//! unverified driver's part.

use vstd::prelude::*;

use crate::managed::TypeId;

verus! {

/// An error raised while converting a value across the bridge.
#[derive(Debug, Clone, PartialEq, Eq)]
pub enum MarshalError {
    /// A conversion-specific failure, described in words.
    Custom(String),
}

/// A type with a managed representation.
pub trait Marshal {
    /// The managed representation.
    type Managed;

    /// The identity of the managed type.
    spec fn spec_id() -> TypeId;

    /// True when values cross the bridge unchanged.
    spec fn spec_blittable() -> bool;

    /// Returns the identity of the managed type.
    fn id() -> (r: TypeId)
        ensures
            r == Self::spec_id(),
    ;

    /// Returns whether values cross the bridge unchanged.
    fn blittable() -> (r: bool)
        ensures
            r == Self::spec_blittable(),
    ;
}

/// A conversion into the managed representation.
pub trait MarshalTo: Marshal + Sized {
    /// The managed value the conversion yields.
    spec fn spec_to(self) -> Self::Managed;

    /// Performs the conversion.
    fn marshal_to(self) -> (r: Result<Self::Managed, MarshalError>)
        ensures
            r matches Ok(m) && m == self.spec_to(),
    ;
}

/// A conversion out of the managed representation.
pub trait MarshalFrom: Marshal + Sized {
    /// The host value the conversion yields.
    spec fn spec_from(from: Self::Managed) -> Self;

    /// Performs the conversion.
    fn marshal_from(from: Self::Managed) -> (r: Result<Self, MarshalError>)
        ensures
            r matches Ok(v) && v == Self::spec_from(from),
    ;
}

impl Marshal for bool {
    type Managed = bool;

    open spec fn spec_id() -> TypeId {
        TypeId::Boolean
    }

    open spec fn spec_blittable() -> bool {
        true
    }

    fn id() -> TypeId {
        TypeId::Boolean
    }

    fn blittable() -> bool {
        true
    }
}

impl MarshalTo for bool {
    open spec fn spec_to(self) -> bool {
        self
    }

    fn marshal_to(self) -> Result<bool, MarshalError> {
        Ok(self)
    }
}

impl MarshalFrom for bool {
    open spec fn spec_from(from: bool) -> bool {
        from
    }

    fn marshal_from(from: bool) -> Result<bool, MarshalError> {
        Ok(from)
    }
}

impl Marshal for u8 {
    type Managed = u8;

    open spec fn spec_id() -> TypeId {
        TypeId::Byte
    }

    open spec fn spec_blittable() -> bool {
        true
    }

    fn id() -> TypeId {
        TypeId::Byte
    }

    fn blittable() -> bool {
        true
    }
}

impl MarshalTo for u8 {
    open spec fn spec_to(self) -> u8 {
        self
    }

    fn marshal_to(self) -> Result<u8, MarshalError> {
        Ok(self)
    }
}

impl MarshalFrom for u8 {
    open spec fn spec_from(from: u8) -> u8 {
        from
    }

    fn marshal_from(from: u8) -> Result<u8, MarshalError> {
        Ok(from)
    }
}

impl Marshal for u16 {
    type Managed = u16;

    open spec fn spec_id() -> TypeId {
        TypeId::UInt16
    }

    open spec fn spec_blittable() -> bool {
        true
    }

    fn id() -> TypeId {
        TypeId::UInt16
    }

    fn blittable() -> bool {
        true
    }
}

impl MarshalTo for u16 {
    open spec fn spec_to(self) -> u16 {
        self
    }

    fn marshal_to(self) -> Result<u16, MarshalError> {
        Ok(self)
    }
}

impl MarshalFrom for u16 {
    open spec fn spec_from(from: u16) -> u16 {
        from
    }

    fn marshal_from(from: u16) -> Result<u16, MarshalError> {
        Ok(from)
    }
}

impl Marshal for u32 {
    type Managed = u32;

    open spec fn spec_id() -> TypeId {
        TypeId::UInt32
    }

    open spec fn spec_blittable() -> bool {
        true
    }

    fn id() -> TypeId {
        TypeId::UInt32
    }

    fn blittable() -> bool {
        true
    }
}

impl MarshalTo for u32 {
    open spec fn spec_to(self) -> u32 {
        self
    }

    fn marshal_to(self) -> Result<u32, MarshalError> {
        Ok(self)
    }
}

impl MarshalFrom for u32 {
    open spec fn spec_from(from: u32) -> u32 {
        from
    }

    fn marshal_from(from: u32) -> Result<u32, MarshalError> {
        Ok(from)
    }
}

impl Marshal for u64 {
    type Managed = u64;

    open spec fn spec_id() -> TypeId {
        TypeId::UInt64
    }

    open spec fn spec_blittable() -> bool {
        true
    }

    fn id() -> TypeId {
        TypeId::UInt64
    }

    fn blittable() -> bool {
        true
    }
}

impl MarshalTo for u64 {
    open spec fn spec_to(self) -> u64 {
        self
    }

    fn marshal_to(self) -> Result<u64, MarshalError> {
        Ok(self)
    }
}

impl MarshalFrom for u64 {
    open spec fn spec_from(from: u64) -> u64 {
        from
    }

    fn marshal_from(from: u64) -> Result<u64, MarshalError> {
        Ok(from)
    }
}

impl Marshal for i8 {
    type Managed = i8;

    open spec fn spec_id() -> TypeId {
        TypeId::SByte
    }

    open spec fn spec_blittable() -> bool {
        true
    }

    fn id() -> TypeId {
        TypeId::SByte
    }

    fn blittable() -> bool {
        true
    }
}

impl MarshalTo for i8 {
    open spec fn spec_to(self) -> i8 {
        self
    }

    fn marshal_to(self) -> Result<i8, MarshalError> {
        Ok(self)
    }
}

impl MarshalFrom for i8 {
    open spec fn spec_from(from: i8) -> i8 {
        from
    }

    fn marshal_from(from: i8) -> Result<i8, MarshalError> {
        Ok(from)
    }
}

impl Marshal for i16 {
    type Managed = i16;

    open spec fn spec_id() -> TypeId {
        TypeId::Int16
    }

    open spec fn spec_blittable() -> bool {
        true
    }

    fn id() -> TypeId {
        TypeId::Int16
    }

    fn blittable() -> bool {
        true
    }
}

impl MarshalTo for i16 {
    open spec fn spec_to(self) -> i16 {
        self
    }

    fn marshal_to(self) -> Result<i16, MarshalError> {
        Ok(self)
    }
}

impl MarshalFrom for i16 {
    open spec fn spec_from(from: i16) -> i16 {
        from
    }

    fn marshal_from(from: i16) -> Result<i16, MarshalError> {
        Ok(from)
    }
}

impl Marshal for i32 {
    type Managed = i32;

    open spec fn spec_id() -> TypeId {
        TypeId::Int32
    }

    open spec fn spec_blittable() -> bool {
        true
    }

    fn id() -> TypeId {
        TypeId::Int32
    }

    fn blittable() -> bool {
        true
    }
}

impl MarshalTo for i32 {
    open spec fn spec_to(self) -> i32 {
        self
    }

    fn marshal_to(self) -> Result<i32, MarshalError> {
        Ok(self)
    }
}

impl MarshalFrom for i32 {
    open spec fn spec_from(from: i32) -> i32 {
        from
    }

    fn marshal_from(from: i32) -> Result<i32, MarshalError> {
        Ok(from)
    }
}

impl Marshal for i64 {
    type Managed = i64;

    open spec fn spec_id() -> TypeId {
        TypeId::Int64
    }

    open spec fn spec_blittable() -> bool {
        true
    }

    fn id() -> TypeId {
        TypeId::Int64
    }

    fn blittable() -> bool {
        true
    }
}

impl MarshalTo for i64 {
    open spec fn spec_to(self) -> i64 {
        self
    }

    fn marshal_to(self) -> Result<i64, MarshalError> {
        Ok(self)
    }
}

impl MarshalFrom for i64 {
    open spec fn spec_from(from: i64) -> i64 {
        from
    }

    fn marshal_from(from: i64) -> Result<i64, MarshalError> {
        Ok(from)
    }
}

impl Marshal for usize {
    type Managed = usize;

    open spec fn spec_id() -> TypeId {
        TypeId::UInt64
    }

    open spec fn spec_blittable() -> bool {
        true
    }

    fn id() -> TypeId {
        TypeId::UInt64
    }

    fn blittable() -> bool {
        true
    }
}

impl MarshalTo for usize {
    open spec fn spec_to(self) -> usize {
        self
    }

    fn marshal_to(self) -> Result<usize, MarshalError> {
        Ok(self)
    }
}

impl MarshalFrom for usize {
    open spec fn spec_from(from: usize) -> usize {
        from
    }

    fn marshal_from(from: usize) -> Result<usize, MarshalError> {
        Ok(from)
    }
}

impl Marshal for String {
    type Managed = (u64, u32);

    open spec fn spec_id() -> TypeId {
        TypeId::String
    }

    open spec fn spec_blittable() -> bool {
        false
    }

    fn id() -> TypeId {
        TypeId::String
    }

    fn blittable() -> bool {
        false
    }
}

} // verus!
