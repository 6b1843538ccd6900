//! The `Basic` trait ties Rust types that can travel as primitive wire
//! values to their entry in the wire type registry.
//!
//! Every implementer names its [`ValueKind`]; the signature and alignment
//! queries then answer exactly what the registry answers for that kind. A
//! reference reports what its referent reports. The range-refined
//! ("non-zero") integer kinds and the float kinds are queried through
//! [`ValueKind`] directly, where the registry proves what they delegate to.

use vstd::prelude::*;

use crate::wire::spec_alignment;
use crate::wire::spec_signature_char;
use crate::wire::spec_signature_str;
use crate::wire::Format;
use crate::wire::ValueKind;

verus! {

/// Trait for basic (primitive) wire types.
pub trait Basic {
    /// The registry kind this type travels as.
    spec fn kind() -> ValueKind;

    /// The registry kind this type travels as, as a runtime value.
    fn runtime_kind() -> (k: ValueKind)
        ensures
            k == Self::kind(),
    ;

    /// The type signature, as a character.
    fn signature_char() -> (c: char)
        ensures
            c == spec_signature_char(Self::kind()),
    {
        let k = Self::runtime_kind();
        k.signature_char()
    }

    /// The type signature, as a string.
    fn signature_str() -> (s: &'static str)
        ensures
            s@ == spec_signature_str(Self::kind()),
    {
        let k = Self::runtime_kind();
        k.signature_str()
    }

    /// The required padding alignment for the given format.
    fn alignment(format: Format) -> (a: usize)
        ensures
            a == spec_alignment(Self::kind(), format),
    {
        let k = Self::runtime_kind();
        k.alignment(format)
    }
}

/// A reference reports exactly what its referent reports.
impl<B: Basic> Basic for &B {
    open spec fn kind() -> ValueKind {
        B::kind()
    }

    fn runtime_kind() -> (k: ValueKind) {
        B::runtime_kind()
    }
}

impl Basic for u8 {
    open spec fn kind() -> ValueKind {
        ValueKind::U8
    }

    fn runtime_kind() -> (k: ValueKind) {
        ValueKind::U8
    }
}

impl Basic for i8 {
    open spec fn kind() -> ValueKind {
        ValueKind::I8
    }

    fn runtime_kind() -> (k: ValueKind) {
        ValueKind::I8
    }
}

impl Basic for bool {
    open spec fn kind() -> ValueKind {
        ValueKind::Bool
    }

    fn runtime_kind() -> (k: ValueKind) {
        ValueKind::Bool
    }
}

impl Basic for i16 {
    open spec fn kind() -> ValueKind {
        ValueKind::I16
    }

    fn runtime_kind() -> (k: ValueKind) {
        ValueKind::I16
    }
}

impl Basic for u16 {
    open spec fn kind() -> ValueKind {
        ValueKind::U16
    }

    fn runtime_kind() -> (k: ValueKind) {
        ValueKind::U16
    }
}

impl Basic for i32 {
    open spec fn kind() -> ValueKind {
        ValueKind::I32
    }

    fn runtime_kind() -> (k: ValueKind) {
        ValueKind::I32
    }
}

impl Basic for u32 {
    open spec fn kind() -> ValueKind {
        ValueKind::U32
    }

    fn runtime_kind() -> (k: ValueKind) {
        ValueKind::U32
    }
}

impl Basic for i64 {
    open spec fn kind() -> ValueKind {
        ValueKind::I64
    }

    fn runtime_kind() -> (k: ValueKind) {
        ValueKind::I64
    }
}

impl Basic for u64 {
    open spec fn kind() -> ValueKind {
        ValueKind::U64
    }

    fn runtime_kind() -> (k: ValueKind) {
        ValueKind::U64
    }
}

impl Basic for String {
    open spec fn kind() -> ValueKind {
        ValueKind::Str
    }

    fn runtime_kind() -> (k: ValueKind) {
        ValueKind::Str
    }
}

impl Basic for char {
    open spec fn kind() -> ValueKind {
        ValueKind::Char
    }

    fn runtime_kind() -> (k: ValueKind) {
        ValueKind::Char
    }
}

} // verus!
