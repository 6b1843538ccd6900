//! The wire type registry: the single source of truth mapping each primitive
//! value kind to its wire signature and its format-dependent byte alignment.
//!
//! The protocol has two framing formats, and a value's alignment may differ
//! between them, so every alignment query takes the format as an explicit
//! parameter: both formats stay queryable in the same build.
//!
//! Three kinds have no native wire type of their own and borrow another
//! kind's signature and alignment: signed 8-bit integers travel as signed
//! 16-bit ones, 32-bit floats as 64-bit ones, and a single character as a
//! text value. Each range-refined ("non-zero") integer kind reports exactly
//! what its base kind reports.

use vstd::prelude::*;

verus! {

/// The two wire framing formats of the protocol.
#[derive(Clone, Copy, Debug, PartialEq, Eq, Structural)]
pub enum Format {
    /// The primary framing format.
    DBus,
    /// The alternate, more compact framing format.
    GVariant,
}

/// A primitive value kind of the wire type model.
#[derive(Clone, Copy, Debug, PartialEq, Eq, Structural)]
pub enum ValueKind {
    U8,
    NonZeroU8,
    I8,
    NonZeroI8,
    Bool,
    I16,
    NonZeroI16,
    U16,
    NonZeroU16,
    I32,
    NonZeroI32,
    U32,
    NonZeroU32,
    I64,
    NonZeroI64,
    U64,
    NonZeroU64,
    F32,
    F64,
    Str,
    Char,
}

/// The one-character wire signature of a kind.
pub open spec fn spec_signature_char(k: ValueKind) -> char {
    match k {
        ValueKind::U8 | ValueKind::NonZeroU8 => 'y',
        ValueKind::I8 | ValueKind::NonZeroI8 => 'n',
        ValueKind::Bool => 'b',
        ValueKind::I16 | ValueKind::NonZeroI16 => 'n',
        ValueKind::U16 | ValueKind::NonZeroU16 => 'q',
        ValueKind::I32 | ValueKind::NonZeroI32 => 'i',
        ValueKind::U32 | ValueKind::NonZeroU32 => 'u',
        ValueKind::I64 | ValueKind::NonZeroI64 => 'x',
        ValueKind::U64 | ValueKind::NonZeroU64 => 't',
        ValueKind::F32 | ValueKind::F64 => 'd',
        ValueKind::Str | ValueKind::Char => 's',
    }
}

/// The wire signature of a primitive kind as a string: always exactly the
/// one signature character.
pub open spec fn spec_signature_str(k: ValueKind) -> Seq<char> {
    seq![spec_signature_char(k)]
}

/// The byte alignment a kind's first encoded byte must satisfy under the
/// given format.
pub open spec fn spec_alignment(k: ValueKind, f: Format) -> int {
    match k {
        ValueKind::U8 | ValueKind::NonZeroU8 => 1,
        ValueKind::I8 | ValueKind::NonZeroI8 => 2,
        ValueKind::Bool => 4,
        ValueKind::I16 | ValueKind::NonZeroI16 => 2,
        ValueKind::U16 | ValueKind::NonZeroU16 => 2,
        ValueKind::I32 | ValueKind::NonZeroI32 => 4,
        ValueKind::U32 | ValueKind::NonZeroU32 => 4,
        ValueKind::I64 | ValueKind::NonZeroI64 => 8,
        ValueKind::U64 | ValueKind::NonZeroU64 => 8,
        ValueKind::F32 | ValueKind::F64 => 8,
        ValueKind::Str | ValueKind::Char => match f {
            Format::DBus => 4,
            Format::GVariant => 1,
        },
    }
}

/// The base kind of a range-refined ("non-zero") integer kind, and `None`
/// for every kind that is not range-refined.
pub open spec fn spec_refined_base(k: ValueKind) -> Option<ValueKind> {
    match k {
        ValueKind::NonZeroU8 => Some(ValueKind::U8),
        ValueKind::NonZeroI8 => Some(ValueKind::I8),
        ValueKind::NonZeroI16 => Some(ValueKind::I16),
        ValueKind::NonZeroU16 => Some(ValueKind::U16),
        ValueKind::NonZeroI32 => Some(ValueKind::I32),
        ValueKind::NonZeroU32 => Some(ValueKind::U32),
        ValueKind::NonZeroI64 => Some(ValueKind::I64),
        ValueKind::NonZeroU64 => Some(ValueKind::U64),
        _ => None,
    }
}

impl ValueKind {
    /// The wire signature of this kind, as a character.
    pub fn signature_char(&self) -> (c: char)
        ensures
            c == spec_signature_char(*self),
    {
        match self {
            ValueKind::U8 | ValueKind::NonZeroU8 => 'y',
            ValueKind::I8 | ValueKind::NonZeroI8 => 'n',
            ValueKind::Bool => 'b',
            ValueKind::I16 | ValueKind::NonZeroI16 => 'n',
            ValueKind::U16 | ValueKind::NonZeroU16 => 'q',
            ValueKind::I32 | ValueKind::NonZeroI32 => 'i',
            ValueKind::U32 | ValueKind::NonZeroU32 => 'u',
            ValueKind::I64 | ValueKind::NonZeroI64 => 'x',
            ValueKind::U64 | ValueKind::NonZeroU64 => 't',
            ValueKind::F32 | ValueKind::F64 => 'd',
            ValueKind::Str | ValueKind::Char => 's',
        }
    }

    /// The wire signature of this kind, as a string.
    pub fn signature_str(&self) -> (s: &'static str)
        ensures
            s@ == spec_signature_str(*self),
    {
        let s: &'static str = match self {
            ValueKind::U8 | ValueKind::NonZeroU8 => "y",
            ValueKind::I8 | ValueKind::NonZeroI8 => "n",
            ValueKind::Bool => "b",
            ValueKind::I16 | ValueKind::NonZeroI16 => "n",
            ValueKind::U16 | ValueKind::NonZeroU16 => "q",
            ValueKind::I32 | ValueKind::NonZeroI32 => "i",
            ValueKind::U32 | ValueKind::NonZeroU32 => "u",
            ValueKind::I64 | ValueKind::NonZeroI64 => "x",
            ValueKind::U64 | ValueKind::NonZeroU64 => "t",
            ValueKind::F32 | ValueKind::F64 => "d",
            ValueKind::Str | ValueKind::Char => "s",
        };
        proof {
            reveal_strlit("y");
            reveal_strlit("n");
            reveal_strlit("b");
            reveal_strlit("q");
            reveal_strlit("i");
            reveal_strlit("u");
            reveal_strlit("x");
            reveal_strlit("t");
            reveal_strlit("d");
            reveal_strlit("s");
            assert(s@ =~= spec_signature_str(*self));
        }
        s
    }

    /// The required padding alignment of this kind under the given format.
    pub fn alignment(&self, format: Format) -> (a: usize)
        ensures
            a == spec_alignment(*self, format),
    {
        match self {
            ValueKind::U8 | ValueKind::NonZeroU8 => 1,
            ValueKind::I8 | ValueKind::NonZeroI8 => 2,
            ValueKind::Bool => 4,
            ValueKind::I16 | ValueKind::NonZeroI16 => 2,
            ValueKind::U16 | ValueKind::NonZeroU16 => 2,
            ValueKind::I32 | ValueKind::NonZeroI32 => 4,
            ValueKind::U32 | ValueKind::NonZeroU32 => 4,
            ValueKind::I64 | ValueKind::NonZeroI64 => 8,
            ValueKind::U64 | ValueKind::NonZeroU64 => 8,
            ValueKind::F32 | ValueKind::F64 => 8,
            ValueKind::Str | ValueKind::Char => match format {
                Format::DBus => 4,
                Format::GVariant => 1,
            },
        }
    }

    /// The base kind this range-refined kind delegates to, if this kind is
    /// range-refined.
    pub fn refined_base(&self) -> (b: Option<ValueKind>)
        ensures
            b == spec_refined_base(*self),
    {
        match self {
            ValueKind::NonZeroU8 => Some(ValueKind::U8),
            ValueKind::NonZeroI8 => Some(ValueKind::I8),
            ValueKind::NonZeroI16 => Some(ValueKind::I16),
            ValueKind::NonZeroU16 => Some(ValueKind::U16),
            ValueKind::NonZeroI32 => Some(ValueKind::I32),
            ValueKind::NonZeroU32 => Some(ValueKind::U32),
            ValueKind::NonZeroI64 => Some(ValueKind::I64),
            ValueKind::NonZeroU64 => Some(ValueKind::U64),
            _ => None,
        }
    }
}

/// For every primitive kind the signature string has length one and its
/// single character is the signature character.
pub proof fn lemma_signature_str_is_signature_char(k: ValueKind)
    ensures
        spec_signature_str(k).len() == 1,
        spec_signature_str(k)[0] == spec_signature_char(k),
{
}

/// Every alignment, under either format, is one of 1, 2, 4 and 8.
pub proof fn lemma_alignment_in_range(k: ValueKind, f: Format)
    ensures
        spec_alignment(k, f) == 1 || spec_alignment(k, f) == 2 || spec_alignment(k, f) == 4
            || spec_alignment(k, f) == 8,
{
}

/// Alignment is a pure function of kind and format: any two results of
/// `ValueKind::alignment` for the same kind and format are equal, so
/// repeated queries are stable.
pub proof fn lemma_alignment_stable(k: ValueKind, f: Format, a1: usize, a2: usize)
    requires
        a1 == spec_alignment(k, f),
        a2 == spec_alignment(k, f),
    ensures
        a1 == a2,
{
}

/// The signed 8-bit kind reports exactly the signed 16-bit kind's signature
/// and alignment, under both formats: the protocol has no native signed
/// 8-bit wire type.
pub proof fn lemma_i8_reports_as_i16(f: Format)
    ensures
        spec_signature_char(ValueKind::I8) == spec_signature_char(ValueKind::I16),
        spec_signature_str(ValueKind::I8) == spec_signature_str(ValueKind::I16),
        spec_alignment(ValueKind::I8, f) == spec_alignment(ValueKind::I16, f),
{
}

/// The 32-bit float kind reports exactly the 64-bit float kind's signature
/// and alignment, under both formats: the protocol has no native 32-bit
/// float wire type.
pub proof fn lemma_f32_reports_as_f64(f: Format)
    ensures
        spec_signature_char(ValueKind::F32) == spec_signature_char(ValueKind::F64),
        spec_signature_str(ValueKind::F32) == spec_signature_str(ValueKind::F64),
        spec_alignment(ValueKind::F32, f) == spec_alignment(ValueKind::F64, f),
{
}

/// The single-character kind reports exactly the text kind's signature and
/// alignment, under both formats: a character travels as text.
pub proof fn lemma_char_reports_as_text(f: Format)
    ensures
        spec_signature_char(ValueKind::Char) == spec_signature_char(ValueKind::Str),
        spec_signature_str(ValueKind::Char) == spec_signature_str(ValueKind::Str),
        spec_alignment(ValueKind::Char, f) == spec_alignment(ValueKind::Str, f),
{
}

/// Every range-refined ("non-zero") integer kind reports exactly its base
/// kind's signature and alignment, under both formats.
pub proof fn lemma_refined_reports_as_base(k: ValueKind, b: ValueKind, f: Format)
    requires
        spec_refined_base(k) == Some(b),
    ensures
        spec_signature_char(k) == spec_signature_char(b),
        spec_signature_str(k) == spec_signature_str(b),
        spec_alignment(k, f) == spec_alignment(b, f),
{
}

} // verus!
