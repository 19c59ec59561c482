//! The closed set of numeric types that a cast expression may name.

use vstd::prelude::*;

verus! {

/// Selector over the ten numeric kinds a cast may request: signed and
/// unsigned integers of 8, 16, 32 and 64 bits, and two floating-point
/// widths. The tag decides which textual grammar the variable's value
/// must meet and which suffix the emitted literal carries.
#[derive(Clone, Copy, Debug, PartialEq, Eq, Structural)]
pub enum TypeTag {
    I8,
    U8,
    I16,
    U16,
    I32,
    U32,
    I64,
    U64,
    F32,
    F64,
}

impl TypeTag {
    /// True for the two floating-point tags.
    pub open spec fn is_float(self) -> bool {
        match self {
            TypeTag::F32 | TypeTag::F64 => true,
            _ => false,
        }
    }

    /// True when a value of this type may carry a leading minus sign.
    pub open spec fn is_signed(self) -> bool {
        match self {
            TypeTag::U8 | TypeTag::U16 | TypeTag::U32 | TypeTag::U64 => false,
            _ => true,
        }
    }

    /// Smallest value an integer tag can represent.
    pub open spec fn spec_min(self) -> int {
        match self {
            TypeTag::I8 => -128,
            TypeTag::I16 => -32768,
            TypeTag::I32 => -2147483648,
            TypeTag::I64 => -9223372036854775808,
            _ => 0,
        }
    }

    /// Largest value an integer tag can represent.
    pub open spec fn spec_max(self) -> int {
        match self {
            TypeTag::I8 => 127,
            TypeTag::I16 => 32767,
            TypeTag::I32 => 2147483647,
            TypeTag::I64 => 9223372036854775807,
            TypeTag::U8 => 255,
            TypeTag::U16 => 65535,
            TypeTag::U32 => 4294967295,
            TypeTag::U64 => 18446744073709551615,
            _ => 0,
        }
    }

    /// Whether an integer value lies in this tag's representable range.
    pub open spec fn in_range(self, v: int) -> bool {
        self.spec_min() <= v <= self.spec_max()
    }

    /// The characters of the literal suffix this tag emits.
    pub open spec fn spec_suffix(self) -> Seq<char> {
        match self {
            TypeTag::I8 => "i8"@,
            TypeTag::U8 => "u8"@,
            TypeTag::I16 => "i16"@,
            TypeTag::U16 => "u16"@,
            TypeTag::I32 => "i32"@,
            TypeTag::U32 => "u32"@,
            TypeTag::I64 => "i64"@,
            TypeTag::U64 => "u64"@,
            TypeTag::F32 => "f32"@,
            TypeTag::F64 => "f64"@,
        }
    }

    /// The literal suffix of this tag, as text.
    pub fn suffix(self) -> (r: &'static str)
        ensures
            r@ == self.spec_suffix(),
    {
        match self {
            TypeTag::I8 => "i8",
            TypeTag::U8 => "u8",
            TypeTag::I16 => "i16",
            TypeTag::U16 => "u16",
            TypeTag::I32 => "i32",
            TypeTag::U32 => "u32",
            TypeTag::I64 => "i64",
            TypeTag::U64 => "u64",
            TypeTag::F32 => "f32",
            TypeTag::F64 => "f64",
        }
    }
}

} // verus!
