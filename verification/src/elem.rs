// The mathematical model of an array element, and the capability trait that
// each primitive element type implements: ordered comparison and equality,
// each proved against the model.
//
// Integers of every width and signedness are modelled as mathematical
// integers, floats as their bit patterns with IEEE-754 ordered semantics,
// byte strings as byte sequences under lexicographic order.

use vstd::prelude::*;

use crate::bytes::{bytes_eq, bytes_lt, lex_lt};
use crate::floats::{
    f32_eq, f32_eq_bits, f32_is_nan, f32_lt, f32_lt_bits, f64_eq, f64_eq_bits, f64_is_nan, f64_lt,
    f64_lt_bits, F32Bits, F64Bits,
};

verus! {

/// The value of one array element, as contracts speak of it.
pub enum SpecElem {
    /// A signed or unsigned integer of any width, as a mathematical integer.
    Int(int),
    /// A 32-bit float, as its raw bits.
    F32(u32),
    /// A 64-bit float, as its raw bits.
    F64(u64),
    /// A variable-length byte string.
    Str(Seq<u8>),
}

/// Strict `<` on two elements of the same kind; elements of different kinds
/// never meet (the dispatcher rejects mixed element types first).
pub open spec fn spec_elem_lt(a: SpecElem, b: SpecElem) -> bool {
    match (a, b) {
        (SpecElem::Int(x), SpecElem::Int(y)) => x < y,
        (SpecElem::F32(x), SpecElem::F32(y)) => f32_lt(x, y),
        (SpecElem::F64(x), SpecElem::F64(y)) => f64_lt(x, y),
        (SpecElem::Str(x), SpecElem::Str(y)) => lex_lt(x, y),
        _ => false,
    }
}

/// Equality on two elements of the same kind. For floats this is the IEEE-754
/// ordered equality: NaN is not equal to itself, and the two zeroes are equal.
pub open spec fn spec_elem_eq(a: SpecElem, b: SpecElem) -> bool {
    match (a, b) {
        (SpecElem::Int(x), SpecElem::Int(y)) => x == y,
        (SpecElem::F32(x), SpecElem::F32(y)) => f32_eq(x, y),
        (SpecElem::F64(x), SpecElem::F64(y)) => f64_eq(x, y),
        (SpecElem::Str(x), SpecElem::Str(y)) => x == y,
        _ => false,
    }
}

/// `<=` on two elements: less or equal. For every kind, NaN included, this is
/// the ordered `<=`.
pub open spec fn spec_elem_le(a: SpecElem, b: SpecElem) -> bool {
    spec_elem_lt(a, b) || spec_elem_eq(a, b)
}

/// True when the element is a float NaN; integer and string elements never are.
pub open spec fn spec_elem_is_nan(a: SpecElem) -> bool {
    match a {
        SpecElem::F32(x) => f32_is_nan(x),
        SpecElem::F64(x) => f64_is_nan(x),
        _ => false,
    }
}

/// A primitive element type the kernel can compare: it maps into the element
/// model and carries ordered comparison and equality proved against it.
pub trait Element: Sized {
    /// The element this value stands for.
    spec fn elem(&self) -> SpecElem;

    /// Strict `<` against another value of the same type.
    fn elem_lt(&self, other: &Self) -> (r: bool)
        ensures
            r == spec_elem_lt(self.elem(), other.elem()),
    ;

    /// Equality against another value of the same type.
    fn elem_eq(&self, other: &Self) -> (r: bool)
        ensures
            r == spec_elem_eq(self.elem(), other.elem()),
    ;
}

impl Element for i8 {
    open spec fn elem(&self) -> SpecElem {
        SpecElem::Int(*self as int)
    }

    fn elem_lt(&self, other: &Self) -> (r: bool) {
        *self < *other
    }

    fn elem_eq(&self, other: &Self) -> (r: bool) {
        *self == *other
    }
}

impl Element for i16 {
    open spec fn elem(&self) -> SpecElem {
        SpecElem::Int(*self as int)
    }

    fn elem_lt(&self, other: &Self) -> (r: bool) {
        *self < *other
    }

    fn elem_eq(&self, other: &Self) -> (r: bool) {
        *self == *other
    }
}

impl Element for i32 {
    open spec fn elem(&self) -> SpecElem {
        SpecElem::Int(*self as int)
    }

    fn elem_lt(&self, other: &Self) -> (r: bool) {
        *self < *other
    }

    fn elem_eq(&self, other: &Self) -> (r: bool) {
        *self == *other
    }
}

impl Element for i64 {
    open spec fn elem(&self) -> SpecElem {
        SpecElem::Int(*self as int)
    }

    fn elem_lt(&self, other: &Self) -> (r: bool) {
        *self < *other
    }

    fn elem_eq(&self, other: &Self) -> (r: bool) {
        *self == *other
    }
}

impl Element for u8 {
    open spec fn elem(&self) -> SpecElem {
        SpecElem::Int(*self as int)
    }

    fn elem_lt(&self, other: &Self) -> (r: bool) {
        *self < *other
    }

    fn elem_eq(&self, other: &Self) -> (r: bool) {
        *self == *other
    }
}

impl Element for u16 {
    open spec fn elem(&self) -> SpecElem {
        SpecElem::Int(*self as int)
    }

    fn elem_lt(&self, other: &Self) -> (r: bool) {
        *self < *other
    }

    fn elem_eq(&self, other: &Self) -> (r: bool) {
        *self == *other
    }
}

impl Element for u32 {
    open spec fn elem(&self) -> SpecElem {
        SpecElem::Int(*self as int)
    }

    fn elem_lt(&self, other: &Self) -> (r: bool) {
        *self < *other
    }

    fn elem_eq(&self, other: &Self) -> (r: bool) {
        *self == *other
    }
}

impl Element for u64 {
    open spec fn elem(&self) -> SpecElem {
        SpecElem::Int(*self as int)
    }

    fn elem_lt(&self, other: &Self) -> (r: bool) {
        *self < *other
    }

    fn elem_eq(&self, other: &Self) -> (r: bool) {
        *self == *other
    }
}

impl Element for F32Bits {
    open spec fn elem(&self) -> SpecElem {
        SpecElem::F32(self.bits)
    }

    fn elem_lt(&self, other: &Self) -> (r: bool) {
        f32_lt_bits(self.bits, other.bits)
    }

    fn elem_eq(&self, other: &Self) -> (r: bool) {
        f32_eq_bits(self.bits, other.bits)
    }
}

impl Element for F64Bits {
    open spec fn elem(&self) -> SpecElem {
        SpecElem::F64(self.bits)
    }

    fn elem_lt(&self, other: &Self) -> (r: bool) {
        f64_lt_bits(self.bits, other.bits)
    }

    fn elem_eq(&self, other: &Self) -> (r: bool) {
        f64_eq_bits(self.bits, other.bits)
    }
}

impl Element for Vec<u8> {
    open spec fn elem(&self) -> SpecElem {
        SpecElem::Str(self@)
    }

    fn elem_lt(&self, other: &Self) -> (r: bool) {
        bytes_lt(self, other)
    }

    fn elem_eq(&self, other: &Self) -> (r: bool) {
        bytes_eq(self, other)
    }
}

} // verus!
