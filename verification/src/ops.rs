// The closed operator set {Eq, Lt, LtEq, Gt, GtEq}, the reflection rewrite
// that swapping the operands calls for, and the application of an operator to
// one pair of elements, both as a spec and as executable code.

use vstd::prelude::*;

use crate::elem::{spec_elem_eq, spec_elem_le, spec_elem_lt, Element, SpecElem};

verus! {

/// A binary comparison operator.
#[derive(Clone, Copy, Debug, PartialEq, Eq, Structural)]
pub enum DataValueComparisonOperator {
    Eq,
    Lt,
    LtEq,
    Gt,
    GtEq,
}

/// The operator that gives the same truth value when the operands are
/// swapped: Eq stays, Lt and Gt trade places, LtEq and GtEq trade places.
pub open spec fn spec_reflect(op: DataValueComparisonOperator) -> DataValueComparisonOperator {
    match op {
        DataValueComparisonOperator::Eq => DataValueComparisonOperator::Eq,
        DataValueComparisonOperator::Lt => DataValueComparisonOperator::Gt,
        DataValueComparisonOperator::LtEq => DataValueComparisonOperator::GtEq,
        DataValueComparisonOperator::Gt => DataValueComparisonOperator::Lt,
        DataValueComparisonOperator::GtEq => DataValueComparisonOperator::LtEq,
    }
}

/// Reflection of an operator, for normalizing Scalar-Array to Array-Scalar.
pub fn reflect(op: DataValueComparisonOperator) -> (r: DataValueComparisonOperator)
    ensures
        r == spec_reflect(op),
{
    match op {
        DataValueComparisonOperator::Eq => DataValueComparisonOperator::Eq,
        DataValueComparisonOperator::Lt => DataValueComparisonOperator::Gt,
        DataValueComparisonOperator::LtEq => DataValueComparisonOperator::GtEq,
        DataValueComparisonOperator::Gt => DataValueComparisonOperator::Lt,
        DataValueComparisonOperator::GtEq => DataValueComparisonOperator::LtEq,
    }
}

/// The truth value of `a op b` on one pair of elements.
pub open spec fn spec_apply(
    op: DataValueComparisonOperator,
    a: SpecElem,
    b: SpecElem,
) -> bool {
    match op {
        DataValueComparisonOperator::Eq => spec_elem_eq(a, b),
        DataValueComparisonOperator::Lt => spec_elem_lt(a, b),
        DataValueComparisonOperator::LtEq => spec_elem_le(a, b),
        DataValueComparisonOperator::Gt => spec_elem_lt(b, a),
        DataValueComparisonOperator::GtEq => spec_elem_le(b, a),
    }
}

/// Element equality is symmetric in its two operands.
proof fn lemma_elem_eq_symmetric(a: SpecElem, b: SpecElem)
    ensures
        spec_elem_eq(a, b) == spec_elem_eq(b, a),
{
}

/// Reflecting the operator and swapping the operands preserves the truth
/// value of the comparison.
pub proof fn lemma_reflect_apply(op: DataValueComparisonOperator, a: SpecElem, b: SpecElem)
    ensures
        spec_apply(op, a, b) == spec_apply(spec_reflect(op), b, a),
{
    lemma_elem_eq_symmetric(a, b);
}

/// Applies the operator to one pair of same-typed values.
pub fn elem_apply<T: Element>(
    op: DataValueComparisonOperator,
    a: &T,
    b: &T,
) -> (r: bool)
    ensures
        r == spec_apply(op, a.elem(), b.elem()),
{
    match op {
        DataValueComparisonOperator::Eq => a.elem_eq(b),
        DataValueComparisonOperator::Lt => a.elem_lt(b),
        DataValueComparisonOperator::LtEq => a.elem_lt(b) || a.elem_eq(b),
        DataValueComparisonOperator::Gt => b.elem_lt(a),
        DataValueComparisonOperator::GtEq => b.elem_lt(a) || b.elem_eq(a),
    }
}

/// Short name of the operator, for diagnostics.
pub open spec fn spec_operator_name(op: DataValueComparisonOperator) -> Seq<char> {
    match op {
        DataValueComparisonOperator::Eq => "Eq"@,
        DataValueComparisonOperator::Lt => "Lt"@,
        DataValueComparisonOperator::LtEq => "LtEq"@,
        DataValueComparisonOperator::Gt => "Gt"@,
        DataValueComparisonOperator::GtEq => "GtEq"@,
    }
}

/// Short name of the operator, for diagnostics.
pub fn operator_name(op: DataValueComparisonOperator) -> (r: &'static str)
    ensures
        r@ == spec_operator_name(op),
{
    match op {
        DataValueComparisonOperator::Eq => "Eq",
        DataValueComparisonOperator::Lt => "Lt",
        DataValueComparisonOperator::LtEq => "LtEq",
        DataValueComparisonOperator::Gt => "Gt",
        DataValueComparisonOperator::GtEq => "GtEq",
    }
}

} // verus!
