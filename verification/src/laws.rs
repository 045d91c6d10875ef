// Laws of the comparison kernel, proved once and for all over the spec-level
// model that the contract of `data_array_comparison_op` pins the result to:
// `compare_ok`, `expected_values`, `expected_validity` and `expected_error`.

use vstd::prelude::*;

use crate::columnar::{DataColumnarValue, DataType};
use crate::compare::{
    compare_ok, expected_error, expected_validity, expected_values, result_len, KernelError,
};
use crate::elem::{spec_elem_is_nan, SpecElem};
use crate::ops::{lemma_reflect_apply, spec_apply, spec_reflect, DataValueComparisonOperator};

verus! {

/// Length law: for two arrays of the common length N the result has length
/// N; with a broadcast scalar on either side the result has the array's
/// length.
pub proof fn lemma_result_length(
    op: DataValueComparisonOperator,
    left: DataColumnarValue,
    right: DataColumnarValue,
)
    requires
        compare_ok(left, right),
    ensures
        expected_values(op, left, right).len() == result_len(left, right),
        expected_validity(left, right).len() == result_len(left, right),
        left.is_array() ==> result_len(left, right) == left.spec_len(),
        !left.is_array() ==> result_len(left, right) == right.spec_len(),
{
}

/// Reflection law: for all valid operands, comparing under the operator
/// equals comparing the swapped operands under the reflected operator, and
/// the two calls succeed or fail together.
pub proof fn lemma_compare_reflection(
    op: DataValueComparisonOperator,
    left: DataColumnarValue,
    right: DataColumnarValue,
)
    ensures
        compare_ok(left, right) == compare_ok(right, left),
        compare_ok(left, right) ==> expected_values(op, left, right) == expected_values(
            spec_reflect(op),
            right,
            left,
        ),
        compare_ok(left, right) ==> expected_validity(left, right) == expected_validity(
            right,
            left,
        ),
{
    if compare_ok(left, right) {
        assert forall|i: int| 0 <= i < result_len(left, right) implies expected_values(
            op,
            left,
            right,
        )[i] == expected_values(spec_reflect(op), right, left)[i] by {
            lemma_reflect_apply(op, left.elem_at(i), right.elem_at(i));
        }
        assert(expected_values(op, left, right) =~= expected_values(
            spec_reflect(op),
            right,
            left,
        ));
        assert(expected_validity(left, right) =~= expected_validity(right, left));
    }
}

/// An element that is not a float NaN is equal to itself.
proof fn lemma_elem_eq_reflexive(a: SpecElem)
    requires
        !spec_elem_is_nan(a),
    ensures
        spec_apply(DataValueComparisonOperator::Eq, a, a),
{
}

/// Eq reflexivity: comparing an array with itself under Eq yields true at
/// every position that holds no null and no NaN; with no nulls and no NaNs
/// at all, the result is all-true and all-valid.
pub proof fn lemma_eq_reflexive(a: DataColumnarValue)
    requires
        a.is_array(),
        forall|i: int| 0 <= i < a.spec_len() ==> #[trigger] a.valid_at(i),
        forall|i: int| 0 <= i < a.spec_len() ==> !spec_elem_is_nan(#[trigger] a.elem_at(i)),
    ensures
        compare_ok(a, a),
        forall|i: int|
            0 <= i < result_len(a, a) ==> #[trigger] expected_values(
                DataValueComparisonOperator::Eq,
                a,
                a,
            )[i],
        forall|i: int| 0 <= i < result_len(a, a) ==> #[trigger] expected_validity(a, a)[i],
{
    assert forall|i: int| 0 <= i < result_len(a, a) implies #[trigger] expected_values(
        DataValueComparisonOperator::Eq,
        a,
        a,
    )[i] by {
        lemma_elem_eq_reflexive(a.elem_at(i));
    }
}

/// NaN rule, elementwise: a float NaN on either side makes every operator
/// yield false.
pub proof fn lemma_nan_compares_false(op: DataValueComparisonOperator, a: SpecElem, b: SpecElem)
    requires
        spec_elem_is_nan(a) || spec_elem_is_nan(b),
    ensures
        !spec_apply(op, a, b),
{
}

/// NaN rule, positionwise: where either aligned element is a NaN, the result
/// value bit is false, whether or not null propagation engages there.
pub proof fn lemma_nan_position_false(
    op: DataValueComparisonOperator,
    left: DataColumnarValue,
    right: DataColumnarValue,
    i: int,
)
    requires
        0 <= i < result_len(left, right),
        spec_elem_is_nan(left.elem_at(i)) || spec_elem_is_nan(right.elem_at(i)),
    ensures
        !expected_values(op, left, right)[i],
{
    lemma_nan_compares_false(op, left.elem_at(i), right.elem_at(i));
}

/// Null propagation: where either aligned element is null, the result is
/// null there, and its value bit is the deterministic false.
pub proof fn lemma_null_propagation(
    op: DataValueComparisonOperator,
    left: DataColumnarValue,
    right: DataColumnarValue,
    i: int,
)
    requires
        0 <= i < result_len(left, right),
        !left.valid_at(i) || !right.valid_at(i),
    ensures
        !expected_validity(left, right)[i],
        !expected_values(op, left, right)[i],
{
}

/// Exactly one of the three propositions holds.
pub open spec fn exactly_one(p: bool, q: bool, r: bool) -> bool {
    (p && !q && !r) || (!p && q && !r) || (!p && !q && r)
}

/// Totality on integers: for two integer elements exactly one of
/// `a < b`, `a == b`, `a > b` holds.
pub proof fn lemma_int_totality(a: int, b: int)
    ensures
        exactly_one(
            spec_apply(DataValueComparisonOperator::Lt, SpecElem::Int(a), SpecElem::Int(b)),
            spec_apply(DataValueComparisonOperator::Eq, SpecElem::Int(a), SpecElem::Int(b)),
            spec_apply(DataValueComparisonOperator::Gt, SpecElem::Int(a), SpecElem::Int(b)),
        ),
{
}

/// The type-mismatch error for the given operator and element types.
pub open spec fn type_mismatch(
    op: DataValueComparisonOperator,
    left: DataType,
    right: DataType,
) -> KernelError {
    KernelError::TypeMismatch { op, left, right }
}

/// The type check precedes the length check: two arrays of different element
/// types fail with a type mismatch whatever their lengths.
pub proof fn lemma_type_check_precedes_length_check(
    op: DataValueComparisonOperator,
    left: DataColumnarValue,
    right: DataColumnarValue,
)
    requires
        left.is_array(),
        right.is_array(),
        left.dtype() != right.dtype(),
    ensures
        !compare_ok(left, right),
        expected_error(op, left, right) == type_mismatch(op, left.dtype(), right.dtype()),
{
}

} // verus!
