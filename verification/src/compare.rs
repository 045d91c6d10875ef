// The dispatcher and the kernel family.
//
// `data_array_comparison_op` classifies the shape pair, rejects two scalars,
// normalizes Scalar-Array to Array-Scalar by reflecting the operator, checks
// the element types and (for two arrays) the lengths, and then runs the
// specialized kernel: one tight loop per element type and shape pair, with
// the validity bitmaps combined elementwise.

use vstd::prelude::*;
use vstd::string::StringExecFns;

use crate::columnar::{
    ArrayValues, BoolArray, DataArray, DataColumnarValue, DataScalar, DataType, ScalarValue,
};
use crate::elem::Element;
use crate::ops::{
    elem_apply, lemma_reflect_apply, operator_name, reflect, spec_apply, spec_operator_name,
    DataValueComparisonOperator,
};

verus! {

/// A caller error surfaced by the dispatcher. Each variant names the
/// operator and the element types of the two operands.
#[derive(Clone, Copy, Debug, PartialEq, Eq, Structural)]
pub enum KernelError {
    /// The two operands have different element types.
    TypeMismatch { op: DataValueComparisonOperator, left: DataType, right: DataType },
    /// Both operands are arrays and their lengths differ.
    LengthMismatch { op: DataValueComparisonOperator, left: DataType, right: DataType },
    /// The element type is outside the registry. The registry here is the
    /// closed `DataType` enum, so the dispatcher never produces this variant;
    /// it remains part of the error taxonomy for the engine around the kernel.
    UnsupportedType { op: DataValueComparisonOperator, left: DataType, right: DataType },
    /// Both operands are scalars; the engine handles that shape at plan time.
    UnsupportedShape { op: DataValueComparisonOperator, left: DataType, right: DataType },
}

impl KernelError {
    /// The human-readable message: what went wrong, the operator, and the
    /// element types of both operands.
    pub open spec fn spec_message(&self) -> Seq<char> {
        match self {
            KernelError::TypeMismatch { op, left, right } => "type mismatch: "@
                + spec_operator_name(*op) + " on "@ + left.spec_name() + " and "@
                + right.spec_name(),
            KernelError::LengthMismatch { op, left, right } => "length mismatch: "@
                + spec_operator_name(*op) + " on "@ + left.spec_name() + " and "@
                + right.spec_name(),
            KernelError::UnsupportedType { op, left, right } => "unsupported type: "@
                + spec_operator_name(*op) + " on "@ + left.spec_name() + " and "@
                + right.spec_name(),
            KernelError::UnsupportedShape { op, left, right } => "unsupported shape: "@
                + spec_operator_name(*op) + " on two scalars, "@ + left.spec_name() + " and "@
                + right.spec_name(),
        }
    }

    /// The human-readable message: what went wrong, the operator, and the
    /// element types of both operands.
    pub fn message(&self) -> (s: String)
        ensures
            s@ == self.spec_message(),
    {
        let mut s = String::new();
        match self {
            KernelError::TypeMismatch { op, left, right } => {
                s.append("type mismatch: ");
                s.append(operator_name(*op));
                s.append(" on ");
                s.append(left.name());
                s.append(" and ");
                s.append(right.name());
            },
            KernelError::LengthMismatch { op, left, right } => {
                s.append("length mismatch: ");
                s.append(operator_name(*op));
                s.append(" on ");
                s.append(left.name());
                s.append(" and ");
                s.append(right.name());
            },
            KernelError::UnsupportedType { op, left, right } => {
                s.append("unsupported type: ");
                s.append(operator_name(*op));
                s.append(" on ");
                s.append(left.name());
                s.append(" and ");
                s.append(right.name());
            },
            KernelError::UnsupportedShape { op, left, right } => {
                s.append("unsupported shape: ");
                s.append(operator_name(*op));
                s.append(" on two scalars, ");
                s.append(left.name());
                s.append(" and ");
                s.append(right.name());
            },
        }
        proof {
            assert(s@ =~= self.spec_message());
        }
        s
    }
}

/// When the comparison succeeds: not two scalars, equal element types, and
/// equal lengths where both operands are arrays.
pub open spec fn compare_ok(left: DataColumnarValue, right: DataColumnarValue) -> bool {
    &&& (left.is_array() || right.is_array())
    &&& left.dtype() == right.dtype()
    &&& (left.is_array() && right.is_array() ==> left.spec_len() == right.spec_len())
}

/// Length of the result: the common length for two arrays, the array's
/// length when one side is a broadcast scalar.
pub open spec fn result_len(left: DataColumnarValue, right: DataColumnarValue) -> nat {
    if left.is_array() {
        left.spec_len()
    } else {
        right.spec_len()
    }
}

/// The validity bitmap of the result: position i is valid exactly when both
/// operands are valid there (a null scalar broadcasts null everywhere).
pub open spec fn expected_validity(
    left: DataColumnarValue,
    right: DataColumnarValue,
) -> Seq<bool> {
    Seq::new(
        result_len(left, right),
        |i: int| left.valid_at(i) && right.valid_at(i),
    )
}

/// The value buffer of the result: position i compares the aligned elements
/// where both are valid, and is deterministically false where the result is
/// null.
pub open spec fn expected_values(
    op: DataValueComparisonOperator,
    left: DataColumnarValue,
    right: DataColumnarValue,
) -> Seq<bool> {
    Seq::new(
        result_len(left, right),
        |i: int| if left.valid_at(i) && right.valid_at(i) {
            spec_apply(op, left.elem_at(i), right.elem_at(i))
        } else {
            false
        },
    )
}

/// The error a failing comparison reports: the shape check (two scalars)
/// comes first, then the type check, then the length check.
pub open spec fn expected_error(
    op: DataValueComparisonOperator,
    left: DataColumnarValue,
    right: DataColumnarValue,
) -> KernelError {
    if !left.is_array() && !right.is_array() {
        KernelError::UnsupportedShape { op, left: left.dtype(), right: right.dtype() }
    } else if left.dtype() != right.dtype() {
        KernelError::TypeMismatch { op, left: left.dtype(), right: right.dtype() }
    } else {
        KernelError::LengthMismatch { op, left: left.dtype(), right: right.dtype() }
    }
}

/// Array-Array kernel: one pass over the two aligned value buffers.
fn kernel_array_array<T: Element>(
    op: DataValueComparisonOperator,
    lv: &Vec<T>,
    lval: &Vec<bool>,
    rv: &Vec<T>,
    rval: &Vec<bool>,
) -> (r: BoolArray)
    requires
        lv@.len() == rv@.len(),
        lval@.len() == lv@.len(),
        rval@.len() == lv@.len(),
    ensures
        r.wf(),
        r.values@.len() == lv@.len(),
        forall|i: int| 0 <= i < lv@.len() ==> (#[trigger] r.validity@[i]) == (lval@[i]
            && rval@[i]),
        forall|i: int|
            0 <= i < lv@.len() ==> (#[trigger] r.values@[i]) == (if lval@[i] && rval@[i] {
                spec_apply(op, lv@[i].elem(), rv@[i].elem())
            } else {
                false
            }),
{
    let n = lv.len();
    let mut values: Vec<bool> = Vec::with_capacity(n);
    let mut validity: Vec<bool> = Vec::with_capacity(n);
    let mut i: usize = 0;
    while i < n
        invariant
            i <= n,
            n == lv@.len(),
            lv@.len() == rv@.len(),
            lval@.len() == lv@.len(),
            rval@.len() == lv@.len(),
            values@.len() == i,
            validity@.len() == i,
            forall|j: int| 0 <= j < i ==> validity@[j] == (lval@[j] && rval@[j]),
            forall|j: int|
                0 <= j < i ==> values@[j] == (if lval@[j] && rval@[j] {
                    spec_apply(op, lv@[j].elem(), rv@[j].elem())
                } else {
                    false
                }),
        decreases n - i,
    {
        let both_valid = lval[i] && rval[i];
        let v = if both_valid {
            elem_apply(op, &lv[i], &rv[i])
        } else {
            false
        };
        values.push(v);
        validity.push(both_valid);
        i = i + 1;
    }
    BoolArray { values, validity }
}

/// Array-Scalar kernel: one pass over the value buffer, against the
/// broadcast scalar.
fn kernel_array_scalar<T: Element>(
    op: DataValueComparisonOperator,
    lv: &Vec<T>,
    lval: &Vec<bool>,
    s: &T,
    s_valid: bool,
) -> (r: BoolArray)
    requires
        lval@.len() == lv@.len(),
    ensures
        r.wf(),
        r.values@.len() == lv@.len(),
        forall|i: int| 0 <= i < lv@.len() ==> (#[trigger] r.validity@[i]) == (lval@[i]
            && s_valid),
        forall|i: int|
            0 <= i < lv@.len() ==> (#[trigger] r.values@[i]) == (if lval@[i] && s_valid {
                spec_apply(op, lv@[i].elem(), s.elem())
            } else {
                false
            }),
{
    let n = lv.len();
    let mut values: Vec<bool> = Vec::with_capacity(n);
    let mut validity: Vec<bool> = Vec::with_capacity(n);
    let mut i: usize = 0;
    while i < n
        invariant
            i <= n,
            n == lv@.len(),
            lval@.len() == lv@.len(),
            values@.len() == i,
            validity@.len() == i,
            forall|j: int| 0 <= j < i ==> validity@[j] == (lval@[j] && s_valid),
            forall|j: int|
                0 <= j < i ==> values@[j] == (if lval@[j] && s_valid {
                    spec_apply(op, lv@[j].elem(), s.elem())
                } else {
                    false
                }),
        decreases n - i,
    {
        let both_valid = lval[i] && s_valid;
        let v = if both_valid {
            elem_apply(op, &lv[i], s)
        } else {
            false
        };
        values.push(v);
        validity.push(both_valid);
        i = i + 1;
    }
    BoolArray { values, validity }
}

/// Dispatches an Array-Array comparison to the kernel of the element type.
fn compare_arrays(
    op: DataValueComparisonOperator,
    left: &DataArray,
    right: &DataArray,
) -> (r: BoolArray)
    requires
        left.wf(),
        right.wf(),
        left.values.dtype() == right.values.dtype(),
        left.values.spec_len() == right.values.spec_len(),
    ensures
        r.wf(),
        r.values@.len() == left.values.spec_len(),
        forall|i: int|
            0 <= i < r.values@.len() ==> (#[trigger] r.validity@[i]) == (left.validity@[i]
                && right.validity@[i]),
        forall|i: int|
            0 <= i < r.values@.len() ==> (#[trigger] r.values@[i]) == (if left.validity@[i]
                && right.validity@[i] {
                spec_apply(op, left.values.elems()[i], right.values.elems()[i])
            } else {
                false
            }),
{
    match (&left.values, &right.values) {
        (ArrayValues::Int8(a), ArrayValues::Int8(b)) => kernel_array_array(
            op,
            a,
            &left.validity,
            b,
            &right.validity,
        ),
        (ArrayValues::Int16(a), ArrayValues::Int16(b)) => kernel_array_array(
            op,
            a,
            &left.validity,
            b,
            &right.validity,
        ),
        (ArrayValues::Int32(a), ArrayValues::Int32(b)) => kernel_array_array(
            op,
            a,
            &left.validity,
            b,
            &right.validity,
        ),
        (ArrayValues::Int64(a), ArrayValues::Int64(b)) => kernel_array_array(
            op,
            a,
            &left.validity,
            b,
            &right.validity,
        ),
        (ArrayValues::UInt8(a), ArrayValues::UInt8(b)) => kernel_array_array(
            op,
            a,
            &left.validity,
            b,
            &right.validity,
        ),
        (ArrayValues::UInt16(a), ArrayValues::UInt16(b)) => kernel_array_array(
            op,
            a,
            &left.validity,
            b,
            &right.validity,
        ),
        (ArrayValues::UInt32(a), ArrayValues::UInt32(b)) => kernel_array_array(
            op,
            a,
            &left.validity,
            b,
            &right.validity,
        ),
        (ArrayValues::UInt64(a), ArrayValues::UInt64(b)) => kernel_array_array(
            op,
            a,
            &left.validity,
            b,
            &right.validity,
        ),
        (ArrayValues::Float32(a), ArrayValues::Float32(b)) => kernel_array_array(
            op,
            a,
            &left.validity,
            b,
            &right.validity,
        ),
        (ArrayValues::Float64(a), ArrayValues::Float64(b)) => kernel_array_array(
            op,
            a,
            &left.validity,
            b,
            &right.validity,
        ),
        (ArrayValues::Utf8(a), ArrayValues::Utf8(b)) => kernel_array_array(
            op,
            a,
            &left.validity,
            b,
            &right.validity,
        ),
        _ => vstd::pervasive::unreached(),
    }
}

/// Dispatches an Array-Scalar comparison to the kernel of the element type.
fn compare_array_scalar(
    op: DataValueComparisonOperator,
    array: &DataArray,
    scalar: &DataScalar,
) -> (r: BoolArray)
    requires
        array.wf(),
        array.values.dtype() == scalar.value.dtype(),
    ensures
        r.wf(),
        r.values@.len() == array.values.spec_len(),
        forall|i: int|
            0 <= i < r.values@.len() ==> (#[trigger] r.validity@[i]) == (array.validity@[i]
                && scalar.is_valid),
        forall|i: int|
            0 <= i < r.values@.len() ==> (#[trigger] r.values@[i]) == (if array.validity@[i]
                && scalar.is_valid {
                spec_apply(op, array.values.elems()[i], scalar.value.elem())
            } else {
                false
            }),
{
    match (&array.values, &scalar.value) {
        (ArrayValues::Int8(a), ScalarValue::Int8(s)) => kernel_array_scalar(
            op,
            a,
            &array.validity,
            s,
            scalar.is_valid,
        ),
        (ArrayValues::Int16(a), ScalarValue::Int16(s)) => kernel_array_scalar(
            op,
            a,
            &array.validity,
            s,
            scalar.is_valid,
        ),
        (ArrayValues::Int32(a), ScalarValue::Int32(s)) => kernel_array_scalar(
            op,
            a,
            &array.validity,
            s,
            scalar.is_valid,
        ),
        (ArrayValues::Int64(a), ScalarValue::Int64(s)) => kernel_array_scalar(
            op,
            a,
            &array.validity,
            s,
            scalar.is_valid,
        ),
        (ArrayValues::UInt8(a), ScalarValue::UInt8(s)) => kernel_array_scalar(
            op,
            a,
            &array.validity,
            s,
            scalar.is_valid,
        ),
        (ArrayValues::UInt16(a), ScalarValue::UInt16(s)) => kernel_array_scalar(
            op,
            a,
            &array.validity,
            s,
            scalar.is_valid,
        ),
        (ArrayValues::UInt32(a), ScalarValue::UInt32(s)) => kernel_array_scalar(
            op,
            a,
            &array.validity,
            s,
            scalar.is_valid,
        ),
        (ArrayValues::UInt64(a), ScalarValue::UInt64(s)) => kernel_array_scalar(
            op,
            a,
            &array.validity,
            s,
            scalar.is_valid,
        ),
        (ArrayValues::Float32(a), ScalarValue::Float32(s)) => kernel_array_scalar(
            op,
            a,
            &array.validity,
            s,
            scalar.is_valid,
        ),
        (ArrayValues::Float64(a), ScalarValue::Float64(s)) => kernel_array_scalar(
            op,
            a,
            &array.validity,
            s,
            scalar.is_valid,
        ),
        (ArrayValues::Utf8(a), ScalarValue::Utf8(s)) => kernel_array_scalar(
            op,
            a,
            &array.validity,
            s,
            scalar.is_valid,
        ),
        _ => vstd::pervasive::unreached(),
    }
}

/// Compares two columnar operands elementwise under the given operator.
///
/// On success the result holds, at each position, the comparison of the
/// aligned elements, with a scalar broadcast to the array's length; where
/// either element is null the result is null there, with a false value bit.
/// Two scalars are rejected as an unsupported shape, operands of different
/// element types as a type mismatch, and two arrays of different lengths as
/// a length mismatch, in that order of checks.
pub fn data_array_comparison_op(
    op: DataValueComparisonOperator,
    left: &DataColumnarValue,
    right: &DataColumnarValue,
) -> (result: Result<BoolArray, KernelError>)
    requires
        left.wf(),
        right.wf(),
    ensures
        match result {
            Ok(r) => compare_ok(*left, *right) && r.wf() && r.values@ == expected_values(
                op,
                *left,
                *right,
            ) && r.validity@ == expected_validity(*left, *right),
            Err(e) => !compare_ok(*left, *right) && e == expected_error(op, *left, *right),
        },
{
    match (left, right) {
        (DataColumnarValue::Scalar(ls), DataColumnarValue::Scalar(rs)) => Err(
            KernelError::UnsupportedShape {
                op,
                left: ls.value.data_type(),
                right: rs.value.data_type(),
            },
        ),
        (DataColumnarValue::Array(la), DataColumnarValue::Array(ra)) => {
            let lt = la.values.data_type();
            let rt = ra.values.data_type();
            if lt != rt {
                Err(KernelError::TypeMismatch { op, left: lt, right: rt })
            } else if la.values.len() != ra.values.len() {
                Err(KernelError::LengthMismatch { op, left: lt, right: rt })
            } else {
                let r = compare_arrays(op, la, ra);
                proof {
                    assert(r.values@ =~= expected_values(op, *left, *right));
                    assert(r.validity@ =~= expected_validity(*left, *right));
                }
                Ok(r)
            }
        },
        (DataColumnarValue::Array(la), DataColumnarValue::Scalar(rs)) => {
            let lt = la.values.data_type();
            let rt = rs.value.data_type();
            if lt != rt {
                Err(KernelError::TypeMismatch { op, left: lt, right: rt })
            } else {
                let r = compare_array_scalar(op, la, rs);
                proof {
                    assert(r.values@ =~= expected_values(op, *left, *right));
                    assert(r.validity@ =~= expected_validity(*left, *right));
                }
                Ok(r)
            }
        },
        (DataColumnarValue::Scalar(ls), DataColumnarValue::Array(ra)) => {
            let lt = ls.value.data_type();
            let rt = ra.values.data_type();
            if lt != rt {
                Err(KernelError::TypeMismatch { op, left: lt, right: rt })
            } else {
                let r = compare_array_scalar(reflect(op), ra, ls);
                proof {
                    assert forall|i: int| 0 <= i < r.values@.len() implies r.values@[i]
                        == expected_values(op, *left, *right)[i] by {
                        lemma_reflect_apply(op, ls.value.elem(), ra.values.elems()[i]);
                    }
                    assert(r.values@ =~= expected_values(op, *left, *right));
                    assert(r.validity@ =~= expected_validity(*left, *right));
                }
                Ok(r)
            }
        },
    }
}

} // verus!
