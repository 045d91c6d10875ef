// End-to-end tests of the comparison kernel: the literal scenarios, the
// error taxonomy, null propagation, IEEE-754 float semantics on bit
// patterns, byte-string order, and the operator reflection rewrite.

use datavalues::{
    data_array_comparison_op, ArrayValues, DataArray, DataColumnarValue, DataScalar,
    DataValueComparisonOperator, F32Bits, F64Bits, KernelError, ScalarValue,
};

fn arr(values: ArrayValues) -> DataColumnarValue {
    DataColumnarValue::Array(DataArray::new(values))
}

fn arr_with_validity(values: ArrayValues, validity: Vec<bool>) -> DataColumnarValue {
    DataColumnarValue::Array(DataArray { values, validity })
}

fn scalar(value: ScalarValue) -> DataColumnarValue {
    DataColumnarValue::Scalar(DataScalar { value, is_valid: true })
}

fn null_scalar(value: ScalarValue) -> DataColumnarValue {
    DataColumnarValue::Scalar(DataScalar { value, is_valid: false })
}

fn f64_arr(values: &[f64]) -> DataColumnarValue {
    arr(ArrayValues::Float64(
        values.iter().map(|x| F64Bits { bits: x.to_bits() }).collect(),
    ))
}

fn f32_arr(values: &[f32]) -> DataColumnarValue {
    arr(ArrayValues::Float32(
        values.iter().map(|x| F32Bits { bits: x.to_bits() }).collect(),
    ))
}

fn utf8_arr(values: &[&str]) -> DataColumnarValue {
    arr(ArrayValues::Utf8(
        values.iter().map(|s| s.as_bytes().to_vec()).collect(),
    ))
}

fn utf8_scalar(value: &str) -> DataColumnarValue {
    scalar(ScalarValue::Utf8(value.as_bytes().to_vec()))
}

#[test]
fn eq_i32_array_array() {
    let left = arr(ArrayValues::Int32(vec![1, 2, 3]));
    let right = arr(ArrayValues::Int32(vec![1, 0, 3]));
    let r = data_array_comparison_op(DataValueComparisonOperator::Eq, &left, &right).unwrap();
    assert_eq!(r.values, vec![true, false, true]);
    assert_eq!(r.validity, vec![true, true, true]);
}

#[test]
fn lt_i32_array_scalar() {
    let left = arr(ArrayValues::Int32(vec![1, 2, 3]));
    let right = scalar(ScalarValue::Int32(2));
    let r = data_array_comparison_op(DataValueComparisonOperator::Lt, &left, &right).unwrap();
    assert_eq!(r.values, vec![true, false, false]);
    assert_eq!(r.validity, vec![true, true, true]);
}

#[test]
fn gt_scalar_array_reflects_lt() {
    let left = scalar(ScalarValue::Int32(2));
    let right = arr(ArrayValues::Int32(vec![1, 2, 3]));
    let r = data_array_comparison_op(DataValueComparisonOperator::Gt, &left, &right).unwrap();
    assert_eq!(r.values, vec![true, false, false]);
    assert_eq!(r.validity, vec![true, true, true]);
}

#[test]
fn eq_f64_with_nan() {
    let left = f64_arr(&[1.0, f64::NAN, 2.0]);
    let right = f64_arr(&[1.0, f64::NAN, 2.0]);
    let r = data_array_comparison_op(DataValueComparisonOperator::Eq, &left, &right).unwrap();
    assert_eq!(r.values, vec![true, false, true]);
    assert_eq!(r.validity, vec![true, true, true]);
}

#[test]
fn lteq_utf8_array_scalar() {
    let left = utf8_arr(&["a", "ab", "b"]);
    let right = utf8_scalar("ab");
    let r = data_array_comparison_op(DataValueComparisonOperator::LtEq, &left, &right).unwrap();
    assert_eq!(r.values, vec![true, true, false]);
    assert_eq!(r.validity, vec![true, true, true]);
}

#[test]
fn type_mismatch_i32_i64() {
    let left = arr(ArrayValues::Int32(vec![1, 2]));
    let right = arr(ArrayValues::Int64(vec![1, 2]));
    let e = data_array_comparison_op(DataValueComparisonOperator::Eq, &left, &right).unwrap_err();
    assert!(matches!(e, KernelError::TypeMismatch { .. }));
    assert_eq!(e.message(), "type mismatch: Eq on Int32 and Int64");
}

#[test]
fn length_mismatch_i32() {
    let left = arr(ArrayValues::Int32(vec![1, 2, 3]));
    let right = arr(ArrayValues::Int32(vec![1, 2]));
    let e = data_array_comparison_op(DataValueComparisonOperator::Eq, &left, &right).unwrap_err();
    assert!(matches!(e, KernelError::LengthMismatch { .. }));
    assert_eq!(e.message(), "length mismatch: Eq on Int32 and Int32");
}

#[test]
fn type_check_precedes_length_check() {
    let left = arr(ArrayValues::Int32(vec![1, 2, 3]));
    let right = arr(ArrayValues::Int64(vec![1]));
    let e = data_array_comparison_op(DataValueComparisonOperator::Lt, &left, &right).unwrap_err();
    assert!(matches!(e, KernelError::TypeMismatch { .. }));
}

#[test]
fn scalar_scalar_unsupported_shape() {
    let left = scalar(ScalarValue::Int32(1));
    let right = scalar(ScalarValue::Int32(2));
    let e = data_array_comparison_op(DataValueComparisonOperator::Eq, &left, &right).unwrap_err();
    assert!(matches!(e, KernelError::UnsupportedShape { .. }));
    assert_eq!(e.message(), "unsupported shape: Eq on two scalars, Int32 and Int32");
}

#[test]
fn scalar_scalar_shape_check_precedes_type_check() {
    let left = scalar(ScalarValue::Int32(1));
    let right = scalar(ScalarValue::Int64(2));
    let e = data_array_comparison_op(DataValueComparisonOperator::Eq, &left, &right).unwrap_err();
    assert!(matches!(e, KernelError::UnsupportedShape { .. }));
}

#[test]
fn unsupported_type_message() {
    // The dispatcher itself never produces this variant (the type registry is
    // a closed enum), but the error taxonomy carries it for the engine.
    let e = KernelError::UnsupportedType {
        op: DataValueComparisonOperator::GtEq,
        left: datavalues::DataType::Utf8,
        right: datavalues::DataType::Utf8,
    };
    assert_eq!(e.message(), "unsupported type: GtEq on Utf8 and Utf8");
}

#[test]
fn empty_arrays_give_empty_result() {
    let left = arr(ArrayValues::Int64(vec![]));
    let right = arr(ArrayValues::Int64(vec![]));
    let r = data_array_comparison_op(DataValueComparisonOperator::GtEq, &left, &right).unwrap();
    assert_eq!(r.values, Vec::<bool>::new());
    assert_eq!(r.validity, Vec::<bool>::new());
}

#[test]
fn null_propagation_array_array() {
    let left = arr_with_validity(ArrayValues::Int32(vec![1, 2, 3]), vec![true, false, true]);
    let right = arr_with_validity(ArrayValues::Int32(vec![1, 2, 3]), vec![true, true, false]);
    let r = data_array_comparison_op(DataValueComparisonOperator::Eq, &left, &right).unwrap();
    assert_eq!(r.validity, vec![true, false, false]);
    // The value bit under a null result is deterministically false.
    assert_eq!(r.values, vec![true, false, false]);
}

#[test]
fn null_scalar_broadcasts_null() {
    let left = arr(ArrayValues::Int32(vec![1, 2, 3]));
    let right = null_scalar(ScalarValue::Int32(2));
    let r = data_array_comparison_op(DataValueComparisonOperator::Lt, &left, &right).unwrap();
    assert_eq!(r.validity, vec![false, false, false]);
    assert_eq!(r.values, vec![false, false, false]);
}

#[test]
fn all_operators_on_i64() {
    let left = arr(ArrayValues::Int64(vec![-5, 0, 7]));
    let right = scalar(ScalarValue::Int64(0));
    let lt = data_array_comparison_op(DataValueComparisonOperator::Lt, &left, &right).unwrap();
    assert_eq!(lt.values, vec![true, false, false]);
    let lteq = data_array_comparison_op(DataValueComparisonOperator::LtEq, &left, &right).unwrap();
    assert_eq!(lteq.values, vec![true, true, false]);
    let gt = data_array_comparison_op(DataValueComparisonOperator::Gt, &left, &right).unwrap();
    assert_eq!(gt.values, vec![false, false, true]);
    let gteq = data_array_comparison_op(DataValueComparisonOperator::GtEq, &left, &right).unwrap();
    assert_eq!(gteq.values, vec![false, true, true]);
    let eq = data_array_comparison_op(DataValueComparisonOperator::Eq, &left, &right).unwrap();
    assert_eq!(eq.values, vec![false, true, false]);
}

#[test]
fn i64_extremes() {
    let left = arr(ArrayValues::Int64(vec![i64::MIN, i64::MAX]));
    let right = arr(ArrayValues::Int64(vec![i64::MAX, i64::MIN]));
    let r = data_array_comparison_op(DataValueComparisonOperator::Lt, &left, &right).unwrap();
    assert_eq!(r.values, vec![true, false]);
}

#[test]
fn unsigned_compares_without_sign_change() {
    let left = arr(ArrayValues::UInt8(vec![200, 1, 100]));
    let right = scalar(ScalarValue::UInt8(100));
    let r = data_array_comparison_op(DataValueComparisonOperator::Gt, &left, &right).unwrap();
    assert_eq!(r.values, vec![true, false, false]);
}

#[test]
fn u64_extremes() {
    let left = arr(ArrayValues::UInt64(vec![u64::MAX, 0]));
    let right = scalar(ScalarValue::UInt64(u64::MAX));
    let r = data_array_comparison_op(DataValueComparisonOperator::GtEq, &left, &right).unwrap();
    assert_eq!(r.values, vec![true, false]);
}

#[test]
fn narrow_integer_types() {
    let left = arr(ArrayValues::Int8(vec![-128, 127]));
    let right = scalar(ScalarValue::Int8(0));
    let r = data_array_comparison_op(DataValueComparisonOperator::Lt, &left, &right).unwrap();
    assert_eq!(r.values, vec![true, false]);
    let left16 = arr(ArrayValues::UInt16(vec![0, 65535]));
    let right16 = scalar(ScalarValue::UInt16(65535));
    let r16 = data_array_comparison_op(DataValueComparisonOperator::Eq, &left16, &right16).unwrap();
    assert_eq!(r16.values, vec![false, true]);
}

#[test]
fn nan_compares_false_under_every_operator() {
    let left = f64_arr(&[f64::NAN]);
    let right = scalar(ScalarValue::Float64(F64Bits { bits: 1.0f64.to_bits() }));
    for op in [
        DataValueComparisonOperator::Eq,
        DataValueComparisonOperator::Lt,
        DataValueComparisonOperator::LtEq,
        DataValueComparisonOperator::Gt,
        DataValueComparisonOperator::GtEq,
    ] {
        let r = data_array_comparison_op(op, &left, &right).unwrap();
        assert_eq!(r.values, vec![false]);
        assert_eq!(r.validity, vec![true]);
    }
}

#[test]
fn float_zeroes_are_equal() {
    let left = f64_arr(&[0.0, -0.0]);
    let right = f64_arr(&[-0.0, -0.0]);
    let eq = data_array_comparison_op(DataValueComparisonOperator::Eq, &left, &right).unwrap();
    assert_eq!(eq.values, vec![true, true]);
    let lt = data_array_comparison_op(DataValueComparisonOperator::Lt, &left, &right).unwrap();
    assert_eq!(lt.values, vec![false, false]);
}

#[test]
fn f64_ordering() {
    let left = f64_arr(&[-f64::INFINITY, -1.5, -0.0, 2.5]);
    let right = scalar(ScalarValue::Float64(F64Bits { bits: 0.0f64.to_bits() }));
    let r = data_array_comparison_op(DataValueComparisonOperator::Lt, &left, &right).unwrap();
    assert_eq!(r.values, vec![true, true, false, false]);
    let r2 = data_array_comparison_op(DataValueComparisonOperator::LtEq, &left, &right).unwrap();
    assert_eq!(r2.values, vec![true, true, true, false]);
}

#[test]
fn f32_ordering_and_nan() {
    let left = f32_arr(&[-1.0, f32::NAN, 3.5, f32::INFINITY]);
    let right = f32_arr(&[1.0, f32::NAN, 3.5, 7.0]);
    let lt = data_array_comparison_op(DataValueComparisonOperator::Lt, &left, &right).unwrap();
    assert_eq!(lt.values, vec![true, false, false, false]);
    let eq = data_array_comparison_op(DataValueComparisonOperator::Eq, &left, &right).unwrap();
    assert_eq!(eq.values, vec![false, false, true, false]);
    let gt = data_array_comparison_op(DataValueComparisonOperator::Gt, &left, &right).unwrap();
    assert_eq!(gt.values, vec![false, false, false, true]);
}

#[test]
fn utf8_prefix_is_less_than_extension() {
    let left = utf8_arr(&["", "a", "ab", "b"]);
    let right = utf8_scalar("a");
    let r = data_array_comparison_op(DataValueComparisonOperator::Lt, &left, &right).unwrap();
    assert_eq!(r.values, vec![true, false, false, false]);
    let r2 = data_array_comparison_op(DataValueComparisonOperator::Gt, &left, &right).unwrap();
    assert_eq!(r2.values, vec![false, false, true, true]);
}

#[test]
fn utf8_compares_unsigned_bytes() {
    // 0xC3 0xA9 is "é": its lead byte is above every ASCII byte.
    let left = utf8_arr(&["é", "z"]);
    let right = utf8_scalar("z");
    let r = data_array_comparison_op(DataValueComparisonOperator::Gt, &left, &right).unwrap();
    assert_eq!(r.values, vec![true, false]);
}

#[test]
fn utf8_equality() {
    let left = utf8_arr(&["abc", "abd", "ab"]);
    let right = utf8_scalar("abc");
    let r = data_array_comparison_op(DataValueComparisonOperator::Eq, &left, &right).unwrap();
    assert_eq!(r.values, vec![true, false, false]);
}

#[test]
fn reflection_agrees_for_every_operator() {
    let array = arr(ArrayValues::Int16(vec![-3, 0, 3, 7]));
    let point = scalar(ScalarValue::Int16(3));
    for op in [
        DataValueComparisonOperator::Eq,
        DataValueComparisonOperator::Lt,
        DataValueComparisonOperator::LtEq,
        DataValueComparisonOperator::Gt,
        DataValueComparisonOperator::GtEq,
    ] {
        let direct = data_array_comparison_op(op, &point, &array).unwrap();
        let reflected =
            data_array_comparison_op(datavalues::reflect(op), &array, &point).unwrap();
        assert_eq!(direct.values, reflected.values);
        assert_eq!(direct.validity, reflected.validity);
    }
}

#[test]
fn eq_reflexive_on_non_null_non_nan() {
    let a = f64_arr(&[1.0, -2.5, 0.0, -0.0, f64::INFINITY]);
    let r = data_array_comparison_op(DataValueComparisonOperator::Eq, &a, &a).unwrap();
    assert_eq!(r.values, vec![true; 5]);
    assert_eq!(r.validity, vec![true; 5]);
}

#[test]
fn result_length_follows_array_side() {
    let array = arr(ArrayValues::UInt32(vec![1, 2, 3, 4]));
    let point = scalar(ScalarValue::UInt32(2));
    let r = data_array_comparison_op(DataValueComparisonOperator::Eq, &array, &point).unwrap();
    assert_eq!(r.len(), 4);
    let r2 = data_array_comparison_op(DataValueComparisonOperator::Eq, &point, &array).unwrap();
    assert_eq!(r2.len(), 4);
}

#[test]
fn integer_totality_per_position() {
    let left = arr(ArrayValues::Int32(vec![-7, 0, 9, i32::MIN, i32::MAX]));
    let right = arr(ArrayValues::Int32(vec![0, 0, -9, i32::MAX, i32::MIN]));
    let lt = data_array_comparison_op(DataValueComparisonOperator::Lt, &left, &right).unwrap();
    let eq = data_array_comparison_op(DataValueComparisonOperator::Eq, &left, &right).unwrap();
    let gt = data_array_comparison_op(DataValueComparisonOperator::Gt, &left, &right).unwrap();
    for i in 0..5 {
        let hits = [lt.values[i], eq.values[i], gt.values[i]]
            .iter()
            .filter(|&&x| x)
            .count();
        assert_eq!(hits, 1);
    }
}

#[test]
fn f64_agrees_with_native_comparison() {
    let interesting = [
        f64::NAN,
        f64::NEG_INFINITY,
        f64::MIN,
        -1.5,
        -f64::MIN_POSITIVE,
        -5e-324,
        -0.0,
        0.0,
        5e-324,
        f64::MIN_POSITIVE,
        1.5,
        f64::MAX,
        f64::INFINITY,
    ];
    for &x in &interesting {
        for &y in &interesting {
            let left = f64_arr(&[x]);
            let right = f64_arr(&[y]);
            let ops = [
                (DataValueComparisonOperator::Eq, x == y),
                (DataValueComparisonOperator::Lt, x < y),
                (DataValueComparisonOperator::LtEq, x <= y),
                (DataValueComparisonOperator::Gt, x > y),
                (DataValueComparisonOperator::GtEq, x >= y),
            ];
            for (op, native) in ops {
                let r = data_array_comparison_op(op, &left, &right).unwrap();
                assert_eq!(r.values, vec![native], "{x} {op:?} {y}");
            }
        }
    }
}

#[test]
fn f32_agrees_with_native_comparison() {
    let interesting = [
        f32::NAN,
        f32::NEG_INFINITY,
        f32::MIN,
        -2.5,
        -f32::MIN_POSITIVE,
        -0.0,
        0.0,
        f32::MIN_POSITIVE,
        2.5,
        f32::MAX,
        f32::INFINITY,
    ];
    for &x in &interesting {
        for &y in &interesting {
            let left = f32_arr(&[x]);
            let right = f32_arr(&[y]);
            let ops = [
                (DataValueComparisonOperator::Eq, x == y),
                (DataValueComparisonOperator::Lt, x < y),
                (DataValueComparisonOperator::LtEq, x <= y),
                (DataValueComparisonOperator::Gt, x > y),
                (DataValueComparisonOperator::GtEq, x >= y),
            ];
            for (op, native) in ops {
                let r = data_array_comparison_op(op, &left, &right).unwrap();
                assert_eq!(r.values, vec![native], "{x} {op:?} {y}");
            }
        }
    }
}
