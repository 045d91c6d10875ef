// A verified vectorized comparison kernel for columnar data.
//
// The entry point is `compare::data_array_comparison_op`: given a comparison
// operator and two columnar operands (typed arrays or scalars), it produces a
// boolean array whose i-th element compares the i-th elements of the aligned
// operands, with null propagation through the validity bitmaps.

pub mod bytes;
pub mod columnar;
pub mod compare;
pub mod elem;
pub mod floats;
pub mod laws;
pub mod ops;

pub use columnar::{
    ArrayValues, BoolArray, DataArray, DataColumnarValue, DataScalar, DataType, ScalarValue,
};
pub use compare::{data_array_comparison_op, KernelError};
pub use floats::{F32Bits, F64Bits};
pub use ops::{reflect, DataValueComparisonOperator};
