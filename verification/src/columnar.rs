// The columnar data model: the registry of element types, typed arrays with
// a validity bitmap, typed scalars, the tagged operand that is either of the
// two, and the boolean result array.

use vstd::prelude::*;

use crate::elem::SpecElem;
use crate::floats::{F32Bits, F64Bits};

verus! {

/// The registry of primitive element types the kernel supports.
#[derive(Clone, Copy, Debug, PartialEq, Eq, Structural)]
pub enum DataType {
    Int8,
    Int16,
    Int32,
    Int64,
    UInt8,
    UInt16,
    UInt32,
    UInt64,
    Float32,
    Float64,
    Utf8,
}

impl DataType {
    /// Name of the type, for diagnostics.
    pub open spec fn spec_name(&self) -> Seq<char> {
        match self {
            DataType::Int8 => "Int8"@,
            DataType::Int16 => "Int16"@,
            DataType::Int32 => "Int32"@,
            DataType::Int64 => "Int64"@,
            DataType::UInt8 => "UInt8"@,
            DataType::UInt16 => "UInt16"@,
            DataType::UInt32 => "UInt32"@,
            DataType::UInt64 => "UInt64"@,
            DataType::Float32 => "Float32"@,
            DataType::Float64 => "Float64"@,
            DataType::Utf8 => "Utf8"@,
        }
    }

    /// Name of the type, for diagnostics.
    pub fn name(&self) -> (r: &'static str)
        ensures
            r@ == self.spec_name(),
    {
        match self {
            DataType::Int8 => "Int8",
            DataType::Int16 => "Int16",
            DataType::Int32 => "Int32",
            DataType::Int64 => "Int64",
            DataType::UInt8 => "UInt8",
            DataType::UInt16 => "UInt16",
            DataType::UInt32 => "UInt32",
            DataType::UInt64 => "UInt64",
            DataType::Float32 => "Float32",
            DataType::Float64 => "Float64",
            DataType::Utf8 => "Utf8",
        }
    }
}

/// The value buffer of a typed array. Floats are carried as raw bits, byte
/// strings as byte vectors.
#[derive(Clone, Debug)]
pub enum ArrayValues {
    Int8(Vec<i8>),
    Int16(Vec<i16>),
    Int32(Vec<i32>),
    Int64(Vec<i64>),
    UInt8(Vec<u8>),
    UInt16(Vec<u16>),
    UInt32(Vec<u32>),
    UInt64(Vec<u64>),
    Float32(Vec<F32Bits>),
    Float64(Vec<F64Bits>),
    Utf8(Vec<Vec<u8>>),
}

impl ArrayValues {
    /// Element type of the buffer.
    pub open spec fn dtype(&self) -> DataType {
        match self {
            ArrayValues::Int8(_) => DataType::Int8,
            ArrayValues::Int16(_) => DataType::Int16,
            ArrayValues::Int32(_) => DataType::Int32,
            ArrayValues::Int64(_) => DataType::Int64,
            ArrayValues::UInt8(_) => DataType::UInt8,
            ArrayValues::UInt16(_) => DataType::UInt16,
            ArrayValues::UInt32(_) => DataType::UInt32,
            ArrayValues::UInt64(_) => DataType::UInt64,
            ArrayValues::Float32(_) => DataType::Float32,
            ArrayValues::Float64(_) => DataType::Float64,
            ArrayValues::Utf8(_) => DataType::Utf8,
        }
    }

    /// Number of elements in the buffer.
    pub open spec fn spec_len(&self) -> nat {
        match self {
            ArrayValues::Int8(v) => v@.len(),
            ArrayValues::Int16(v) => v@.len(),
            ArrayValues::Int32(v) => v@.len(),
            ArrayValues::Int64(v) => v@.len(),
            ArrayValues::UInt8(v) => v@.len(),
            ArrayValues::UInt16(v) => v@.len(),
            ArrayValues::UInt32(v) => v@.len(),
            ArrayValues::UInt64(v) => v@.len(),
            ArrayValues::Float32(v) => v@.len(),
            ArrayValues::Float64(v) => v@.len(),
            ArrayValues::Utf8(v) => v@.len(),
        }
    }

    /// The elements of the buffer, in the element model.
    pub open spec fn elems(&self) -> Seq<SpecElem> {
        match self {
            ArrayValues::Int8(v) => Seq::new(v@.len(), |i: int| SpecElem::Int(v@[i] as int)),
            ArrayValues::Int16(v) => Seq::new(v@.len(), |i: int| SpecElem::Int(v@[i] as int)),
            ArrayValues::Int32(v) => Seq::new(v@.len(), |i: int| SpecElem::Int(v@[i] as int)),
            ArrayValues::Int64(v) => Seq::new(v@.len(), |i: int| SpecElem::Int(v@[i] as int)),
            ArrayValues::UInt8(v) => Seq::new(v@.len(), |i: int| SpecElem::Int(v@[i] as int)),
            ArrayValues::UInt16(v) => Seq::new(v@.len(), |i: int| SpecElem::Int(v@[i] as int)),
            ArrayValues::UInt32(v) => Seq::new(v@.len(), |i: int| SpecElem::Int(v@[i] as int)),
            ArrayValues::UInt64(v) => Seq::new(v@.len(), |i: int| SpecElem::Int(v@[i] as int)),
            ArrayValues::Float32(v) => Seq::new(
                v@.len(),
                |i: int| SpecElem::F32(v@[i].bits),
            ),
            ArrayValues::Float64(v) => Seq::new(
                v@.len(),
                |i: int| SpecElem::F64(v@[i].bits),
            ),
            ArrayValues::Utf8(v) => Seq::new(v@.len(), |i: int| SpecElem::Str(v@[i]@)),
        }
    }

    /// Element type of the buffer.
    pub fn data_type(&self) -> (t: DataType)
        ensures
            t == self.dtype(),
    {
        match self {
            ArrayValues::Int8(_) => DataType::Int8,
            ArrayValues::Int16(_) => DataType::Int16,
            ArrayValues::Int32(_) => DataType::Int32,
            ArrayValues::Int64(_) => DataType::Int64,
            ArrayValues::UInt8(_) => DataType::UInt8,
            ArrayValues::UInt16(_) => DataType::UInt16,
            ArrayValues::UInt32(_) => DataType::UInt32,
            ArrayValues::UInt64(_) => DataType::UInt64,
            ArrayValues::Float32(_) => DataType::Float32,
            ArrayValues::Float64(_) => DataType::Float64,
            ArrayValues::Utf8(_) => DataType::Utf8,
        }
    }

    /// Number of elements in the buffer.
    pub fn len(&self) -> (n: usize)
        ensures
            n == self.spec_len(),
    {
        match self {
            ArrayValues::Int8(v) => v.len(),
            ArrayValues::Int16(v) => v.len(),
            ArrayValues::Int32(v) => v.len(),
            ArrayValues::Int64(v) => v.len(),
            ArrayValues::UInt8(v) => v.len(),
            ArrayValues::UInt16(v) => v.len(),
            ArrayValues::UInt32(v) => v.len(),
            ArrayValues::UInt64(v) => v.len(),
            ArrayValues::Float32(v) => v.len(),
            ArrayValues::Float64(v) => v.len(),
            ArrayValues::Utf8(v) => v.len(),
        }
    }
}

/// A typed array of length N: a value buffer plus a validity bitmap of the
/// same length. A clear validity bit marks a null element.
#[derive(Clone, Debug)]
pub struct DataArray {
    pub values: ArrayValues,
    pub validity: Vec<bool>,
}

impl DataArray {
    /// The validity bitmap runs parallel to the value buffer.
    pub open spec fn wf(&self) -> bool {
        self.validity@.len() == self.values.spec_len()
    }

    /// An array of the given values with every element valid.
    pub fn new(values: ArrayValues) -> (a: DataArray)
        ensures
            a.wf(),
            a.values == values,
            forall|i: int| 0 <= i < a.validity@.len() ==> a.validity@[i],
    {
        let n = values.len();
        let mut validity: Vec<bool> = Vec::new();
        let mut i: usize = 0;
        while i < n
            invariant
                i <= n,
                validity@.len() == i,
                forall|j: int| 0 <= j < i ==> validity@[j],
            decreases n - i,
        {
            validity.push(true);
            i = i + 1;
        }
        DataArray { values, validity }
    }
}

/// The value of a typed scalar.
#[derive(Clone, Debug)]
pub enum ScalarValue {
    Int8(i8),
    Int16(i16),
    Int32(i32),
    Int64(i64),
    UInt8(u8),
    UInt16(u16),
    UInt32(u32),
    UInt64(u64),
    Float32(F32Bits),
    Float64(F64Bits),
    Utf8(Vec<u8>),
}

impl ScalarValue {
    /// Element type of the scalar.
    pub open spec fn dtype(&self) -> DataType {
        match self {
            ScalarValue::Int8(_) => DataType::Int8,
            ScalarValue::Int16(_) => DataType::Int16,
            ScalarValue::Int32(_) => DataType::Int32,
            ScalarValue::Int64(_) => DataType::Int64,
            ScalarValue::UInt8(_) => DataType::UInt8,
            ScalarValue::UInt16(_) => DataType::UInt16,
            ScalarValue::UInt32(_) => DataType::UInt32,
            ScalarValue::UInt64(_) => DataType::UInt64,
            ScalarValue::Float32(_) => DataType::Float32,
            ScalarValue::Float64(_) => DataType::Float64,
            ScalarValue::Utf8(_) => DataType::Utf8,
        }
    }

    /// The scalar's value in the element model.
    pub open spec fn elem(&self) -> SpecElem {
        match self {
            ScalarValue::Int8(x) => SpecElem::Int(*x as int),
            ScalarValue::Int16(x) => SpecElem::Int(*x as int),
            ScalarValue::Int32(x) => SpecElem::Int(*x as int),
            ScalarValue::Int64(x) => SpecElem::Int(*x as int),
            ScalarValue::UInt8(x) => SpecElem::Int(*x as int),
            ScalarValue::UInt16(x) => SpecElem::Int(*x as int),
            ScalarValue::UInt32(x) => SpecElem::Int(*x as int),
            ScalarValue::UInt64(x) => SpecElem::Int(*x as int),
            ScalarValue::Float32(x) => SpecElem::F32(x.bits),
            ScalarValue::Float64(x) => SpecElem::F64(x.bits),
            ScalarValue::Utf8(x) => SpecElem::Str(x@),
        }
    }

    /// Element type of the scalar.
    pub fn data_type(&self) -> (t: DataType)
        ensures
            t == self.dtype(),
    {
        match self {
            ScalarValue::Int8(_) => DataType::Int8,
            ScalarValue::Int16(_) => DataType::Int16,
            ScalarValue::Int32(_) => DataType::Int32,
            ScalarValue::Int64(_) => DataType::Int64,
            ScalarValue::UInt8(_) => DataType::UInt8,
            ScalarValue::UInt16(_) => DataType::UInt16,
            ScalarValue::UInt32(_) => DataType::UInt32,
            ScalarValue::UInt64(_) => DataType::UInt64,
            ScalarValue::Float32(_) => DataType::Float32,
            ScalarValue::Float64(_) => DataType::Float64,
            ScalarValue::Utf8(_) => DataType::Utf8,
        }
    }
}

/// A typed scalar, optionally null. When paired with an array it broadcasts:
/// it behaves as if replicated to the array's length.
#[derive(Clone, Debug)]
pub struct DataScalar {
    pub value: ScalarValue,
    pub is_valid: bool,
}

/// An operand of the kernel: a typed array or a typed scalar.
#[derive(Clone, Debug)]
pub enum DataColumnarValue {
    Array(DataArray),
    Scalar(DataScalar),
}

impl DataColumnarValue {
    /// The operand's validity bitmap runs parallel to its values.
    pub open spec fn wf(&self) -> bool {
        match self {
            DataColumnarValue::Array(a) => a.wf(),
            DataColumnarValue::Scalar(_) => true,
        }
    }

    /// Element type of the operand.
    pub open spec fn dtype(&self) -> DataType {
        match self {
            DataColumnarValue::Array(a) => a.values.dtype(),
            DataColumnarValue::Scalar(s) => s.value.dtype(),
        }
    }

    /// True for an array operand.
    pub open spec fn is_array(&self) -> bool {
        self is Array
    }

    /// Length of an array operand; a scalar logically has length 1.
    pub open spec fn spec_len(&self) -> nat {
        match self {
            DataColumnarValue::Array(a) => a.values.spec_len(),
            DataColumnarValue::Scalar(_) => 1,
        }
    }

    /// The element at position i, with a scalar broadcast to every position.
    pub open spec fn elem_at(&self, i: int) -> SpecElem {
        match self {
            DataColumnarValue::Array(a) => a.values.elems()[i],
            DataColumnarValue::Scalar(s) => s.value.elem(),
        }
    }

    /// Whether the element at position i is valid (not null), with a scalar
    /// broadcast to every position.
    pub open spec fn valid_at(&self, i: int) -> bool {
        match self {
            DataColumnarValue::Array(a) => a.validity@[i],
            DataColumnarValue::Scalar(s) => s.is_valid,
        }
    }

    /// Element type of the operand.
    pub fn data_type(&self) -> (t: DataType)
        ensures
            t == self.dtype(),
    {
        match self {
            DataColumnarValue::Array(a) => a.values.data_type(),
            DataColumnarValue::Scalar(s) => s.value.data_type(),
        }
    }
}

/// The result of a successful comparison: a boolean array of the aligned
/// length, with its own validity bitmap. Where an element is null the value
/// bit is deterministically false.
#[derive(Clone, Debug)]
pub struct BoolArray {
    pub values: Vec<bool>,
    pub validity: Vec<bool>,
}

impl BoolArray {
    /// The validity bitmap runs parallel to the value buffer.
    pub open spec fn wf(&self) -> bool {
        self.validity@.len() == self.values@.len()
    }

    /// Number of elements.
    pub fn len(&self) -> (n: usize)
        ensures
            n == self.values@.len(),
    {
        self.values.len()
    }
}

} // verus!
