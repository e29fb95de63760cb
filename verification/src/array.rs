//! Columns: a type and one value or null for each row.

use vstd::prelude::*;
use std::sync::Arc;
use crate::datatypes::DataType;
use crate::native::{Datum, F32, F64};
use crate::primitive::rows_of;

verus! {

/// A column of one type. Each row holds a value or is null; a column of the
/// all-null type holds only its number of rows.
#[derive(Clone, Debug)]
pub enum Array {
    Null(usize),
    Boolean(Vec<Option<bool>>),
    Int8(Vec<Option<i8>>),
    Int16(Vec<Option<i16>>),
    Int32(Vec<Option<i32>>),
    Int64(Vec<Option<i64>>),
    UInt8(Vec<Option<u8>>),
    UInt16(Vec<Option<u16>>),
    UInt32(Vec<Option<u32>>),
    UInt64(Vec<Option<u64>>),
    Float32(Vec<Option<F32>>),
    Float64(Vec<Option<F64>>),
    Utf8(Vec<Option<String>>),
    LargeUtf8(Vec<Option<String>>),
    Date32(Vec<Option<i32>>),
    Date64(Vec<Option<i64>>),
}

/// A column that may be shared between batches and results.
pub type ArrayRef = Arc<Array>;

/// What a column is: its type, and its rows in order.
pub struct ArrayData {
    pub data_type: DataType,
    pub rows: Seq<Option<Datum>>,
}

impl View for Array {
    type V = ArrayData;

    open spec fn view(&self) -> ArrayData {
        match *self {
            Array::Null(n) => ArrayData {
                data_type: DataType::Null,
                rows: Seq::new(n as nat, |i: int| None),
            },
            Array::Boolean(v) => ArrayData { data_type: DataType::Boolean, rows: rows_of(v@) },
            Array::Int8(v) => ArrayData { data_type: DataType::Int8, rows: rows_of(v@) },
            Array::Int16(v) => ArrayData { data_type: DataType::Int16, rows: rows_of(v@) },
            Array::Int32(v) => ArrayData { data_type: DataType::Int32, rows: rows_of(v@) },
            Array::Int64(v) => ArrayData { data_type: DataType::Int64, rows: rows_of(v@) },
            Array::UInt8(v) => ArrayData { data_type: DataType::UInt8, rows: rows_of(v@) },
            Array::UInt16(v) => ArrayData { data_type: DataType::UInt16, rows: rows_of(v@) },
            Array::UInt32(v) => ArrayData { data_type: DataType::UInt32, rows: rows_of(v@) },
            Array::UInt64(v) => ArrayData { data_type: DataType::UInt64, rows: rows_of(v@) },
            Array::Float32(v) => ArrayData { data_type: DataType::Float32, rows: rows_of(v@) },
            Array::Float64(v) => ArrayData { data_type: DataType::Float64, rows: rows_of(v@) },
            Array::Utf8(v) => ArrayData { data_type: DataType::Utf8, rows: rows_of(v@) },
            Array::LargeUtf8(v) => ArrayData { data_type: DataType::LargeUtf8, rows: rows_of(v@) },
            Array::Date32(v) => ArrayData { data_type: DataType::Date32, rows: rows_of(v@) },
            Array::Date64(v) => ArrayData { data_type: DataType::Date64, rows: rows_of(v@) },
        }
    }
}

impl Array {
    /// The column's type.
    pub fn data_type(&self) -> (r: DataType)
        ensures
            r == self@.data_type,
    {
        match self {
            Array::Null(_) => DataType::Null,
            Array::Boolean(_) => DataType::Boolean,
            Array::Int8(_) => DataType::Int8,
            Array::Int16(_) => DataType::Int16,
            Array::Int32(_) => DataType::Int32,
            Array::Int64(_) => DataType::Int64,
            Array::UInt8(_) => DataType::UInt8,
            Array::UInt16(_) => DataType::UInt16,
            Array::UInt32(_) => DataType::UInt32,
            Array::UInt64(_) => DataType::UInt64,
            Array::Float32(_) => DataType::Float32,
            Array::Float64(_) => DataType::Float64,
            Array::Utf8(_) => DataType::Utf8,
            Array::LargeUtf8(_) => DataType::LargeUtf8,
            Array::Date32(_) => DataType::Date32,
            Array::Date64(_) => DataType::Date64,
        }
    }

    /// The number of rows.
    pub fn len(&self) -> (r: usize)
        ensures
            r == self@.rows.len(),
    {
        match self {
            Array::Null(n) => *n,
            Array::Boolean(v) => v.len(),
            Array::Int8(v) => v.len(),
            Array::Int16(v) => v.len(),
            Array::Int32(v) => v.len(),
            Array::Int64(v) => v.len(),
            Array::UInt8(v) => v.len(),
            Array::UInt16(v) => v.len(),
            Array::UInt32(v) => v.len(),
            Array::UInt64(v) => v.len(),
            Array::Float32(v) => v.len(),
            Array::Float64(v) => v.len(),
            Array::Utf8(v) => v.len(),
            Array::LargeUtf8(v) => v.len(),
            Array::Date32(v) => v.len(),
            Array::Date64(v) => v.len(),
        }
    }

    /// Whether the given row is null.
    pub fn is_null(&self, row: usize) -> (r: bool)
        requires
            row < self@.rows.len(),
        ensures
            r == (self@.rows[row as int] is None),
    {
        match self {
            Array::Null(_) => true,
            Array::Boolean(v) => v[row].is_none(),
            Array::Int8(v) => v[row].is_none(),
            Array::Int16(v) => v[row].is_none(),
            Array::Int32(v) => v[row].is_none(),
            Array::Int64(v) => v[row].is_none(),
            Array::UInt8(v) => v[row].is_none(),
            Array::UInt16(v) => v[row].is_none(),
            Array::UInt32(v) => v[row].is_none(),
            Array::UInt64(v) => v[row].is_none(),
            Array::Float32(v) => v[row].is_none(),
            Array::Float64(v) => v[row].is_none(),
            Array::Utf8(v) => v[row].is_none(),
            Array::LargeUtf8(v) => v[row].is_none(),
            Array::Date32(v) => v[row].is_none(),
            Array::Date64(v) => v[row].is_none(),
        }
    }
}

/// A boolean column of `len` rows, all of them null.
pub fn new_null_array(len: usize) -> (r: Vec<Option<bool>>)
    ensures
        r@ == Seq::new(len as nat, |i: int| None::<bool>),
{
    let mut out: Vec<Option<bool>> = Vec::new();
    let mut i: usize = 0;
    while i < len
        invariant
            i <= len,
            out@ == Seq::new(i as nat, |j: int| None::<bool>),
        decreases len - i,
    {
        out.push(None);
        i += 1;
    }
    out
}

} // verus!
