//! What an expression evaluates to, and the batches it is evaluated against.

use vstd::prelude::*;
use std::sync::Arc;
use crate::array::{Array, ArrayData, ArrayRef};
use crate::datatypes::DataType;
use crate::error::ExprError;
use crate::scalar::{duplicate_string, ScalarData, ScalarValue};

verus! {

/// The result of an expression: a column with one row for each row of the
/// batch, or a single value that stands for every row.
#[derive(Clone, Debug)]
pub enum ColumnarValue {
    Array(ArrayRef),
    Scalar(ScalarValue),
}

/// What a columnar value is.
pub enum ColumnarData {
    Array(ArrayData),
    Scalar(ScalarData),
}

impl View for ColumnarValue {
    type V = ColumnarData;

    open spec fn view(&self) -> ColumnarData {
        match *self {
            ColumnarValue::Array(a) => ColumnarData::Array(a@),
            ColumnarValue::Scalar(s) => ColumnarData::Scalar(s@),
        }
    }
}

impl ScalarData {
    /// The column of `size` rows that each hold this scalar.
    pub open spec fn to_array_of_size(self, size: nat) -> ArrayData {
        ArrayData { data_type: self.data_type, rows: Seq::new(size, |i: int| self.value) }
    }
}

impl ColumnarData {
    /// The type of the column or of the scalar.
    pub open spec fn data_type(self) -> DataType {
        match self {
            ColumnarData::Array(a) => a.data_type,
            ColumnarData::Scalar(s) => s.data_type,
        }
    }

    /// The value as a column: the column itself, or `num_rows` rows that each
    /// hold the scalar.
    pub open spec fn into_array(self, num_rows: nat) -> ArrayData {
        match self {
            ColumnarData::Array(a) => a,
            ColumnarData::Scalar(s) => s.to_array_of_size(num_rows),
        }
    }
}

/// `size` rows that each hold `value`.
fn repeated<T: Copy>(value: Option<T>, size: usize) -> (r: Vec<Option<T>>)
    ensures
        r@ == Seq::new(size as nat, |i: int| value),
{
    let mut out: Vec<Option<T>> = Vec::new();
    let mut i: usize = 0;
    while i < size
        invariant
            i <= size,
            out@ == Seq::new(i as nat, |j: int| value),
        decreases size - i,
    {
        out.push(value);
        i += 1;
    }
    out
}

/// `size` rows that each hold a copy of `value`.
fn repeated_string(value: &Option<String>, size: usize) -> (r: Vec<Option<String>>)
    ensures
        r@ == Seq::new(size as nat, |i: int| *value),
{
    let mut out: Vec<Option<String>> = Vec::new();
    let mut i: usize = 0;
    while i < size
        invariant
            i <= size,
            out@ == Seq::new(i as nat, |j: int| *value),
        decreases size - i,
    {
        out.push(duplicate_string(value));
        i += 1;
    }
    out
}

impl ScalarValue {
    /// The column of `size` rows that each hold this scalar.
    pub fn to_array_of_size(&self, size: usize) -> (r: Array)
        ensures
            r@ == self@.to_array_of_size(size as nat),
    {
        let out = match self {
            ScalarValue::Null => Array::Null(size),
            ScalarValue::Boolean(v) => Array::Boolean(repeated(*v, size)),
            ScalarValue::Int8(v) => Array::Int8(repeated(*v, size)),
            ScalarValue::Int16(v) => Array::Int16(repeated(*v, size)),
            ScalarValue::Int32(v) => Array::Int32(repeated(*v, size)),
            ScalarValue::Int64(v) => Array::Int64(repeated(*v, size)),
            ScalarValue::UInt8(v) => Array::UInt8(repeated(*v, size)),
            ScalarValue::UInt16(v) => Array::UInt16(repeated(*v, size)),
            ScalarValue::UInt32(v) => Array::UInt32(repeated(*v, size)),
            ScalarValue::UInt64(v) => Array::UInt64(repeated(*v, size)),
            ScalarValue::Float32(v) => Array::Float32(repeated(*v, size)),
            ScalarValue::Float64(v) => Array::Float64(repeated(*v, size)),
            ScalarValue::Date32(v) => Array::Date32(repeated(*v, size)),
            ScalarValue::Date64(v) => Array::Date64(repeated(*v, size)),
            ScalarValue::Utf8(v) => Array::Utf8(repeated_string(v, size)),
            ScalarValue::LargeUtf8(v) => Array::LargeUtf8(repeated_string(v, size)),
        };
        assert(out@.rows =~= self@.to_array_of_size(size as nat).rows);
        out
    }

    /// The column of one row that holds this scalar.
    pub fn to_array(&self) -> (r: Array)
        ensures
            r@ == self@.to_array_of_size(1),
    {
        self.to_array_of_size(1)
    }
}

impl ColumnarValue {
    /// The type of the column or of the scalar.
    pub fn data_type(&self) -> (r: DataType)
        ensures
            r == self@.data_type(),
    {
        match self {
            ColumnarValue::Array(a) => a.data_type(),
            ColumnarValue::Scalar(s) => s.get_datatype(),
        }
    }

    /// The value as a column: the column itself, or `num_rows` rows that each
    /// hold the scalar.
    pub fn into_array(self, num_rows: usize) -> (r: ArrayRef)
        ensures
            r@ == self@.into_array(num_rows as nat),
    {
        match self {
            ColumnarValue::Array(a) => a,
            ColumnarValue::Scalar(s) => Arc::new(s.to_array_of_size(num_rows)),
        }
    }
}

/// A named, typed column of a schema.
#[derive(Clone, Debug)]
pub struct Field {
    pub name: String,
    pub data_type: DataType,
    pub nullable: bool,
}

impl Field {
    /// A field of the given name and type.
    pub fn new(name: &str, data_type: DataType, nullable: bool) -> (r: Field)
        ensures
            r.name@ == name@,
            r.data_type == data_type,
            r.nullable == nullable,
    {
        Field { name: name.to_owned(), data_type, nullable }
    }
}

/// The fields of a batch, in the order of its columns.
#[derive(Clone, Debug)]
pub struct Schema {
    pub fields: Vec<Field>,
}

impl Schema {
    /// A schema of the given fields.
    pub fn new(fields: Vec<Field>) -> (r: Schema)
        ensures
            r.fields == fields,
    {
        Schema { fields }
    }

    /// The index of the first field of the given name.
    pub fn index_of(&self, name: &str) -> (r: Result<usize, ExprError>)
        ensures
            match r {
                Ok(i) => i < self.fields.len() && self.fields[i as int].name@ == name@ && forall|
                    j: int,
                |
                    0 <= j < i ==> self.fields[j].name@ != name@,
                Err(e) => e == ExprError::FieldNotFound && forall|j: int|
                    0 <= j < self.fields.len() ==> self.fields[j].name@ != name@,
            },
    {
        let wanted = name.to_owned();
        let mut i: usize = 0;
        while i < self.fields.len()
            invariant
                i <= self.fields.len(),
                wanted@ == name@,
                forall|j: int| 0 <= j < i ==> self.fields[j].name@ != name@,
            decreases self.fields.len() - i,
        {
            if self.fields[i].name == wanted {
                return Ok(i);
            }
            i += 1;
        }
        Err(ExprError::FieldNotFound)
    }
}

/// Columns of equal length, evaluated against together.
#[derive(Debug)]
pub struct RecordBatch {
    columns: Vec<ArrayRef>,
    num_rows: usize,
}

impl RecordBatch {
    /// The columns of the batch.
    pub closed spec fn columns_spec(&self) -> Seq<ArrayRef> {
        self.columns@
    }

    /// The number of rows of every column.
    pub closed spec fn num_rows_spec(&self) -> nat {
        self.num_rows as nat
    }

    /// Every column has the batch's number of rows.
    #[verifier::type_invariant]
    pub closed spec fn well_formed(&self) -> bool {
        forall|i: int|
            0 <= i < self.columns@.len() ==> (#[trigger] self.columns@[i])@.rows.len()
                == self.num_rows
    }

    /// A batch of the given columns, which must be of equal length. A batch
    /// without columns has no rows.
    pub fn try_new(columns: Vec<ArrayRef>) -> (r: Result<RecordBatch, ExprError>)
        ensures
            match r {
                Ok(batch) => batch.columns_spec() == columns@ && (forall|i: int|
                    0 <= i < columns@.len() ==> (#[trigger] columns@[i])@.rows.len()
                        == batch.num_rows_spec()) && (columns@.len() == 0
                    ==> batch.num_rows_spec() == 0),
                Err(e) => e == ExprError::UnequalColumns && exists|i: int, j: int|
                    0 <= i < columns@.len() && 0 <= j < columns@.len() && (
                    #[trigger] columns@[i])@.rows.len() != (#[trigger] columns@[j])@.rows.len(),
            },
    {
        let num_rows: usize = if columns.len() == 0 {
            0
        } else {
            columns[0].len()
        };
        let mut i: usize = 0;
        while i < columns.len()
            invariant
                i <= columns.len(),
                columns.len() > 0 ==> num_rows == columns@[0]@.rows.len(),
                forall|j: int| 0 <= j < i ==> (#[trigger] columns@[j])@.rows.len() == num_rows,
            decreases columns.len() - i,
        {
            if columns[i].len() != num_rows {
                return Err(ExprError::UnequalColumns);
            }
            i += 1;
        }
        Ok(RecordBatch { columns, num_rows })
    }

    /// The number of columns.
    pub fn num_columns(&self) -> (r: usize)
        ensures
            r == self.columns_spec().len(),
    {
        self.columns.len()
    }

    /// The number of rows of every column.
    pub fn num_rows(&self) -> (r: usize)
        ensures
            r == self.num_rows_spec(),
    {
        self.num_rows
    }

    /// The column at `index`.
    pub fn column(&self, index: usize) -> (r: &ArrayRef)
        requires
            index < self.columns_spec().len(),
        ensures
            *r == self.columns_spec()[index as int],
            r@.rows.len() == self.num_rows_spec(),
    {
        proof {
            use_type_invariant(self);
        }
        &self.columns[index]
    }
}

} // verus!
