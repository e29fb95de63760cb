//! Single values: a type, and a value of it or null.

use vstd::prelude::*;
use vstd::std_specs::cmp::PartialEqSpecImpl;
use crate::datatypes::DataType;
use crate::native::{canonical, lemma_canonical, total_eq, Datum, F32, F64};

verus! {

/// A single value of some type, or the null of that type.
///
/// Two scalars are equal when they have the same type and are both null or
/// hold totally equal values: the equality by which a set tells its members
/// apart.
#[derive(Clone, Debug)]
pub enum ScalarValue {
    Null,
    Boolean(Option<bool>),
    Float32(Option<F32>),
    Float64(Option<F64>),
    Int8(Option<i8>),
    Int16(Option<i16>),
    Int32(Option<i32>),
    Int64(Option<i64>),
    UInt8(Option<u8>),
    UInt16(Option<u16>),
    UInt32(Option<u32>),
    UInt64(Option<u64>),
    Utf8(Option<String>),
    LargeUtf8(Option<String>),
    Date32(Option<i32>),
    Date64(Option<i64>),
}

/// What a scalar is: its type, and its value unless it is null.
pub struct ScalarData {
    pub data_type: DataType,
    pub value: Option<Datum>,
}

pub open spec fn datum_of_bool(v: Option<bool>) -> Option<Datum> {
    match v {
        Some(b) => Some(Datum::Boolean(b)),
        None => None,
    }
}

pub open spec fn datum_of_int(v: Option<int>) -> Option<Datum> {
    match v {
        Some(i) => Some(Datum::Int(i)),
        None => None,
    }
}

pub open spec fn datum_of_f32(v: Option<F32>) -> Option<Datum> {
    match v {
        Some(f) => Some(Datum::Float32(f.bits)),
        None => None,
    }
}

pub open spec fn datum_of_f64(v: Option<F64>) -> Option<Datum> {
    match v {
        Some(f) => Some(Datum::Float64(f.bits)),
        None => None,
    }
}

pub open spec fn datum_of_string(v: Option<String>) -> Option<Datum> {
    match v {
        Some(s) => Some(Datum::Utf8(s@)),
        None => None,
    }
}

pub open spec fn widen<T: Integer>(v: Option<T>) -> Option<int> {
    match v {
        Some(i) => Some(i as int),
        None => None,
    }
}

impl View for ScalarValue {
    type V = ScalarData;

    open spec fn view(&self) -> ScalarData {
        match *self {
            ScalarValue::Null => ScalarData { data_type: DataType::Null, value: None },
            ScalarValue::Boolean(v) => ScalarData {
                data_type: DataType::Boolean,
                value: datum_of_bool(v),
            },
            ScalarValue::Float32(v) => ScalarData {
                data_type: DataType::Float32,
                value: datum_of_f32(v),
            },
            ScalarValue::Float64(v) => ScalarData {
                data_type: DataType::Float64,
                value: datum_of_f64(v),
            },
            ScalarValue::Int8(v) => ScalarData {
                data_type: DataType::Int8,
                value: datum_of_int(widen(v)),
            },
            ScalarValue::Int16(v) => ScalarData {
                data_type: DataType::Int16,
                value: datum_of_int(widen(v)),
            },
            ScalarValue::Int32(v) => ScalarData {
                data_type: DataType::Int32,
                value: datum_of_int(widen(v)),
            },
            ScalarValue::Int64(v) => ScalarData {
                data_type: DataType::Int64,
                value: datum_of_int(widen(v)),
            },
            ScalarValue::UInt8(v) => ScalarData {
                data_type: DataType::UInt8,
                value: datum_of_int(widen(v)),
            },
            ScalarValue::UInt16(v) => ScalarData {
                data_type: DataType::UInt16,
                value: datum_of_int(widen(v)),
            },
            ScalarValue::UInt32(v) => ScalarData {
                data_type: DataType::UInt32,
                value: datum_of_int(widen(v)),
            },
            ScalarValue::UInt64(v) => ScalarData {
                data_type: DataType::UInt64,
                value: datum_of_int(widen(v)),
            },
            ScalarValue::Utf8(v) => ScalarData {
                data_type: DataType::Utf8,
                value: datum_of_string(v),
            },
            ScalarValue::LargeUtf8(v) => ScalarData {
                data_type: DataType::LargeUtf8,
                value: datum_of_string(v),
            },
            ScalarValue::Date32(v) => ScalarData {
                data_type: DataType::Date32,
                value: datum_of_int(widen(v)),
            },
            ScalarValue::Date64(v) => ScalarData {
                data_type: DataType::Date64,
                value: datum_of_int(widen(v)),
            },
        }
    }
}

impl ScalarData {
    /// The scalar under which a set files this one: the same type, and the
    /// canonical form of the value.
    pub open spec fn key(self) -> ScalarData {
        ScalarData {
            data_type: self.data_type,
            value: match self.value {
                Some(d) => Some(canonical(d)),
                None => None,
            },
        }
    }

    /// Equality of scalars as a set sees it: the same type, and both null or
    /// both values that are totally equal.
    pub open spec fn same_key(self, other: ScalarData) -> bool {
        self.data_type == other.data_type && match (self.value, other.value) {
            (Some(a), Some(b)) => total_eq(a, b),
            (None, None) => true,
            _ => false,
        }
    }

    /// Two scalars are equal as a set sees it exactly when they are filed
    /// under the same key.
    pub proof fn lemma_same_key(self, other: ScalarData)
        ensures
            self.same_key(other) <==> self.key() == other.key(),
    {
        match (self.value, other.value) {
            (Some(a), Some(b)) => lemma_canonical(a, b),
            _ => {},
        }
    }
}

impl ScalarValue {
    /// The scalar's type.
    pub fn get_datatype(&self) -> (r: DataType)
        ensures
            r == self@.data_type,
    {
        match self {
            ScalarValue::Null => DataType::Null,
            ScalarValue::Boolean(_) => DataType::Boolean,
            ScalarValue::Float32(_) => DataType::Float32,
            ScalarValue::Float64(_) => DataType::Float64,
            ScalarValue::Int8(_) => DataType::Int8,
            ScalarValue::Int16(_) => DataType::Int16,
            ScalarValue::Int32(_) => DataType::Int32,
            ScalarValue::Int64(_) => DataType::Int64,
            ScalarValue::UInt8(_) => DataType::UInt8,
            ScalarValue::UInt16(_) => DataType::UInt16,
            ScalarValue::UInt32(_) => DataType::UInt32,
            ScalarValue::UInt64(_) => DataType::UInt64,
            ScalarValue::Utf8(_) => DataType::Utf8,
            ScalarValue::LargeUtf8(_) => DataType::LargeUtf8,
            ScalarValue::Date32(_) => DataType::Date32,
            ScalarValue::Date64(_) => DataType::Date64,
        }
    }

    /// Whether the scalar is the null of its type.
    pub fn is_null(&self) -> (r: bool)
        ensures
            r == (self@.value is None),
    {
        match self {
            ScalarValue::Null => true,
            ScalarValue::Boolean(v) => v.is_none(),
            ScalarValue::Float32(v) => v.is_none(),
            ScalarValue::Float64(v) => v.is_none(),
            ScalarValue::Int8(v) => v.is_none(),
            ScalarValue::Int16(v) => v.is_none(),
            ScalarValue::Int32(v) => v.is_none(),
            ScalarValue::Int64(v) => v.is_none(),
            ScalarValue::UInt8(v) => v.is_none(),
            ScalarValue::UInt16(v) => v.is_none(),
            ScalarValue::UInt32(v) => v.is_none(),
            ScalarValue::UInt64(v) => v.is_none(),
            ScalarValue::Utf8(v) => v.is_none(),
            ScalarValue::LargeUtf8(v) => v.is_none(),
            ScalarValue::Date32(v) => v.is_none(),
            ScalarValue::Date64(v) => v.is_none(),
        }
    }

    /// A copy of the scalar.
    pub fn duplicate(&self) -> (r: ScalarValue)
        ensures
            r == *self,
    {
        match self {
            ScalarValue::Null => ScalarValue::Null,
            ScalarValue::Boolean(v) => ScalarValue::Boolean(*v),
            ScalarValue::Float32(v) => ScalarValue::Float32(*v),
            ScalarValue::Float64(v) => ScalarValue::Float64(*v),
            ScalarValue::Int8(v) => ScalarValue::Int8(*v),
            ScalarValue::Int16(v) => ScalarValue::Int16(*v),
            ScalarValue::Int32(v) => ScalarValue::Int32(*v),
            ScalarValue::Int64(v) => ScalarValue::Int64(*v),
            ScalarValue::UInt8(v) => ScalarValue::UInt8(*v),
            ScalarValue::UInt16(v) => ScalarValue::UInt16(*v),
            ScalarValue::UInt32(v) => ScalarValue::UInt32(*v),
            ScalarValue::UInt64(v) => ScalarValue::UInt64(*v),
            ScalarValue::Utf8(v) => ScalarValue::Utf8(duplicate_string(v)),
            ScalarValue::LargeUtf8(v) => ScalarValue::LargeUtf8(duplicate_string(v)),
            ScalarValue::Date32(v) => ScalarValue::Date32(*v),
            ScalarValue::Date64(v) => ScalarValue::Date64(*v),
        }
    }

    /// Equality of scalars as a set sees it: the same type, and both null or
    /// both values that are totally equal.
    pub fn same_key(&self, other: &ScalarValue) -> (r: bool)
        ensures
            r == self@.same_key(other@),
    {
        match (self, other) {
            (ScalarValue::Null, ScalarValue::Null) => true,
            (ScalarValue::Boolean(a), ScalarValue::Boolean(b)) => match (a, b) {
                (Some(x), Some(y)) => *x == *y,
                (None, None) => true,
                _ => false,
            },
            (ScalarValue::Float32(a), ScalarValue::Float32(b)) => match (a, b) {
                (Some(x), Some(y)) => x.total_eq(*y),
                (None, None) => true,
                _ => false,
            },
            (ScalarValue::Float64(a), ScalarValue::Float64(b)) => match (a, b) {
                (Some(x), Some(y)) => x.total_eq(*y),
                (None, None) => true,
                _ => false,
            },
            (ScalarValue::Int8(a), ScalarValue::Int8(b)) => match (a, b) {
                (Some(x), Some(y)) => *x == *y,
                (None, None) => true,
                _ => false,
            },
            (ScalarValue::Int16(a), ScalarValue::Int16(b)) => match (a, b) {
                (Some(x), Some(y)) => *x == *y,
                (None, None) => true,
                _ => false,
            },
            (ScalarValue::Int32(a), ScalarValue::Int32(b)) => match (a, b) {
                (Some(x), Some(y)) => *x == *y,
                (None, None) => true,
                _ => false,
            },
            (ScalarValue::Int64(a), ScalarValue::Int64(b)) => match (a, b) {
                (Some(x), Some(y)) => *x == *y,
                (None, None) => true,
                _ => false,
            },
            (ScalarValue::UInt8(a), ScalarValue::UInt8(b)) => match (a, b) {
                (Some(x), Some(y)) => *x == *y,
                (None, None) => true,
                _ => false,
            },
            (ScalarValue::UInt16(a), ScalarValue::UInt16(b)) => match (a, b) {
                (Some(x), Some(y)) => *x == *y,
                (None, None) => true,
                _ => false,
            },
            (ScalarValue::UInt32(a), ScalarValue::UInt32(b)) => match (a, b) {
                (Some(x), Some(y)) => *x == *y,
                (None, None) => true,
                _ => false,
            },
            (ScalarValue::UInt64(a), ScalarValue::UInt64(b)) => match (a, b) {
                (Some(x), Some(y)) => *x == *y,
                (None, None) => true,
                _ => false,
            },
            (ScalarValue::Utf8(a), ScalarValue::Utf8(b)) => match (a, b) {
                (Some(x), Some(y)) => *x == *y,
                (None, None) => true,
                _ => false,
            },
            (ScalarValue::LargeUtf8(a), ScalarValue::LargeUtf8(b)) => match (a, b) {
                (Some(x), Some(y)) => *x == *y,
                (None, None) => true,
                _ => false,
            },
            (ScalarValue::Date32(a), ScalarValue::Date32(b)) => match (a, b) {
                (Some(x), Some(y)) => *x == *y,
                (None, None) => true,
                _ => false,
            },
            (ScalarValue::Date64(a), ScalarValue::Date64(b)) => match (a, b) {
                (Some(x), Some(y)) => *x == *y,
                (None, None) => true,
                _ => false,
            },
            _ => false,
        }
    }
}

impl PartialEq for ScalarValue {
    fn eq(&self, other: &Self) -> (r: bool) {
        self.same_key(other)
    }
}

impl Eq for ScalarValue {

}

impl PartialEqSpecImpl for ScalarValue {
    open spec fn obeys_eq_spec() -> bool {
        true
    }

    open spec fn eq_spec(&self, other: &Self) -> bool {
        self@.same_key(other@)
    }
}

/// A copy of a string, or of no string.
pub fn duplicate_string(v: &Option<String>) -> (r: Option<String>)
    ensures
        r == *v,
{
    match v {
        Some(s) => Some(s.clone()),
        None => None,
    }
}

} // verus!
