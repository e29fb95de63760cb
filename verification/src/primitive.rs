//! The native types of the comparable columns, and what the evaluators need
//! of each: its equality, and the way between it and a scalar.

use vstd::prelude::*;
use crate::datatypes::DataType;
use crate::native::{is_nan, native_eq, Datum, F32, F64};
use crate::scalar::{ScalarData, ScalarValue};

verus! {

/// Whether values of a scalar of type `member` compare with the rows of a
/// probe of type `probe`: the two string types compare with each other, every
/// other type only with itself.
pub open spec fn accepts(probe: DataType, member: DataType) -> bool {
    if probe.is_string() {
        member.is_string()
    } else {
        member == probe
    }
}

/// Whether values of a scalar of type `member` compare with the rows of a
/// probe of type `probe`.
pub fn takes(probe: DataType, member: DataType) -> (r: bool)
    ensures
        r == accepts(probe, member),
{
    match probe {
        DataType::Utf8 | DataType::LargeUtf8 => match member {
            DataType::Utf8 | DataType::LargeUtf8 => true,
            _ => false,
        },
        _ => member == probe,
    }
}

/// The element type of a comparable column.
pub trait NativeType: Sized {
    /// The value, without its type.
    spec fn datum(&self) -> Datum;

    /// A type of columns with this element type; the columns of every type
    /// that compares with it have this element type too.
    spec fn scalar_type() -> DataType;

    /// Equality as a list comparison sees it.
    fn native_eq(&self, other: &Self) -> (r: bool)
        ensures
            r == native_eq(self.datum(), other.datum()),
    ;

    /// Whether the value is a floating-point NaN.
    fn is_nan(&self) -> (r: bool)
        ensures
            r == is_nan(self.datum()),
    ;

    /// The value as a scalar of the given type that is not null.
    fn into_scalar(&self, data_type: DataType) -> (r: ScalarValue)
        requires
            accepts(Self::scalar_type(), data_type),
        ensures
            r@ == (ScalarData { data_type, value: Some(self.datum()) }),
    ;

    /// The value of a scalar, where the scalar is not null and its type
    /// compares with this element type.
    fn from_scalar(s: &ScalarValue) -> (r: Option<Self>)
        ensures
            r is Some <==> accepts(Self::scalar_type(), s@.data_type) && s@.value is Some,
            r matches Some(v) ==> s@.value == Some(v.datum()),
    ;
}

impl NativeType for bool {
    open spec fn datum(&self) -> Datum {
        Datum::Boolean(*self)
    }

    open spec fn scalar_type() -> DataType {
        DataType::Boolean
    }

    fn native_eq(&self, other: &Self) -> (r: bool) {
        *self == *other
    }

    fn is_nan(&self) -> (r: bool) {
        false
    }

    fn into_scalar(&self, data_type: DataType) -> (r: ScalarValue) {
        ScalarValue::Boolean(Some(*self))
    }

    fn from_scalar(s: &ScalarValue) -> (r: Option<Self>) {
        match s {
            ScalarValue::Boolean(Some(v)) => Some(*v),
            _ => None,
        }
    }
}

impl NativeType for i8 {
    open spec fn datum(&self) -> Datum {
        Datum::Int(*self as int)
    }

    open spec fn scalar_type() -> DataType {
        DataType::Int8
    }

    fn native_eq(&self, other: &Self) -> (r: bool) {
        *self == *other
    }

    fn is_nan(&self) -> (r: bool) {
        false
    }

    fn into_scalar(&self, data_type: DataType) -> (r: ScalarValue) {
        ScalarValue::Int8(Some(*self))
    }

    fn from_scalar(s: &ScalarValue) -> (r: Option<Self>) {
        match s {
            ScalarValue::Int8(Some(v)) => Some(*v),
            _ => None,
        }
    }
}

impl NativeType for i16 {
    open spec fn datum(&self) -> Datum {
        Datum::Int(*self as int)
    }

    open spec fn scalar_type() -> DataType {
        DataType::Int16
    }

    fn native_eq(&self, other: &Self) -> (r: bool) {
        *self == *other
    }

    fn is_nan(&self) -> (r: bool) {
        false
    }

    fn into_scalar(&self, data_type: DataType) -> (r: ScalarValue) {
        ScalarValue::Int16(Some(*self))
    }

    fn from_scalar(s: &ScalarValue) -> (r: Option<Self>) {
        match s {
            ScalarValue::Int16(Some(v)) => Some(*v),
            _ => None,
        }
    }
}

impl NativeType for i32 {
    open spec fn datum(&self) -> Datum {
        Datum::Int(*self as int)
    }

    open spec fn scalar_type() -> DataType {
        DataType::Int32
    }

    fn native_eq(&self, other: &Self) -> (r: bool) {
        *self == *other
    }

    fn is_nan(&self) -> (r: bool) {
        false
    }

    fn into_scalar(&self, data_type: DataType) -> (r: ScalarValue) {
        ScalarValue::Int32(Some(*self))
    }

    fn from_scalar(s: &ScalarValue) -> (r: Option<Self>) {
        match s {
            ScalarValue::Int32(Some(v)) => Some(*v),
            _ => None,
        }
    }
}

impl NativeType for i64 {
    open spec fn datum(&self) -> Datum {
        Datum::Int(*self as int)
    }

    open spec fn scalar_type() -> DataType {
        DataType::Int64
    }

    fn native_eq(&self, other: &Self) -> (r: bool) {
        *self == *other
    }

    fn is_nan(&self) -> (r: bool) {
        false
    }

    fn into_scalar(&self, data_type: DataType) -> (r: ScalarValue) {
        ScalarValue::Int64(Some(*self))
    }

    fn from_scalar(s: &ScalarValue) -> (r: Option<Self>) {
        match s {
            ScalarValue::Int64(Some(v)) => Some(*v),
            _ => None,
        }
    }
}

impl NativeType for u8 {
    open spec fn datum(&self) -> Datum {
        Datum::Int(*self as int)
    }

    open spec fn scalar_type() -> DataType {
        DataType::UInt8
    }

    fn native_eq(&self, other: &Self) -> (r: bool) {
        *self == *other
    }

    fn is_nan(&self) -> (r: bool) {
        false
    }

    fn into_scalar(&self, data_type: DataType) -> (r: ScalarValue) {
        ScalarValue::UInt8(Some(*self))
    }

    fn from_scalar(s: &ScalarValue) -> (r: Option<Self>) {
        match s {
            ScalarValue::UInt8(Some(v)) => Some(*v),
            _ => None,
        }
    }
}

impl NativeType for u16 {
    open spec fn datum(&self) -> Datum {
        Datum::Int(*self as int)
    }

    open spec fn scalar_type() -> DataType {
        DataType::UInt16
    }

    fn native_eq(&self, other: &Self) -> (r: bool) {
        *self == *other
    }

    fn is_nan(&self) -> (r: bool) {
        false
    }

    fn into_scalar(&self, data_type: DataType) -> (r: ScalarValue) {
        ScalarValue::UInt16(Some(*self))
    }

    fn from_scalar(s: &ScalarValue) -> (r: Option<Self>) {
        match s {
            ScalarValue::UInt16(Some(v)) => Some(*v),
            _ => None,
        }
    }
}

impl NativeType for u32 {
    open spec fn datum(&self) -> Datum {
        Datum::Int(*self as int)
    }

    open spec fn scalar_type() -> DataType {
        DataType::UInt32
    }

    fn native_eq(&self, other: &Self) -> (r: bool) {
        *self == *other
    }

    fn is_nan(&self) -> (r: bool) {
        false
    }

    fn into_scalar(&self, data_type: DataType) -> (r: ScalarValue) {
        ScalarValue::UInt32(Some(*self))
    }

    fn from_scalar(s: &ScalarValue) -> (r: Option<Self>) {
        match s {
            ScalarValue::UInt32(Some(v)) => Some(*v),
            _ => None,
        }
    }
}

impl NativeType for u64 {
    open spec fn datum(&self) -> Datum {
        Datum::Int(*self as int)
    }

    open spec fn scalar_type() -> DataType {
        DataType::UInt64
    }

    fn native_eq(&self, other: &Self) -> (r: bool) {
        *self == *other
    }

    fn is_nan(&self) -> (r: bool) {
        false
    }

    fn into_scalar(&self, data_type: DataType) -> (r: ScalarValue) {
        ScalarValue::UInt64(Some(*self))
    }

    fn from_scalar(s: &ScalarValue) -> (r: Option<Self>) {
        match s {
            ScalarValue::UInt64(Some(v)) => Some(*v),
            _ => None,
        }
    }
}

impl NativeType for F32 {
    open spec fn datum(&self) -> Datum {
        Datum::Float32(self.bits)
    }

    open spec fn scalar_type() -> DataType {
        DataType::Float32
    }

    fn native_eq(&self, other: &Self) -> (r: bool) {
        self.ieee_eq(*other)
    }

    fn is_nan(&self) -> (r: bool) {
        F32::is_nan(*self)
    }

    fn into_scalar(&self, data_type: DataType) -> (r: ScalarValue) {
        ScalarValue::Float32(Some(*self))
    }

    fn from_scalar(s: &ScalarValue) -> (r: Option<Self>) {
        match s {
            ScalarValue::Float32(Some(v)) => Some(*v),
            _ => None,
        }
    }
}

impl NativeType for F64 {
    open spec fn datum(&self) -> Datum {
        Datum::Float64(self.bits)
    }

    open spec fn scalar_type() -> DataType {
        DataType::Float64
    }

    fn native_eq(&self, other: &Self) -> (r: bool) {
        self.ieee_eq(*other)
    }

    fn is_nan(&self) -> (r: bool) {
        F64::is_nan(*self)
    }

    fn into_scalar(&self, data_type: DataType) -> (r: ScalarValue) {
        ScalarValue::Float64(Some(*self))
    }

    fn from_scalar(s: &ScalarValue) -> (r: Option<Self>) {
        match s {
            ScalarValue::Float64(Some(v)) => Some(*v),
            _ => None,
        }
    }
}

impl NativeType for String {
    open spec fn datum(&self) -> Datum {
        Datum::Utf8(self@)
    }

    open spec fn scalar_type() -> DataType {
        DataType::Utf8
    }

    fn native_eq(&self, other: &Self) -> (r: bool) {
        *self == *other
    }

    fn is_nan(&self) -> (r: bool) {
        false
    }

    fn into_scalar(&self, data_type: DataType) -> (r: ScalarValue) {
        match data_type {
            DataType::LargeUtf8 => ScalarValue::LargeUtf8(Some(self.clone())),
            _ => ScalarValue::Utf8(Some(self.clone())),
        }
    }

    fn from_scalar(s: &ScalarValue) -> (r: Option<Self>) {
        match s {
            ScalarValue::Utf8(Some(v)) => Some(v.clone()),
            ScalarValue::LargeUtf8(Some(v)) => Some(v.clone()),
            _ => None,
        }
    }
}

/// The rows of a column as values without their type.
pub open spec fn rows_of<T: NativeType>(s: Seq<Option<T>>) -> Seq<Option<Datum>> {
    Seq::new(
        s.len(),
        |i: int|
            match s[i] {
                Some(v) => Some(v.datum()),
                None => None,
            },
    )
}

/// The values of a list as values without their type.
pub open spec fn datums_of<T: NativeType>(s: Seq<T>) -> Seq<Datum> {
    Seq::new(s.len(), |i: int| s[i].datum())
}

} // verus!
