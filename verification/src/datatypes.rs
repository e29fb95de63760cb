//! The logical types a column or a scalar can have.

use vstd::prelude::*;

verus! {

/// Logical type of a column or of a scalar.
///
/// `IN` / `NOT IN` is offered for booleans, integers, floating-point numbers
/// and strings, and answers with nulls on the all-null type. The date types
/// stand for what a batch may hold and the predicate does not take.
#[derive(Clone, Copy, Debug, PartialEq, Eq, Structural, Hash)]
pub enum DataType {
    Null,
    Boolean,
    Int8,
    Int16,
    Int32,
    Int64,
    UInt8,
    UInt16,
    UInt32,
    UInt64,
    Float32,
    Float64,
    Utf8,
    LargeUtf8,
    Date32,
    Date64,
}

impl DataType {
    /// Whether a per-row comparison exists for probes of this type.
    pub open spec fn is_comparable(self) -> bool {
        match self {
            DataType::Null | DataType::Date32 | DataType::Date64 => false,
            _ => true,
        }
    }

    /// Whether this is one of the two string encodings.
    pub open spec fn is_string(self) -> bool {
        self == DataType::Utf8 || self == DataType::LargeUtf8
    }

    /// The type's name as a sequence of characters.
    pub open spec fn name_spec(self) -> Seq<char> {
        match self {
            DataType::Null => "Null"@,
            DataType::Boolean => "Boolean"@,
            DataType::Int8 => "Int8"@,
            DataType::Int16 => "Int16"@,
            DataType::Int32 => "Int32"@,
            DataType::Int64 => "Int64"@,
            DataType::UInt8 => "UInt8"@,
            DataType::UInt16 => "UInt16"@,
            DataType::UInt32 => "UInt32"@,
            DataType::UInt64 => "UInt64"@,
            DataType::Float32 => "Float32"@,
            DataType::Float64 => "Float64"@,
            DataType::Utf8 => "Utf8"@,
            DataType::LargeUtf8 => "LargeUtf8"@,
            DataType::Date32 => "Date32"@,
            DataType::Date64 => "Date64"@,
        }
    }

    /// The type's name.
    pub fn name(&self) -> (r: &'static str)
        ensures
            r@ == self.name_spec(),
    {
        match self {
            DataType::Null => "Null",
            DataType::Boolean => "Boolean",
            DataType::Int8 => "Int8",
            DataType::Int16 => "Int16",
            DataType::Int32 => "Int32",
            DataType::Int64 => "Int64",
            DataType::UInt8 => "UInt8",
            DataType::UInt16 => "UInt16",
            DataType::UInt32 => "UInt32",
            DataType::UInt64 => "UInt64",
            DataType::Float32 => "Float32",
            DataType::Float64 => "Float64",
            DataType::Utf8 => "Utf8",
            DataType::LargeUtf8 => "LargeUtf8",
            DataType::Date32 => "Date32",
            DataType::Date64 => "Date64",
        }
    }

    /// Whether a per-row comparison exists for probes of this type.
    pub fn comparable(&self) -> (r: bool)
        ensures
            r == self.is_comparable(),
    {
        match self {
            DataType::Null | DataType::Date32 | DataType::Date64 => false,
            _ => true,
        }
    }
}

} // verus!
