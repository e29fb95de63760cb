//! The router: from the type of a probe column to the evaluator of that
//! type, for a list and for a set.

use vstd::prelude::*;
use crate::array::{new_null_array, Array, ArrayData};
use crate::columnar::{ColumnarData, ColumnarValue};
use crate::datatypes::DataType;
use crate::error::ExprError;
use crate::kernels::{
    collect_values, in_list_utf8, in_set_rows, lemma_first_offence_strings,
    lemma_membership_of_list, list_answers, make_contains, make_contains_primitive,
    not_in_list_utf8, outcome, set_contains_with_negated, unknown_on_miss, views,
};
use crate::primitive::{datums_of, rows_of};
use crate::scalar::ScalarData;
use crate::scalar_set::ScalarSet;

verus! {

/// The answers of `rows` rows that are all null.
pub open spec fn all_null(rows: nat) -> Seq<Option<bool>> {
    Seq::new(rows, |i: int| None)
}

/// What the list-backed strategy answers for a probe column and an evaluated
/// list: nulls on the all-null type, an error on a type without a comparison
/// or on a list with an offence, and else one answer for each row.
pub open spec fn in_list_spec(array: ArrayData, list: Seq<ColumnarData>, negated: bool) -> Result<
    Seq<Option<bool>>,
    ExprError,
> {
    if array.data_type == DataType::Null {
        Ok(all_null(array.rows.len()))
    } else if !array.data_type.is_comparable() {
        Err(ExprError::UnsupportedType(array.data_type))
    } else {
        list_answers(array.data_type, array.rows, list, negated)
    }
}

/// What the set-backed strategy answers for a probe column and a set of
/// keys: nulls on the all-null type, an error on a type without a comparison,
/// and else one answer for each row.
pub open spec fn in_set_spec(array: ArrayData, set: Set<ScalarData>, negated: bool) -> Result<
    Seq<Option<bool>>,
    ExprError,
> {
    if array.data_type == DataType::Null {
        Ok(all_null(array.rows.len()))
    } else if !array.data_type.is_comparable() {
        Err(ExprError::UnsupportedType(array.data_type))
    } else {
        Ok(in_set_rows(array.data_type, array.rows, set, negated))
    }
}

/// `IN` or `NOT IN` of strings against an evaluated list, by the evaluator
/// that fits the negation and whether the list holds a null. Members of
/// either string type are taken.
pub fn compare_utf8(array: &Vec<Option<String>>, list_values: &Vec<ColumnarValue>, negated: bool)
    -> (r: Result<Vec<Option<bool>>, ExprError>)
    ensures
        outcome(r) == list_answers(DataType::Utf8, rows_of(array@), views(list_values@), negated),
        outcome(r) == list_answers(
            DataType::LargeUtf8,
            rows_of(array@),
            views(list_values@),
            negated,
        ),
{
    proof {
        lemma_first_offence_strings(views(list_values@));
    }
    match collect_values::<String>(list_values) {
        Ok((values, contains_null)) => {
            proof {
                lemma_membership_of_list(
                    rows_of(array@),
                    datums_of(values@),
                    views(list_values@),
                    negated,
                );
            }
            if negated {
                if contains_null {
                    Ok(unknown_on_miss(array, &values, true))
                } else {
                    Ok(not_in_list_utf8(array, &values))
                }
            } else if contains_null {
                Ok(unknown_on_miss(array, &values, false))
            } else {
                Ok(in_list_utf8(array, &values))
            }
        },
        Err(e) => Err(e),
    }
}

/// Routes a probe column to the list-backed evaluator of its type.
pub fn evaluate_list(array: &Array, list_values: &Vec<ColumnarValue>, negated: bool) -> (r: Result<
    Vec<Option<bool>>,
    ExprError,
>)
    ensures
        outcome(r) == in_list_spec(array@, views(list_values@), negated),
{
    match array {
        Array::Float32(v) => make_contains_primitive(v, list_values, negated),
        Array::Float64(v) => make_contains_primitive(v, list_values, negated),
        Array::Int16(v) => make_contains_primitive(v, list_values, negated),
        Array::Int32(v) => make_contains_primitive(v, list_values, negated),
        Array::Int64(v) => make_contains_primitive(v, list_values, negated),
        Array::Int8(v) => make_contains_primitive(v, list_values, negated),
        Array::UInt16(v) => make_contains_primitive(v, list_values, negated),
        Array::UInt32(v) => make_contains_primitive(v, list_values, negated),
        Array::UInt64(v) => make_contains_primitive(v, list_values, negated),
        Array::UInt8(v) => make_contains_primitive(v, list_values, negated),
        Array::Boolean(v) => make_contains(v, list_values, negated),
        Array::Utf8(v) => compare_utf8(v, list_values, negated),
        Array::LargeUtf8(v) => compare_utf8(v, list_values, negated),
        Array::Null(len) => Ok(new_null_array(*len)),
        Array::Date32(_) => Err(ExprError::UnsupportedType(DataType::Date32)),
        Array::Date64(_) => Err(ExprError::UnsupportedType(DataType::Date64)),
    }
}

/// Routes a probe column to the set-backed evaluator of its type.
pub fn evaluate_set(array: &Array, set: &ScalarSet, negated: bool) -> (r: Result<
    Vec<Option<bool>>,
    ExprError,
>)
    ensures
        outcome(r) == in_set_spec(array@, set@, negated),
{
    match array {
        Array::Boolean(v) => Ok(set_contains_with_negated(v, DataType::Boolean, set, negated)),
        Array::Int8(v) => Ok(set_contains_with_negated(v, DataType::Int8, set, negated)),
        Array::Int16(v) => Ok(set_contains_with_negated(v, DataType::Int16, set, negated)),
        Array::Int32(v) => Ok(set_contains_with_negated(v, DataType::Int32, set, negated)),
        Array::Int64(v) => Ok(set_contains_with_negated(v, DataType::Int64, set, negated)),
        Array::UInt8(v) => Ok(set_contains_with_negated(v, DataType::UInt8, set, negated)),
        Array::UInt16(v) => Ok(set_contains_with_negated(v, DataType::UInt16, set, negated)),
        Array::UInt32(v) => Ok(set_contains_with_negated(v, DataType::UInt32, set, negated)),
        Array::UInt64(v) => Ok(set_contains_with_negated(v, DataType::UInt64, set, negated)),
        Array::Float32(v) => Ok(set_contains_with_negated(v, DataType::Float32, set, negated)),
        Array::Float64(v) => Ok(set_contains_with_negated(v, DataType::Float64, set, negated)),
        Array::Utf8(v) => Ok(set_contains_with_negated(v, DataType::Utf8, set, negated)),
        Array::LargeUtf8(v) => Ok(set_contains_with_negated(v, DataType::LargeUtf8, set, negated)),
        Array::Null(len) => Ok(new_null_array(*len)),
        Array::Date32(_) => Err(ExprError::UnsupportedType(DataType::Date32)),
        Array::Date64(_) => Err(ExprError::UnsupportedType(DataType::Date64)),
    }
}

} // verus!
