//! What holds of the predicate for every probe, list and batch.

use vstd::prelude::*;
use std::sync::Arc;
use crate::array::ArrayData;
use crate::columnar::{ColumnarData, RecordBatch, Schema};
use crate::datatypes::DataType;
use crate::error::ExprError;
use crate::expressions::{NodeKind, PhysicalExpr};
use crate::predicate::{declared_offence, evaluate_all, first_declared_offence, predicate_spec};
use crate::router::{in_list_spec, in_set_spec};
use crate::static_list::{static_at, static_keys};
use crate::kernels::{
    first_offence, in_list_rows, in_set_rows, is_null_member, list_has_null, list_matches,
    member_equals, row_key, set_holds,
};
use crate::primitive::accepts;
use crate::native::{is_nan, lemma_canonical, lemma_native_total, Datum};
use crate::scalar::ScalarData;

verus! {

/// The list is one that a probe of the column's type can be compared with:
/// the type has a comparison, and every member is a scalar that is null or
/// of a type that compares with it.
pub open spec fn comparable_with(array: ArrayData, list: Seq<ColumnarData>) -> bool {
    array.data_type.is_comparable() && first_offence(array.data_type, list) is None
}

/// The member is a scalar that holds exactly the value `v`.
pub open spec fn holds(c: ColumnarData, v: Datum) -> bool {
    c matches ColumnarData::Scalar(s) && s.value == Some(v)
}

/// A row whose value stands in the list is in the list, whatever else the
/// list holds, a null too: `IN` answers true and `NOT IN` false. The value
/// must not be a NaN, which equals nothing.
pub proof fn lemma_match_decides(
    array: ArrayData,
    list: Seq<ColumnarData>,
    negated: bool,
    row: int,
    member: int,
)
    requires
        comparable_with(array, list),
        0 <= row < array.rows.len(),
        0 <= member < list.len(),
        array.rows[row] matches Some(v) && !is_nan(v) && holds(list[member], v),
    ensures
        in_list_spec(array, list, negated) matches Ok(answers) && answers[row] == Some(!negated),
{
    let v = array.rows[row]->Some_0;
    lemma_native_total(v, v);
    assert(member_equals(list[member], v));
}

/// A row whose value equals no member of a list without a null is not in
/// the list: `IN` answers false and `NOT IN` true.
pub proof fn lemma_miss_decides(
    array: ArrayData,
    list: Seq<ColumnarData>,
    negated: bool,
    row: int,
)
    requires
        comparable_with(array, list),
        0 <= row < array.rows.len(),
        array.rows[row] matches Some(v) && !list_matches(list, v),
        !list_has_null(list),
    ensures
        in_list_spec(array, list, negated) matches Ok(answers) && answers[row] == Some(negated),
{
}

/// A null row has a null answer, whatever the list or the set holds and
/// whether or not the predicate is negated.
pub proof fn lemma_null_row(
    array: ArrayData,
    list: Seq<ColumnarData>,
    set: Set<ScalarData>,
    negated: bool,
    row: int,
)
    requires
        0 <= row < array.rows.len(),
        array.rows[row] is None,
    ensures
        in_list_spec(array, list, negated) matches Ok(answers) ==> answers[row] is None,
        in_set_spec(array, set, negated) matches Ok(answers) ==> answers[row] is None,
{
}

/// Against a list that holds a null, a row whose value equals no member has
/// a null answer, for `IN` and for `NOT IN` alike.
pub proof fn lemma_null_in_list_hides_miss(
    array: ArrayData,
    list: Seq<ColumnarData>,
    negated: bool,
    row: int,
)
    requires
        comparable_with(array, list),
        0 <= row < array.rows.len(),
        array.rows[row] matches Some(v) && !list_matches(list, v),
        list_has_null(list),
    ensures
        in_list_spec(array, list, negated) matches Ok(answers) && answers[row] is None,
{
}

/// Against a list that holds a null, a row whose value stands in the list is
/// still decided: `IN` answers true and `NOT IN` false.
pub proof fn lemma_match_beats_null(array: ArrayData, list: Seq<ColumnarData>, row: int, member: int)
    requires
        comparable_with(array, list),
        list_has_null(list),
        0 <= row < array.rows.len(),
        0 <= member < list.len(),
        array.rows[row] matches Some(v) && !is_nan(v) && holds(list[member], v),
    ensures
        in_list_spec(array, list, false) matches Ok(answers) && answers[row] == Some(true),
        in_list_spec(array, list, true) matches Ok(answers) && answers[row] == Some(false),
{
    lemma_match_decides(array, list, false, row, member);
    lemma_match_decides(array, list, true, row, member);
}

/// The answer turned round, where there is one.
pub open spec fn inverted(answer: Option<bool>) -> Option<bool> {
    match answer {
        Some(b) => Some(!b),
        None => None,
    }
}

/// Negation turns each decided answer round and leaves each null answer
/// null, against a list and against a set; an error stays the error it is.
pub proof fn lemma_negation_inverts(
    array: ArrayData,
    list: Seq<ColumnarData>,
    set: Set<ScalarData>,
    negated: bool,
)
    ensures
        match in_list_spec(array, list, negated) {
            Ok(answers) => in_list_spec(array, list, !negated) matches Ok(others) && others.len()
                == answers.len() && forall|i: int|
                0 <= i < answers.len() ==> others[i] == inverted(#[trigger] answers[i]),
            Err(e) => in_list_spec(array, list, !negated) == Err::<Seq<Option<bool>>, _>(e),
        },
        match in_set_spec(array, set, negated) {
            Ok(answers) => in_set_spec(array, set, !negated) matches Ok(others) && others.len()
                == answers.len() && forall|i: int|
                0 <= i < answers.len() ==> others[i] == inverted(#[trigger] answers[i]),
            Err(e) => in_set_spec(array, set, !negated) == Err::<Seq<Option<bool>>, _>(e),
        },
{
}

/// There is one answer for each row, and the answer for a row depends on
/// that row alone: two columns of one type answer alike wherever they hold
/// the same.
pub proof fn lemma_rows_are_independent(
    array: ArrayData,
    other: ArrayData,
    list: Seq<ColumnarData>,
    set: Set<ScalarData>,
    negated: bool,
    i: int,
    j: int,
)
    requires
        array.data_type == other.data_type,
        0 <= i < array.rows.len(),
        0 <= j < other.rows.len(),
        array.rows[i] == other.rows[j],
    ensures
        in_list_spec(array, list, negated) matches Ok(answers) ==> answers.len()
            == array.rows.len() && (in_list_spec(other, list, negated) matches Ok(others)
            && others[j] == answers[i]),
        in_set_spec(array, set, negated) matches Ok(answers) ==> answers.len() == array.rows.len()
            && (in_set_spec(other, set, negated) matches Ok(others) && others[j] == answers[i]),
{
}

/// The constants behind a list, as the scalars that its members evaluate to.
pub open spec fn constants(list: Seq<Arc<dyn PhysicalExpr>>) -> Seq<ColumnarData> {
    Seq::new(list.len(), |i: int| ColumnarData::Scalar(static_at(list, i)->Some_0@))
}

/// Each member stands for a constant and evaluates against the batch to that
/// constant.
pub open spec fn evaluates_to_constants(list: Seq<Arc<dyn PhysicalExpr>>, batch: &RecordBatch)
    -> bool {
    forall|i: int|
        0 <= i < list.len() ==> (#[trigger] static_at(list, i) matches Some(v)
            && list[i].evaluate_spec(batch) == Ok::<_, ExprError>(ColumnarData::Scalar(v@)))
}

/// No constant behind the list is null.
pub open spec fn no_null_constant(list: Seq<Arc<dyn PhysicalExpr>>) -> bool {
    forall|i: int|
        0 <= i < list.len() ==> (#[trigger] static_at(list, i) matches Some(v) && v@.value is Some)
}

/// Each constant behind the list has a type whose values compare with the
/// rows of a probe of type `probe`.
pub open spec fn typed_for(list: Seq<Arc<dyn PhysicalExpr>>, probe: DataType) -> bool {
    forall|i: int|
        0 <= i < list.len() ==> (#[trigger] static_at(list, i) matches Some(v) && accepts(
            probe,
            v@.data_type,
        ))
}

/// The list is one on which a set and a list answer a column alike: its
/// constants are values that compare with the column's rows, and none of
/// them is null.
pub open spec fn alike(list: Seq<Arc<dyn PhysicalExpr>>, array: ArrayData) -> bool {
    no_null_constant(list) && typed_for(list, array.data_type)
}

/// Members that evaluate to their constants evaluate, as a list, to the
/// list of those constants.
pub proof fn lemma_evaluate_constants(list: Seq<Arc<dyn PhysicalExpr>>, batch: &RecordBatch)
    requires
        evaluates_to_constants(list, batch),
    ensures
        evaluate_all(list, batch) == Ok::<_, ExprError>(constants(list)),
    decreases list.len(),
{
    if list.len() == 0 {
        assert(constants(list) =~= Seq::empty());
    } else {
        let front = list.drop_last();
        assert(evaluates_to_constants(front, batch)) by {
            assert forall|i: int| 0 <= i < front.len() implies (#[trigger] static_at(front, i)
                matches Some(v) && front[i].evaluate_spec(batch) == Ok::<_, ExprError>(
                ColumnarData::Scalar(v@),
            )) by {
                assert(static_at(list, i) is Some);
                assert(front[i] == list[i]);
            }
        }
        lemma_evaluate_constants(front, batch);
        assert(static_at(list, list.len() - 1) is Some);
        assert(constants(list) =~= constants(front).push(
            ColumnarData::Scalar(static_at(list, list.len() - 1)->Some_0@),
        ));
    }
}

/// A list of scalars that each compare with the probe's type has no offence.
pub proof fn lemma_constants_no_offence(
    probe: DataType,
    list: Seq<Arc<dyn PhysicalExpr>>,
    n: int,
)
    requires
        typed_for(list, probe),
        0 <= n <= list.len(),
    ensures
        first_offence(probe, constants(list).take(n)) is None,
    decreases n,
{
    if n > 0 {
        lemma_constants_no_offence(probe, list, n - 1);
        assert(constants(list).take(n).drop_last() =~= constants(list).take(n - 1));
        assert(static_at(list, n - 1) is Some);
    }
}

/// Whether a list of constants is held as a set or evaluated as a list
/// makes no difference to what the predicate returns.
///
/// This holds where the members evaluate to the constants that the set was
/// built from, and, for a probe of a type with a comparison, where those
/// constants are values that compare with the probe's and none is null. A
/// set does not tell a null member from a value, and keeps members of
/// another type, which a list refuses.
pub proof fn lemma_strategies_agree<P: PhysicalExpr + ?Sized>(
    expr: &Arc<P>,
    list: Seq<Arc<dyn PhysicalExpr>>,
    negated: bool,
    batch: &RecordBatch,
)
    requires
        expr.evaluate_spec(batch) matches Ok(value) ==> evaluates_to_constants(list, batch) && (
        value.data_type().is_comparable() ==> alike(list, value.into_array(1))),
    ensures
        predicate_spec(expr, list, negated, Some(static_keys(list)), batch) == predicate_spec(
            expr,
            list,
            negated,
            None,
            batch,
        ),
{
    if let Ok(value) = expr.evaluate_spec(batch) {
        lemma_evaluate_constants(list, batch);
        let array = value.into_array(1);
        assert(array.data_type == value.data_type());
        if array.data_type.is_comparable() {
            lemma_answers_agree(array, list, negated);
        }
    }
}

/// Against the keys of a list of constants a column answers as against the
/// constants themselves, where the two strategies are alike.
pub proof fn lemma_answers_agree(array: ArrayData, list: Seq<Arc<dyn PhysicalExpr>>, negated: bool)
    requires
        array.data_type.is_comparable(),
        alike(list, array),
    ensures
        in_set_spec(array, static_keys(list), negated) == in_list_spec(
            array,
            constants(list),
            negated,
        ),
{
    let probe = array.data_type;
    let members = constants(list);
    let keys = static_keys(list);
    lemma_constants_no_offence(probe, list, list.len() as int);
    assert(members.take(list.len() as int) =~= members);
    assert(!list_has_null(members)) by {
        if list_has_null(members) {
            let j = choose|j: int| 0 <= j < members.len() && is_null_member(#[trigger] members[j]);
            assert(static_at(list, j) is Some);
        }
    }
    assert forall|r: int| 0 <= r < array.rows.len() implies in_set_rows(
        probe,
        array.rows,
        keys,
        negated,
    )[r] == in_list_rows(array.rows, members, negated)[r] by {
        if let Some(x) = array.rows[r] {
            if set_holds(keys, probe, x) {
                let t = if keys.contains(row_key(probe, x)) {
                    probe
                } else if keys.contains(row_key(DataType::Utf8, x)) {
                    DataType::Utf8
                } else {
                    DataType::LargeUtf8
                };
                let key = row_key(t, x);
                assert(keys.contains(key));
                let i = choose|i: int|
                    0 <= i < list.len() && (#[trigger] static_at(list, i) matches Some(v)
                        && v@.key() == key);
                let d = static_at(list, i)->Some_0@.value->Some_0;
                lemma_canonical(d, x);
                lemma_native_total(d, x);
                assert(member_equals(members[i], x));
            }
            if list_matches(members, x) {
                let i = choose|i: int|
                    0 <= i < members.len() && member_equals(#[trigger] members[i], x);
                assert(static_at(list, i) is Some);
                let v = static_at(list, i)->Some_0;
                let d = v@.value->Some_0;
                lemma_canonical(d, x);
                lemma_native_total(d, x);
                assert(v@.key() == row_key(v@.data_type, x));
                assert(keys.contains(row_key(v@.data_type, x)));
            }
        }
    }
    assert(in_set_rows(probe, array.rows, keys, negated) =~= in_list_rows(
        array.rows,
        members,
        negated,
    ));
}

/// A set built from the constants of a list answers true to `IN`, and false
/// to `NOT IN`, for a column that holds those same constants row by row and
/// whose type compares with theirs. None of them is null or a NaN, which
/// equals nothing.
pub proof fn lemma_round_trip(list: Seq<Arc<dyn PhysicalExpr>>, array: ArrayData, negated: bool)
    requires
        array.data_type.is_comparable(),
        array.rows.len() == list.len(),
        typed_for(list, array.data_type),
        forall|i: int|
            0 <= i < list.len() ==> (#[trigger] static_at(list, i) matches Some(v) && (
            v@.value matches Some(d) && !is_nan(d)) && array.rows[i] == v@.value),
    ensures
        in_set_spec(array, static_keys(list), negated) == Ok::<_, ExprError>(
            Seq::new(list.len(), |i: int| Some(!negated)),
        ),
{
    let keys = static_keys(list);
    let probe = array.data_type;
    let rows = in_set_rows(probe, array.rows, keys, negated);
    assert forall|r: int| 0 <= r < list.len() implies rows[r] == Some(!negated) by {
        assert(static_at(list, r) is Some);
        let v = static_at(list, r)->Some_0;
        let x = array.rows[r]->Some_0;
        assert(v@.key() == row_key(v@.data_type, x));
        assert(keys.contains(row_key(v@.data_type, x)));
    }
    assert(rows =~= Seq::new(list.len(), |i: int| Some(!negated)));
}

/// Each member is a constant that declares the type of its value and
/// evaluates to that value.
pub open spec fn literal_members(
    list: Seq<Arc<dyn PhysicalExpr>>,
    schema: &Schema,
    batch: &RecordBatch,
) -> bool {
    forall|i: int|
        0 <= i < list.len() ==> (#[trigger] list[i].kind_spec() matches NodeKind::Literal(v)
            && list[i].data_type_spec(schema) == Ok::<_, ExprError>(v@.data_type)
            && list[i].evaluate_spec(batch) == Ok::<_, ExprError>(ColumnarData::Scalar(v@)))
}

/// A list of constants whose declared types go with the probe's type is
/// evaluated without an offence: what is settled when the predicate is made
/// does not fail when it is evaluated.
pub proof fn lemma_valid_constants_compare(
    list: Seq<Arc<dyn PhysicalExpr>>,
    probe: DataType,
    schema: &Schema,
    batch: &RecordBatch,
)
    requires
        literal_members(list, schema, batch),
        first_declared_offence(list, list.len() as int, probe, schema) is None,
    ensures
        evaluate_all(list, batch) == Ok::<_, ExprError>(constants(list)),
        first_offence(probe, constants(list)) is None,
{
    assert(evaluates_to_constants(list, batch)) by {
        assert forall|i: int| 0 <= i < list.len() implies (#[trigger] static_at(list, i)
            matches Some(v) && list[i].evaluate_spec(batch) == Ok::<_, ExprError>(
            ColumnarData::Scalar(v@),
        )) by {
            assert(list[i].kind_spec() is Literal);
        }
    }
    lemma_evaluate_constants(list, batch);
    lemma_declared_constants(list, probe, schema, batch, list.len() as int);
    assert(constants(list).take(list.len() as int) =~= constants(list));
}

/// The first `n` constants of a list without a declared offence have no
/// offence.
pub proof fn lemma_declared_constants(
    list: Seq<Arc<dyn PhysicalExpr>>,
    probe: DataType,
    schema: &Schema,
    batch: &RecordBatch,
    n: int,
)
    requires
        literal_members(list, schema, batch),
        0 <= n <= list.len(),
        first_declared_offence(list, n, probe, schema) is None,
    ensures
        first_offence(probe, constants(list).take(n)) is None,
    decreases n,
{
    if n > 0 {
        lemma_declared_constants(list, probe, schema, batch, n - 1);
        assert(constants(list).take(n).drop_last() =~= constants(list).take(n - 1));
        assert(list[n - 1].kind_spec() is Literal);
        assert(declared_offence(list, n - 1, probe, schema) is None);
    }
}

} // verus!
