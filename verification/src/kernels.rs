//! The comparisons of one column against the values of a list or a set, row
//! by row, for any element type.

use vstd::prelude::*;
use crate::columnar::{ColumnarData, ColumnarValue};
use crate::datatypes::DataType;
use crate::error::ExprError;
use crate::native::{canonical, is_nan, native_eq, Datum};
use crate::primitive::{accepts, datums_of, rows_of, NativeType};
use crate::scalar::ScalarData;
use crate::scalar_set::ScalarSet;

verus! {

/// Some value of the list equals `v`.
pub open spec fn contains_value(values: Seq<Datum>, v: Datum) -> bool {
    exists|j: int| 0 <= j < values.len() && native_eq(#[trigger] values[j], v)
}

/// The three-valued answer for a row that is not null: a match decides, a
/// null in the list leaves a miss unknown, and negation turns a decided
/// answer round.
pub open spec fn truth(found: bool, list_has_null: bool, negated: bool) -> Option<bool> {
    if found {
        Some(!negated)
    } else if list_has_null {
        None
    } else {
        Some(negated)
    }
}

/// The answer for one row against the values of a list that are not null.
pub open spec fn membership_row(
    row: Option<Datum>,
    values: Seq<Datum>,
    list_has_null: bool,
    negated: bool,
) -> Option<bool> {
    match row {
        Some(v) => truth(contains_value(values, v), list_has_null, negated),
        None => None,
    }
}

/// The answers for all rows against the values of a list that are not null.
pub open spec fn membership(
    rows: Seq<Option<Datum>>,
    values: Seq<Datum>,
    list_has_null: bool,
    negated: bool,
) -> Seq<Option<bool>> {
    Seq::new(rows.len(), |i: int| membership_row(rows[i], values, list_has_null, negated))
}

/// Whether some value of the list equals `v`.
pub fn contains<T: NativeType>(values: &Vec<T>, v: &T) -> (r: bool)
    ensures
        r == contains_value(datums_of(values@), v.datum()),
{
    let mut j: usize = 0;
    while j < values.len()
        invariant
            j <= values.len(),
            forall|k: int| 0 <= k < j ==> !native_eq(#[trigger] datums_of(values@)[k], v.datum()),
        decreases values.len() - j,
    {
        if values[j].native_eq(v) {
            assert(native_eq(datums_of(values@)[j as int], v.datum()));
            return true;
        }
        j += 1;
    }
    false
}

/// The answers for all rows, whatever the list holds.
fn compare<T: NativeType>(
    array: &Vec<Option<T>>,
    values: &Vec<T>,
    list_has_null: bool,
    negated: bool,
) -> (r: Vec<Option<bool>>)
    ensures
        r@ == membership(rows_of(array@), datums_of(values@), list_has_null, negated),
{
    let mut out: Vec<Option<bool>> = Vec::new();
    let mut i: usize = 0;
    while i < array.len()
        invariant
            i <= array.len(),
            out@.len() == i,
            forall|k: int|
                0 <= k < i ==> out@[k] == membership_row(
                    #[trigger] rows_of(array@)[k],
                    datums_of(values@),
                    list_has_null,
                    negated,
                ),
        decreases array.len() - i,
    {
        let answer = match &array[i] {
            Some(v) => {
                if contains(values, v) {
                    Some(!negated)
                } else if list_has_null {
                    None
                } else {
                    Some(negated)
                }
            },
            None => None,
        };
        out.push(answer);
        i += 1;
    }
    assert(out@ =~= membership(rows_of(array@), datums_of(values@), list_has_null, negated));
    out
}

/// `IN` against a list without a null: true on a match, false on a miss,
/// null on a null row.
pub fn in_list_primitive<T: NativeType>(array: &Vec<Option<T>>, values: &Vec<T>) -> (r: Vec<
    Option<bool>,
>)
    ensures
        r@ == membership(rows_of(array@), datums_of(values@), false, false),
{
    compare(array, values, false, false)
}

/// `NOT IN` against a list without a null: false on a match, true on a miss,
/// null on a null row.
pub fn not_in_list_primitive<T: NativeType>(array: &Vec<Option<T>>, values: &Vec<T>) -> (r: Vec<
    Option<bool>,
>)
    ensures
        r@ == membership(rows_of(array@), datums_of(values@), false, true),
{
    compare(array, values, false, true)
}

/// `IN` of strings against a list without a null.
pub fn in_list_utf8(array: &Vec<Option<String>>, values: &Vec<String>) -> (r: Vec<Option<bool>>)
    ensures
        r@ == membership(rows_of(array@), datums_of(values@), false, false),
{
    compare(array, values, false, false)
}

/// `NOT IN` of strings against a list without a null.
pub fn not_in_list_utf8(array: &Vec<Option<String>>, values: &Vec<String>) -> (r: Vec<
    Option<bool>,
>)
    ensures
        r@ == membership(rows_of(array@), datums_of(values@), false, true),
{
    compare(array, values, false, true)
}

/// `IN` or `NOT IN` against a list that holds a null: a match is decided,
/// a miss is null, and so is a null row.
pub fn unknown_on_miss<T: NativeType>(array: &Vec<Option<T>>, values: &Vec<T>, negated: bool) -> (r:
    Vec<Option<bool>>)
    ensures
        r@ == membership(rows_of(array@), datums_of(values@), true, negated),
{
    compare(array, values, true, negated)
}

/// The member is a null scalar.
pub open spec fn is_null_member(c: ColumnarData) -> bool {
    c matches ColumnarData::Scalar(s) && s.value is None
}

/// The member is a scalar whose value equals `v`.
pub open spec fn member_equals(c: ColumnarData, v: Datum) -> bool {
    c matches ColumnarData::Scalar(s) && s.value matches Some(d) && native_eq(d, v)
}

/// Some member of the list is a null scalar.
pub open spec fn list_has_null(list: Seq<ColumnarData>) -> bool {
    exists|j: int| 0 <= j < list.len() && is_null_member(#[trigger] list[j])
}

/// Some member of the list is a scalar whose value equals `v`.
pub open spec fn list_matches(list: Seq<ColumnarData>, v: Datum) -> bool {
    exists|j: int| 0 <= j < list.len() && member_equals(#[trigger] list[j], v)
}

/// The answer for one row against an evaluated list.
pub open spec fn in_list_row(row: Option<Datum>, list: Seq<ColumnarData>, negated: bool) -> Option<
    bool,
> {
    match row {
        Some(v) => truth(list_matches(list, v), list_has_null(list), negated),
        None => None,
    }
}

/// The answers for all rows against an evaluated list.
pub open spec fn in_list_rows(rows: Seq<Option<Datum>>, list: Seq<ColumnarData>, negated: bool)
    -> Seq<Option<bool>> {
    Seq::new(rows.len(), |i: int| in_list_row(rows[i], list, negated))
}

/// Why a member cannot stand in the list of a probe of type `probe`: it is a
/// column, or a value of a type that does not compare with the probe's. A
/// null of any type can stand there.
pub open spec fn offence(probe: DataType, c: ColumnarData) -> Option<ExprError> {
    match c {
        ColumnarData::Array(_) => Some(ExprError::NestedColumn),
        ColumnarData::Scalar(s) => if s.value is Some && !accepts(probe, s.data_type) {
            Some(ExprError::UnexpectedType(s.data_type))
        } else {
            None
        },
    }
}

/// The offence of the first member that has one.
pub open spec fn first_offence(probe: DataType, list: Seq<ColumnarData>) -> Option<ExprError>
    decreases list.len(),
{
    if list.len() == 0 {
        None
    } else {
        match first_offence(probe, list.drop_last()) {
            Some(e) => Some(e),
            None => offence(probe, list.last()),
        }
    }
}

/// What the members of an evaluated list are.
pub open spec fn views(list: Seq<ColumnarValue>) -> Seq<ColumnarData> {
    Seq::new(list.len(), |i: int| list[i]@)
}

/// The two string types take the same members.
pub proof fn lemma_first_offence_strings(list: Seq<ColumnarData>)
    ensures
        first_offence(DataType::Utf8, list) == first_offence(DataType::LargeUtf8, list),
    decreases list.len(),
{
    if list.len() > 0 {
        lemma_first_offence_strings(list.drop_last());
    }
}

/// The values of an evaluated list that are not null, and whether it holds a
/// null; or the offence of the first member that has one.
pub fn collect_values<T: NativeType>(list: &Vec<ColumnarValue>) -> (r: Result<
    (Vec<T>, bool),
    ExprError,
>)
    ensures
        match r {
            Ok((values, has_null)) => {
                &&& first_offence(T::scalar_type(), views(list@)) is None
                &&& has_null == list_has_null(views(list@))
                &&& forall|v: Datum|
                    contains_value(datums_of(values@), v) == list_matches(views(list@), v)
            },
            Err(e) => first_offence(T::scalar_type(), views(list@)) == Some(e),
        },
{
    let ghost members = views(list@);
    let mut values: Vec<T> = Vec::new();
    let mut has_null = false;
    let mut i: usize = 0;
    while i < list.len()
        invariant
            i <= list.len(),
            members == views(list@),
            first_offence(T::scalar_type(), members.take(i as int)) is None,
            has_null == list_has_null(members.take(i as int)),
            forall|v: Datum|
                contains_value(datums_of(values@), v) == list_matches(members.take(i as int), v),
        decreases list.len() - i,
    {
        let ghost now = members.take(i as int);
        let ghost next = members.take(i + 1);
        let ghost before = datums_of(values@);
        proof {
            assert(next.drop_last() =~= now);
            assert(next.last() == members[i as int]);
            assert(members[i as int] == list@[i as int]@);
        }
        match &list[i] {
            ColumnarValue::Array(_) => {
                proof {
                    lemma_first_offence_prefix(T::scalar_type(), members, i + 1);
                }
                return Err(ExprError::NestedColumn);
            },
            ColumnarValue::Scalar(s) => {
                if s.is_null() {
                    has_null = true;
                    proof {
                        lemma_push_null(now, next);
                        assert forall|v: Datum|
                            list_matches(next, v) == list_matches(now, v) by {
                            lemma_push_member(now, next, v);
                        }
                    }
                } else {
                    match T::from_scalar(s) {
                        Some(value) => {
                            let ghost d = value.datum();
                            values.push(value);
                            proof {
                                let after = datums_of(values@);
                                assert(after =~= before.push(d));
                                assert forall|v: Datum|
                                    contains_value(after, v) == list_matches(next, v) by {
                                    lemma_push_member(now, next, v);
                                    lemma_push_value(before, d, v);
                                }
                                lemma_push_null(now, next);
                            }
                        },
                        None => {
                            proof {
                                lemma_first_offence_prefix(T::scalar_type(), members, i + 1);
                            }
                            return Err(ExprError::UnexpectedType(s.get_datatype()));
                        },
                    }
                }
            },
        }
        i += 1;
    }
    proof {
        assert(members.take(i as int) =~= members);
    }
    Ok((values, has_null))
}

/// One more member matches what the members before it match, and what it
/// equals itself.
pub proof fn lemma_push_member(now: Seq<ColumnarData>, next: Seq<ColumnarData>, v: Datum)
    requires
        next.len() == now.len() + 1,
        next.drop_last() == now,
    ensures
        list_matches(next, v) == (list_matches(now, v) || member_equals(next.last(), v)),
{
    assert forall|j: int| 0 <= j < now.len() implies now[j] == next[j] by {
        assert(now[j] == next.drop_last()[j]);
    }
    if list_matches(now, v) {
        let j = choose|j: int| 0 <= j < now.len() && member_equals(#[trigger] now[j], v);
        assert(member_equals(next[j], v));
    }
    if member_equals(next.last(), v) {
        assert(member_equals(next[next.len() - 1], v));
    }
}

/// With one more member a list holds a null where it held one before, or
/// where the new member is one.
pub proof fn lemma_push_null(now: Seq<ColumnarData>, next: Seq<ColumnarData>)
    requires
        next.len() == now.len() + 1,
        next.drop_last() == now,
    ensures
        list_has_null(next) == (list_has_null(now) || is_null_member(next.last())),
{
    assert forall|j: int| 0 <= j < now.len() implies now[j] == next[j] by {
        assert(now[j] == next.drop_last()[j]);
    }
    if list_has_null(now) {
        let j = choose|j: int| 0 <= j < now.len() && is_null_member(#[trigger] now[j]);
        assert(is_null_member(next[j]));
    }
    if is_null_member(next.last()) {
        assert(is_null_member(next[next.len() - 1]));
    }
}

/// What one more value adds to the values of a list.
pub proof fn lemma_push_value(values: Seq<Datum>, d: Datum, v: Datum)
    ensures
        contains_value(values.push(d), v) == (contains_value(values, v) || native_eq(d, v)),
{
    let after = values.push(d);
    if contains_value(values, v) {
        let j = choose|j: int| 0 <= j < values.len() && native_eq(#[trigger] values[j], v);
        assert(native_eq(after[j], v));
    }
    if native_eq(d, v) {
        assert(native_eq(after[values.len() as int], v));
    }
    if contains_value(after, v) {
        let j = choose|j: int| 0 <= j < after.len() && native_eq(#[trigger] after[j], v);
        if j < values.len() {
            assert(native_eq(values[j], v));
        }
    }
}

/// An offence within a prefix is the offence of the whole list.
pub proof fn lemma_first_offence_prefix(probe: DataType, list: Seq<ColumnarData>, n: int)
    requires
        0 <= n <= list.len(),
        first_offence(probe, list.take(n)) is Some,
    ensures
        first_offence(probe, list) == first_offence(probe, list.take(n)),
    decreases list.len() - n,
{
    if n < list.len() {
        assert(list.take(n + 1).drop_last() =~= list.take(n));
        lemma_first_offence_prefix(probe, list, n + 1);
    } else {
        assert(list.take(n) =~= list);
    }
}

/// The answers of the list-backed comparison: the rows' answers where no
/// member of the list has an offence, else the first offence.
pub open spec fn list_answers(
    probe: DataType,
    rows: Seq<Option<Datum>>,
    list: Seq<ColumnarData>,
    negated: bool,
) -> Result<Seq<Option<bool>>, ExprError> {
    match first_offence(probe, list) {
        Some(e) => Err(e),
        None => Ok(in_list_rows(rows, list, negated)),
    }
}

/// What an evaluator returned: its rows, or its error.
pub open spec fn outcome(r: Result<Vec<Option<bool>>, ExprError>) -> Result<
    Seq<Option<bool>>,
    ExprError,
> {
    match r {
        Ok(rows) => Ok(rows@),
        Err(e) => Err(e),
    }
}

/// Against the values of a list, the rows answer as against the list itself.
pub proof fn lemma_membership_of_list(
    rows: Seq<Option<Datum>>,
    values: Seq<Datum>,
    list: Seq<ColumnarData>,
    negated: bool,
)
    requires
        forall|v: Datum| contains_value(values, v) == list_matches(list, v),
    ensures
        membership(rows, values, list_has_null(list), negated) == in_list_rows(rows, list, negated),
{
    assert(membership(rows, values, list_has_null(list), negated) =~= in_list_rows(
        rows,
        list,
        negated,
    ));
}

/// `IN` or `NOT IN` of a column against an evaluated list, in one pass that
/// decides each row by the whole truth table.
pub fn make_contains<T: NativeType>(
    array: &Vec<Option<T>>,
    list_values: &Vec<ColumnarValue>,
    negated: bool,
) -> (r: Result<Vec<Option<bool>>, ExprError>)
    ensures
        outcome(r) == list_answers(
            T::scalar_type(),
            rows_of(array@),
            views(list_values@),
            negated,
        ),
{
    match collect_values::<T>(list_values) {
        Ok((values, contains_null)) => {
            proof {
                lemma_membership_of_list(
                    rows_of(array@),
                    datums_of(values@),
                    views(list_values@),
                    negated,
                );
            }
            Ok(compare(array, &values, contains_null, negated))
        },
        Err(e) => Err(e),
    }
}

/// `IN` or `NOT IN` of a column against an evaluated list, by the evaluator
/// that fits the negation and whether the list holds a null.
pub fn make_contains_primitive<T: NativeType>(
    array: &Vec<Option<T>>,
    list_values: &Vec<ColumnarValue>,
    negated: bool,
) -> (r: Result<Vec<Option<bool>>, ExprError>)
    ensures
        outcome(r) == list_answers(
            T::scalar_type(),
            rows_of(array@),
            views(list_values@),
            negated,
        ),
{
    match collect_values::<T>(list_values) {
        Ok((values, contains_null)) => {
            proof {
                lemma_membership_of_list(
                    rows_of(array@),
                    datums_of(values@),
                    views(list_values@),
                    negated,
                );
            }
            if negated {
                if contains_null {
                    Ok(unknown_on_miss(array, &values, true))
                } else {
                    Ok(not_in_list_primitive(array, &values))
                }
            } else {
                if contains_null {
                    Ok(unknown_on_miss(array, &values, false))
                } else {
                    Ok(in_list_primitive(array, &values))
                }
            }
        },
        Err(e) => Err(e),
    }
}

/// The key under which a set files the scalar of type `data_type` that holds
/// the value `v`.
pub open spec fn row_key(data_type: DataType, v: Datum) -> ScalarData {
    ScalarData { data_type, value: Some(canonical(v)) }
}

/// Whether a set holds the value `v` of a row of a column of type `probe`:
/// as a scalar of the column's type, or, for a string, as a string of either
/// encoding. A NaN equals nothing and so is never held.
pub open spec fn set_holds(set: Set<ScalarData>, probe: DataType, v: Datum) -> bool {
    !is_nan(v) && if probe.is_string() {
        set.contains(row_key(DataType::Utf8, v)) || set.contains(row_key(DataType::LargeUtf8, v))
    } else {
        set.contains(row_key(probe, v))
    }
}

/// The answer for one row of a column of type `probe` against a set: null
/// for a null row, else whether the set holds the row's value, turned round
/// by negation.
pub open spec fn in_set_row(
    probe: DataType,
    row: Option<Datum>,
    set: Set<ScalarData>,
    negated: bool,
) -> Option<bool> {
    match row {
        Some(v) => Some(set_holds(set, probe, v) != negated),
        None => None,
    }
}

/// The answers for all rows of a column of type `probe` against a set.
pub open spec fn in_set_rows(
    probe: DataType,
    rows: Seq<Option<Datum>>,
    set: Set<ScalarData>,
    negated: bool,
) -> Seq<Option<bool>> {
    Seq::new(rows.len(), |i: int| in_set_row(probe, rows[i], set, negated))
}

/// Whether a set holds the value of a row of a column of type `probe`.
pub fn found_in_set<T: NativeType>(v: &T, probe: DataType, set: &ScalarSet) -> (r: bool)
    requires
        accepts(T::scalar_type(), probe),
    ensures
        r == set_holds(set@, probe, v.datum()),
{
    if v.is_nan() {
        false
    } else {
        match probe {
            DataType::Utf8 | DataType::LargeUtf8 => set.contains(&v.into_scalar(DataType::Utf8))
                || set.contains(&v.into_scalar(DataType::LargeUtf8)),
            _ => set.contains(&v.into_scalar(probe)),
        }
    }
}

/// `IN` or `NOT IN` of a column of type `probe` against a set: each row that
/// is not null is looked up.
pub fn set_contains_with_negated<T: NativeType>(
    array: &Vec<Option<T>>,
    probe: DataType,
    set: &ScalarSet,
    negated: bool,
) -> (r: Vec<Option<bool>>)
    requires
        accepts(T::scalar_type(), probe),
    ensures
        r@ == in_set_rows(probe, rows_of(array@), set@, negated),
{
    let mut out: Vec<Option<bool>> = Vec::new();
    let mut i: usize = 0;
    while i < array.len()
        invariant
            i <= array.len(),
            out@.len() == i,
            accepts(T::scalar_type(), probe),
            forall|k: int|
                0 <= k < i ==> out@[k] == in_set_row(
                    probe,
                    #[trigger] rows_of(array@)[k],
                    set@,
                    negated,
                ),
        decreases array.len() - i,
    {
        let answer = match &array[i] {
            Some(v) => {
                if negated {
                    Some(!found_in_set(v, probe, set))
                } else {
                    Some(found_in_set(v, probe, set))
                }
            },
            None => None,
        };
        out.push(answer);
        i += 1;
    }
    assert(out@ =~= in_set_rows(probe, rows_of(array@), set@, negated));
    out
}

} // verus!
