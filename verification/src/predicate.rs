//! The `IN` / `NOT IN` predicate node.

use vstd::prelude::*;
use vstd::string::StringExecFns;
use std::sync::Arc;
use crate::array::{Array, ArrayData};
use crate::columnar::{ColumnarData, ColumnarValue, RecordBatch, Schema};
use crate::datatypes::DataType;
use crate::error::ExprError;
use crate::expressions::{evaluated, NodeKind, PhysicalExpr};
use crate::kernels::views;
use crate::primitive::{accepts, rows_of, takes};
use crate::router::{evaluate_list, evaluate_set, in_list_spec, in_set_spec};
use crate::scalar::ScalarData;
use crate::scalar_set::ScalarSet;
use crate::static_list::{
    all_static, cast_static_filter_to_set, check_all_static_filter_expr, static_keys,
};

verus! {

/// The length above which a list of constants is held as a set.
pub const OPTIMIZER_INSET_THRESHOLD: usize = 30;

/// The distinct constants of a list, built once when the node is made.
#[derive(Debug)]
pub struct InSet {
    set: ScalarSet,
}

impl View for InSet {
    type V = Set<ScalarData>;

    closed spec fn view(&self) -> Set<ScalarData> {
        self.set@
    }
}

impl InSet {
    /// Holds the given set.
    pub fn new(set: ScalarSet) -> (r: Self)
        ensures
            r@ == set@,
    {
        Self { set }
    }

    /// The set that is held.
    pub fn get_set(&self) -> (r: &ScalarSet)
        ensures
            r@ == self@,
    {
        &self.set
    }
}

/// What the members of a list evaluate to against a batch: their values in
/// order, or the error of the first member that fails.
pub open spec fn evaluate_all(list: Seq<Arc<dyn PhysicalExpr>>, batch: &RecordBatch) -> Result<
    Seq<ColumnarData>,
    ExprError,
>
    decreases list.len(),
{
    if list.len() == 0 {
        Ok(Seq::empty())
    } else {
        match evaluate_all(list.drop_last(), batch) {
            Err(e) => Err(e),
            Ok(values) => match list.last().evaluate_spec(batch) {
                Err(e) => Err(e),
                Ok(value) => Ok(values.push(value)),
            },
        }
    }
}

/// An error among the first members is the error of the whole list.
pub proof fn lemma_evaluate_all_prefix(
    list: Seq<Arc<dyn PhysicalExpr>>,
    batch: &RecordBatch,
    n: int,
)
    requires
        0 <= n <= list.len(),
        evaluate_all(list.take(n), batch) is Err,
    ensures
        evaluate_all(list, batch) == evaluate_all(list.take(n), batch),
    decreases list.len() - n,
{
    if n < list.len() {
        assert(list.take(n + 1).drop_last() =~= list.take(n));
        lemma_evaluate_all_prefix(list, batch, n + 1);
    } else {
        assert(list.take(n) =~= list);
    }
}

/// Evaluates the members of a list in order and stops at the first that
/// fails.
pub fn evaluate_members(list: &Vec<Arc<dyn PhysicalExpr>>, batch: &RecordBatch) -> (r: Result<
    Vec<ColumnarValue>,
    ExprError,
>)
    ensures
        match r {
            Ok(values) => evaluate_all(list@, batch) == Ok::<_, ExprError>(views(values@)),
            Err(e) => evaluate_all(list@, batch) == Err::<Seq<ColumnarData>, _>(e),
        },
{
    let mut values: Vec<ColumnarValue> = Vec::new();
    let mut i: usize = 0;
    assert(views(values@) =~= Seq::empty());
    while i < list.len()
        invariant
            i <= list.len(),
            evaluate_all(list@.take(i as int), batch) == Ok::<_, ExprError>(views(values@)),
        decreases list.len() - i,
    {
        proof {
            assert(list@.take(i + 1).drop_last() =~= list@.take(i as int));
            assert(list@.take(i + 1).last() == list@[i as int]);
        }
        let ghost before = views(values@);
        match list[i].evaluate(batch) {
            Ok(value) => {
                let ghost v = value@;
                values.push(value);
                assert(views(values@) =~= before.push(v));
            },
            Err(e) => {
                proof {
                    lemma_evaluate_all_prefix(list@, batch, i + 1);
                }
                return Err(e);
            },
        }
        i += 1;
    }
    assert(list@.take(i as int) =~= list@);
    Ok(values)
}

/// The answers as the boolean column that the predicate returns.
pub open spec fn boolean_result(answers: Result<Seq<Option<bool>>, ExprError>) -> Result<
    ColumnarData,
    ExprError,
> {
    match answers {
        Ok(rows) => Ok(
            ColumnarData::Array(ArrayData { data_type: DataType::Boolean, rows: rows_of(rows) }),
        ),
        Err(e) => Err(e),
    }
}

/// What a predicate of the given parts evaluates to against a batch. `set`
/// holds the keys of the set where the set-backed strategy is in use.
///
/// An error of the probe comes first. Its value is taken as a column, a
/// scalar as a column of one row. Against a set the rows are then looked up.
/// Against a list the members are evaluated first, and the error of the first
/// that fails comes before any of the column's type.
pub open spec fn predicate_spec<P: PhysicalExpr + ?Sized>(
    expr: &Arc<P>,
    list: Seq<Arc<dyn PhysicalExpr>>,
    negated: bool,
    set: Option<Set<ScalarData>>,
    batch: &RecordBatch,
) -> Result<ColumnarData, ExprError> {
    match expr.evaluate_spec(batch) {
        Err(e) => Err(e),
        Ok(value) => match set {
            Some(keys) => boolean_result(in_set_spec(value.into_array(1), keys, negated)),
            None => match evaluate_all(list, batch) {
                Err(e) => Err(e),
                Ok(members) => boolean_result(
                    in_list_spec(value.into_array(1), members, negated),
                ),
            },
        },
    }
}

/// The strategy that a predicate over `list` is made with: the keys of the
/// list's constants where the list is longer than the threshold and all of it
/// is constant, and no set otherwise.
pub open spec fn strategy(list: Seq<Arc<dyn PhysicalExpr>>) -> Option<Set<ScalarData>> {
    if list.len() > OPTIMIZER_INSET_THRESHOLD && all_static(list) {
        Some(static_keys(list))
    } else {
        None
    }
}

/// The member at `i` is a constant that is null.
pub open spec fn is_null_constant(list: Seq<Arc<dyn PhysicalExpr>>, i: int) -> bool {
    list[i].kind_spec() matches NodeKind::Literal(v) && v@.value is None
}

/// Why the member at `i` cannot stand in the list of a probe whose values
/// have the type `probe` under `schema`: its own type cannot be told, or is
/// one whose values do not compare with the probe's. A constant that is null
/// can stand in any list, and so can a member of the all-null type.
pub open spec fn declared_offence(
    list: Seq<Arc<dyn PhysicalExpr>>,
    i: int,
    probe: DataType,
    schema: &Schema,
) -> Option<ExprError> {
    if is_null_constant(list, i) {
        None
    } else {
        match list[i].data_type_spec(schema) {
            Err(e) => Some(e),
            Ok(t) => if t == DataType::Null || accepts(probe, t) {
                None
            } else {
                Some(ExprError::UnexpectedType(t))
            },
        }
    }
}

/// The offence of the first of the first `n` members that has one.
pub open spec fn first_declared_offence(
    list: Seq<Arc<dyn PhysicalExpr>>,
    n: int,
    probe: DataType,
    schema: &Schema,
) -> Option<ExprError>
    decreases n,
{
    if n <= 0 {
        None
    } else {
        match first_declared_offence(list, n - 1, probe, schema) {
            Some(e) => Some(e),
            None => declared_offence(list, n - 1, probe, schema),
        }
    }
}

/// An offence among the first members is the offence of any longer part of
/// the list.
pub proof fn lemma_declared_offence_prefix(
    list: Seq<Arc<dyn PhysicalExpr>>,
    n: int,
    m: int,
    probe: DataType,
    schema: &Schema,
)
    requires
        0 <= n <= m,
        first_declared_offence(list, n, probe, schema) is Some,
    ensures
        first_declared_offence(list, m, probe, schema) == first_declared_offence(
            list,
            n,
            probe,
            schema,
        ),
    decreases m - n,
{
    if n < m {
        lemma_declared_offence_prefix(list, n, m - 1, probe, schema);
    }
}

/// Why no predicate of the given probe and candidates can be evaluated under
/// `schema`, as far as the types say that the nodes declare: the probe's type
/// cannot be told or has no comparison, or a member has an offence. A probe
/// of the all-null type goes with any list.
pub open spec fn invalid<P: PhysicalExpr + ?Sized>(
    expr: &Arc<P>,
    list: Seq<Arc<dyn PhysicalExpr>>,
    schema: &Schema,
) -> Option<ExprError> {
    match expr.data_type_spec(schema) {
        Err(e) => Some(e),
        Ok(probe) => if probe == DataType::Null {
            None
        } else if !probe.is_comparable() {
            Some(ExprError::UnsupportedType(probe))
        } else {
            first_declared_offence(list, list.len() as int, probe, schema)
        },
    }
}

/// `IN` / `NOT IN` of a probe against a list of candidates.
///
/// The strategy is chosen when the node is made and stays: a set of the
/// list's constants, or the list itself, evaluated again for each batch.
pub struct InListExpr<P: PhysicalExpr + ?Sized = dyn PhysicalExpr> {
    expr: Arc<P>,
    list: Vec<Arc<dyn PhysicalExpr>>,
    negated: bool,
    set: Option<InSet>,
}

impl<P: PhysicalExpr + ?Sized> InListExpr<P> {
    /// The probe.
    pub closed spec fn expr_spec(&self) -> &Arc<P> {
        &self.expr
    }

    /// The candidates.
    pub closed spec fn list_spec(&self) -> Seq<Arc<dyn PhysicalExpr>> {
        self.list@
    }

    /// Whether this is `NOT IN`.
    pub closed spec fn negated_spec(&self) -> bool {
        self.negated
    }

    /// The keys of the set, where the node holds one.
    pub closed spec fn set_spec(&self) -> Option<Set<ScalarData>> {
        match self.set {
            Some(s) => Some(s@),
            None => None,
        }
    }

    /// The node holds the strategy that its list calls for.
    #[verifier::type_invariant]
    closed spec fn well_formed(&self) -> bool {
        self.set_spec() == strategy(self.list@)
    }

    /// A predicate of the given probe and candidates. A list of more than
    /// `OPTIMIZER_INSET_THRESHOLD` members that are all constants or casts of
    /// constants is turned into a set of their values.
    pub fn new(expr: Arc<P>, list: Vec<Arc<dyn PhysicalExpr>>, negated: bool) -> (r: Self)
        ensures
            *r.expr_spec() == expr,
            r.list_spec() == list@,
            r.negated_spec() == negated,
            r.set_spec() == strategy(list@),
    {
        if list.len() > OPTIMIZER_INSET_THRESHOLD && check_all_static_filter_expr(list.as_slice()) {
            let set = cast_static_filter_to_set(list.as_slice());
            Self { expr, set: Some(InSet::new(set)), list, negated }
        } else {
            Self { expr, list, negated, set: None }
        }
    }

    /// A predicate of the given probe and candidates, made only where the
    /// types that the nodes declare under `schema` go together: else the
    /// reason why they do not.
    pub fn try_new(
        expr: Arc<P>,
        list: Vec<Arc<dyn PhysicalExpr>>,
        negated: bool,
        schema: &Schema,
    ) -> (r: Result<Self, ExprError>)
        ensures
            match invalid(&expr, list@, schema) {
                Some(e) => r == Err::<Self, _>(e),
                None => r matches Ok(node) && *node.expr_spec() == expr && node.list_spec()
                    == list@ && node.negated_spec() == negated && node.set_spec() == strategy(
                    list@,
                ),
            },
    {
        let probe = match expr.data_type(schema) {
            Ok(probe) => probe,
            Err(e) => {
                return Err(e);
            },
        };
        if probe != DataType::Null {
            if !probe.comparable() {
                return Err(ExprError::UnsupportedType(probe));
            }
            let mut i: usize = 0;
            while i < list.len()
                invariant
                    i <= list.len(),
                    expr.data_type_spec(schema) == Ok::<_, ExprError>(probe),
                    probe != DataType::Null,
                    probe.is_comparable(),
                    first_declared_offence(list@, i as int, probe, schema) is None,
                decreases list.len() - i,
            {
                let null_constant = match list[i].kind() {
                    NodeKind::Literal(v) => v.is_null(),
                    _ => false,
                };
                if !null_constant {
                    match list[i].data_type(schema) {
                        Ok(t) => {
                            if t != DataType::Null && !takes(probe, t) {
                                assert(first_declared_offence(list@, i + 1, probe, schema) == Some(
                                    ExprError::UnexpectedType(t),
                                ));
                                proof {
                                    lemma_declared_offence_prefix(
                                        list@,
                                        i + 1,
                                        list@.len() as int,
                                        probe,
                                        schema,
                                    );
                                }
                                return Err(ExprError::UnexpectedType(t));
                            }
                        },
                        Err(e) => {
                            assert(first_declared_offence(list@, i + 1, probe, schema) == Some(e));
                            proof {
                                lemma_declared_offence_prefix(
                                    list@,
                                    i + 1,
                                    list@.len() as int,
                                    probe,
                                    schema,
                                );
                            }
                            return Err(e);
                        },
                    }
                }
                i += 1;
            }
        }
        Ok(Self::new(expr, list, negated))
    }

    /// The probe.
    pub fn expr(&self) -> (r: &Arc<P>)
        ensures
            r == self.expr_spec(),
    {
        &self.expr
    }

    /// The candidates.
    pub fn list(&self) -> (r: &[Arc<dyn PhysicalExpr>])
        ensures
            r@ == self.list_spec(),
    {
        self.list.as_slice()
    }

    /// Whether this is `NOT IN`.
    pub fn negated(&self) -> (r: bool)
        ensures
            r == self.negated_spec(),
    {
        self.negated
    }

    /// The set of the list's constants, where the node holds one: it does
    /// exactly when its list is longer than the threshold and all constant.
    pub fn set(&self) -> (r: Option<&InSet>)
        ensures
            self.set_spec() == strategy(self.list_spec()),
            match r {
                Some(s) => self.set_spec() == Some(s@),
                None => self.set_spec() is None,
            },
    {
        proof {
            use_type_invariant(self);
        }
        match &self.set {
            Some(s) => Some(s),
            None => None,
        }
    }

    /// The text of the predicate, given the texts of its probe and of its
    /// candidates.
    pub open spec fn fmt_spec(&self, expr: Seq<char>, list: Seq<char>) -> Seq<char> {
        if self.negated_spec() {
            if self.set_spec() is Some {
                expr + " NOT IN (SET) ("@ + list + ")"@
            } else {
                expr + " NOT IN ("@ + list + ")"@
            }
        } else if self.set_spec() is Some {
            "Use "@ + expr + " IN (SET) ("@ + list + ")"@
        } else {
            expr + " IN ("@ + list + ")"@
        }
    }

    /// The text of the predicate, given the texts of its probe and of its
    /// candidates. It says whether the predicate is negated and whether it
    /// holds a set.
    pub fn fmt(&self, expr: &str, list: &str) -> (r: String)
        ensures
            r@ == self.fmt_spec(expr@, list@),
    {
        let mut text = String::new();
        if self.negated {
            text.append(expr);
            if self.set.is_some() {
                text.append(" NOT IN (SET) (");
            } else {
                text.append(" NOT IN (");
            }
        } else if self.set.is_some() {
            text.append("Use ");
            text.append(expr);
            text.append(" IN (SET) (");
        } else {
            text.append(expr);
            text.append(" IN (");
        }
        text.append(list);
        text.append(")");
        assert(text@ =~= self.fmt_spec(expr@, list@));
        text
    }
}

impl<P: PhysicalExpr + ?Sized> PhysicalExpr for InListExpr<P> {
    open spec fn evaluate_spec(&self, batch: &RecordBatch) -> Result<ColumnarData, ExprError> {
        predicate_spec(
            self.expr_spec(),
            self.list_spec(),
            self.negated_spec(),
            self.set_spec(),
            batch,
        )
    }

    open spec fn data_type_spec(&self, schema: &Schema) -> Result<DataType, ExprError> {
        Ok(DataType::Boolean)
    }

    open spec fn nullable_spec(&self, schema: &Schema) -> Result<bool, ExprError> {
        self.expr_spec().nullable_spec(schema)
    }

    open spec fn kind_spec(&self) -> NodeKind {
        NodeKind::Other
    }

    fn evaluate(&self, batch: &RecordBatch) -> (r: Result<ColumnarValue, ExprError>) {
        let value = match self.expr.evaluate(batch) {
            Ok(value) => value,
            Err(e) => {
                return Err(e);
            },
        };
        let answers = match &self.set {
            Some(in_set) => {
                let array = value.into_array(1);
                evaluate_set(&*array, in_set.get_set(), self.negated)
            },
            None => {
                let list_values = match evaluate_members(&self.list, batch) {
                    Ok(values) => values,
                    Err(e) => {
                        return Err(e);
                    },
                };
                let array = value.into_array(1);
                evaluate_list(&*array, &list_values, self.negated)
            },
        };
        match answers {
            Ok(rows) => Ok(ColumnarValue::Array(Arc::new(Array::Boolean(rows)))),
            Err(e) => Err(e),
        }
    }

    fn data_type(&self, schema: &Schema) -> (r: Result<DataType, ExprError>) {
        Ok(DataType::Boolean)
    }

    fn nullable(&self, schema: &Schema) -> (r: Result<bool, ExprError>) {
        self.expr.nullable(schema)
    }

    fn kind(&self) -> (r: NodeKind) {
        NodeKind::Other
    }
}

/// A predicate node of the given probe and candidates.
pub fn in_list<P: PhysicalExpr + ?Sized>(
    expr: Arc<P>,
    list: Vec<Arc<dyn PhysicalExpr>>,
    negated: &bool,
) -> (r: Result<Arc<InListExpr<P>>, ExprError>)
    ensures
        r matches Ok(node) && *node.expr_spec() == expr && node.list_spec() == list@
            && node.negated_spec() == *negated && node.set_spec() == strategy(list@),
{
    Ok(Arc::new(InListExpr::new(expr, list, *negated)))
}

} // verus!
