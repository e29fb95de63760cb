use std::sync::Arc;

use in_list::static_list::{cast_static_filter_to_set, check_all_static_filter_expr};
use in_list::{
    col, in_list, lit, Array, ArrayRef, ColumnarValue, DataType, ExprError, Field, InListExpr,
    InSet, NodeKind, PhysicalExpr, RecordBatch, ScalarSet, ScalarValue, Schema, F64,
    OPTIMIZER_INSET_THRESHOLD,
};

/// A type cast whose operand is any node; it hands its operand's value on
/// with one added where the value is a 64-bit integer.
struct AddOneCast {
    operand: Arc<dyn PhysicalExpr>,
}

impl PhysicalExpr for AddOneCast {
    fn evaluate(&self, batch: &RecordBatch) -> Result<ColumnarValue, ExprError> {
        match self.operand.evaluate(batch)? {
            ColumnarValue::Scalar(ScalarValue::Int64(Some(v))) => {
                Ok(ColumnarValue::Scalar(ScalarValue::Int64(Some(v + 1))))
            }
            other => Ok(other),
        }
    }

    fn data_type(&self, schema: &Schema) -> Result<DataType, ExprError> {
        self.operand.data_type(schema)
    }

    fn nullable(&self, schema: &Schema) -> Result<bool, ExprError> {
        self.operand.nullable(schema)
    }

    fn kind(&self) -> NodeKind {
        match self.operand.kind() {
            NodeKind::Literal(v) => NodeKind::Cast(Some(v)),
            _ => NodeKind::Cast(None),
        }
    }
}

fn node<E: PhysicalExpr + 'static>(e: E) -> Arc<dyn PhysicalExpr> {
    Arc::new(e)
}

fn int_literals(values: std::ops::Range<i64>) -> Vec<Arc<dyn PhysicalExpr>> {
    values.map(|v| node(lit(ScalarValue::Int64(Some(v))))).collect()
}

fn int_batch(rows: Vec<Option<i64>>) -> (Arc<dyn PhysicalExpr>, RecordBatch) {
    let schema = Schema::new(vec![Field::new("a", DataType::Int64, true)]);
    let a: ArrayRef = Arc::new(Array::Int64(rows));
    (node(col("a", &schema).unwrap()), RecordBatch::try_new(vec![a]).unwrap())
}

fn answers(expr: &InListExpr, batch: &RecordBatch) -> Vec<Option<bool>> {
    match &*expr.evaluate(batch).unwrap().into_array(batch.num_rows()) {
        Array::Boolean(rows) => rows.clone(),
        other => panic!("expected booleans, got {:?}", other),
    }
}

#[test]
fn threshold_is_thirty() {
    assert_eq!(OPTIMIZER_INSET_THRESHOLD, 30);
}

#[test]
fn a_list_of_thirty_constants_stays_a_list() {
    let (probe, _) = int_batch(vec![]);
    let expr = InListExpr::new(probe, int_literals(0..30), false);
    assert!(expr.set().is_none());
    assert_eq!(expr.list().len(), 30);
}

#[test]
fn a_list_of_thirty_one_constants_becomes_a_set() {
    let (probe, _) = int_batch(vec![]);
    let expr = InListExpr::new(probe, int_literals(0..31), false);
    let set = expr.set().expect("a set");
    assert_eq!(set.get_set().len(), 31);
    assert_eq!(expr.list().len(), 31);
    assert!(set.get_set().contains(&ScalarValue::Int64(Some(30))));
    assert!(!set.get_set().contains(&ScalarValue::Int64(Some(31))));
}

#[test]
fn a_long_list_with_a_column_stays_a_list() {
    let (probe, _) = int_batch(vec![]);
    let mut list = int_literals(0..40);
    list.push(probe.clone());
    let expr = InListExpr::new(probe, list, false);
    assert!(expr.set().is_none());
}

#[test]
fn classifier_takes_constants_and_casts_of_constants() {
    let (probe, _) = int_batch(vec![]);
    let literal = node(lit(ScalarValue::Int64(Some(1))));
    let cast_of_literal = node(AddOneCast { operand: literal.clone() });
    let cast_of_column = node(AddOneCast { operand: probe.clone() });
    let cast_of_cast = node(AddOneCast { operand: cast_of_literal.clone() });

    assert!(check_all_static_filter_expr(&vec![]));
    assert!(check_all_static_filter_expr(&vec![literal.clone()]));
    assert!(check_all_static_filter_expr(&vec![literal.clone(), cast_of_literal.clone()]));
    assert!(!check_all_static_filter_expr(&vec![literal.clone(), probe.clone()]));
    assert!(!check_all_static_filter_expr(&vec![cast_of_column, literal.clone()]));
    assert!(!check_all_static_filter_expr(&vec![literal, cast_of_cast]));
}

#[test]
fn materializer_keeps_the_constant_under_a_cast() {
    let literal = node(lit(ScalarValue::Int64(Some(7))));
    let cast_of_literal = node(AddOneCast { operand: literal });
    let set = cast_static_filter_to_set(&vec![cast_of_literal]);
    assert_eq!(set.len(), 1);
    assert!(set.contains(&ScalarValue::Int64(Some(7))));
    assert!(!set.contains(&ScalarValue::Int64(Some(8))));
}

#[test]
fn materializer_collapses_duplicates() {
    let list = vec![
        node(lit(ScalarValue::Int64(Some(1)))),
        node(lit(ScalarValue::Int64(Some(2)))),
        node(lit(ScalarValue::Int64(Some(1)))),
        node(lit(ScalarValue::Int32(Some(1)))),
        node(lit(ScalarValue::Int64(None))),
        node(lit(ScalarValue::Int64(None))),
    ];
    let set = cast_static_filter_to_set(&list);
    assert_eq!(set.len(), 4);
    assert_eq!(set.members().len(), 4);
    assert!(set.contains(&ScalarValue::Int64(Some(1))));
    assert!(set.contains(&ScalarValue::Int64(Some(2))));
    assert!(set.contains(&ScalarValue::Int32(Some(1))));
    assert!(set.contains(&ScalarValue::Int64(None)));
    assert!(!set.contains(&ScalarValue::Int32(Some(2))));
    assert!(!set.contains(&ScalarValue::Int32(None)));
    assert!(!set.contains(&ScalarValue::UInt64(Some(1))));
}

#[test]
fn in_set_hands_back_the_set_it_was_given() {
    let set = ScalarSet::new()
        .insert(ScalarValue::Utf8(Some("a".to_string())))
        .insert(ScalarValue::Utf8(Some("b".to_string())))
        .insert(ScalarValue::Utf8(Some("a".to_string())));
    let in_set = InSet::new(set);
    assert_eq!(in_set.get_set().len(), 2);
    assert!(in_set.get_set().contains(&ScalarValue::Utf8(Some("b".to_string()))));
    assert!(!in_set.get_set().contains(&ScalarValue::LargeUtf8(Some("b".to_string()))));
}

#[test]
fn crossing_the_threshold_keeps_the_answers() {
    let rows = vec![Some(0), Some(29), Some(30), Some(31), Some(-5), None];
    for negated in [false, true] {
        let (probe, batch) = int_batch(rows.clone());
        // 30 distinct constants and a repeated one: 31 members, evaluated as a set
        let mut long = int_literals(0..30);
        long.push(node(lit(ScalarValue::Int64(Some(0)))));
        let as_set = InListExpr::new(probe.clone(), long, negated);
        assert!(as_set.set().is_some());
        // the same 30 constants, evaluated as a list
        let as_list = InListExpr::new(probe, int_literals(0..30), negated);
        assert!(as_list.set().is_none());

        let expected = vec![
            Some(!negated),
            Some(!negated),
            Some(negated),
            Some(negated),
            Some(negated),
            None,
        ];
        assert_eq!(answers(&as_set, &batch), expected);
        assert_eq!(answers(&as_list, &batch), expected);
    }
}

#[test]
fn round_trip_through_the_set() {
    let values: Vec<i64> = (0..40).map(|v| v * 1_000_003 - 17).collect();
    let list: Vec<Arc<dyn PhysicalExpr>> =
        values.iter().map(|v| node(lit(ScalarValue::Int64(Some(*v))))).collect();
    let (probe, batch) = int_batch(values.iter().map(|v| Some(*v)).collect());

    let expr = InListExpr::new(probe.clone(), list.clone(), false);
    assert!(expr.set().is_some());
    assert_eq!(answers(&expr, &batch), vec![Some(true); 40]);

    let expr = InListExpr::new(probe, list, true);
    assert_eq!(answers(&expr, &batch), vec![Some(false); 40]);
}

#[test]
fn round_trip_through_a_set_of_strings() {
    let values: Vec<String> = (0..35).map(|v| format!("value-{}", v)).collect();
    let list: Vec<Arc<dyn PhysicalExpr>> =
        values.iter().map(|v| node(lit(ScalarValue::LargeUtf8(Some(v.clone()))))).collect();
    let schema = Schema::new(vec![Field::new("s", DataType::LargeUtf8, true)]);
    let rows: Vec<Option<String>> = values.iter().map(|v| Some(v.clone())).collect();
    let a: ArrayRef = Arc::new(Array::LargeUtf8(rows));
    let probe = node(col("s", &schema).unwrap());
    let batch = RecordBatch::try_new(vec![a]).unwrap();

    let expr = InListExpr::new(probe.clone(), list, false);
    assert!(expr.set().is_some());
    assert_eq!(answers(&expr, &batch), vec![Some(true); 35]);

    // constants of the other string encoding are the same strings
    let list: Vec<Arc<dyn PhysicalExpr>> =
        values.iter().map(|v| node(lit(ScalarValue::Utf8(Some(v.clone()))))).collect();
    let expr = InListExpr::new(probe, list, true);
    assert!(expr.set().is_some());
    assert_eq!(answers(&expr, &batch), vec![Some(false); 35]);
}

#[test]
fn a_set_does_not_track_a_null_member() {
    let mut list = int_literals(0..31);
    list.push(node(lit(ScalarValue::Int64(None))));
    let (probe, batch) = int_batch(vec![Some(3), Some(99), None]);

    let expr = InListExpr::new(probe.clone(), list.clone(), false);
    assert!(expr.set().is_some());
    assert_eq!(answers(&expr, &batch), vec![Some(true), Some(false), None]);

    let expr = InListExpr::new(probe, list, true);
    assert_eq!(answers(&expr, &batch), vec![Some(false), Some(true), None]);
}

#[test]
fn a_nan_is_in_no_list_and_in_no_set() {
    let nan = F64::from_bits(f64::NAN.to_bits());
    let other_nan = F64::from_bits(f64::NAN.to_bits() | 1);
    let schema = Schema::new(vec![Field::new("x", DataType::Float64, true)]);
    let probe = node(col("x", &schema).unwrap());
    let a: ArrayRef = Arc::new(Array::Float64(vec![
        Some(nan),
        Some(other_nan),
        Some(F64::from_bits((-0.0f64).to_bits())),
        Some(F64::from_bits(2.5f64.to_bits())),
    ]));
    let batch = RecordBatch::try_new(vec![a]).unwrap();

    let short: Vec<Arc<dyn PhysicalExpr>> = vec![
        node(lit(ScalarValue::Float64(Some(nan)))),
        node(lit(ScalarValue::Float64(Some(F64::from_bits(0.0f64.to_bits()))))),
    ];
    let mut long = short.clone();
    for v in 10..45 {
        long.push(node(lit(ScalarValue::Float64(Some(F64::from_bits((v as f64).to_bits()))))));
    }

    for negated in [false, true] {
        let expected = vec![Some(negated), Some(negated), Some(!negated), Some(negated)];
        let as_list = InListExpr::new(probe.clone(), short.clone(), negated);
        assert!(as_list.set().is_none());
        assert_eq!(answers(&as_list, &batch), expected);

        let as_set = InListExpr::new(probe.clone(), long.clone(), negated);
        assert!(as_set.set().is_some());
        assert_eq!(answers(&as_set, &batch), expected);
    }
}

#[test]
fn in_list_makes_the_node_that_new_makes() {
    let (probe, batch) = int_batch(vec![Some(1), Some(5), None]);
    let expr = in_list(probe.clone(), int_literals(0..3), &true).unwrap();
    assert!(expr.negated());
    assert_eq!(expr.list().len(), 3);
    assert!(expr.set().is_none());
    assert!(Arc::ptr_eq(expr.expr(), &probe));
    assert_eq!(answers(&expr, &batch), vec![Some(false), Some(true), None]);

    let schema = Schema::new(vec![Field::new("a", DataType::Int64, true)]);
    assert!(matches!(expr.data_type(&schema), Ok(DataType::Boolean)));
    assert!(matches!(expr.nullable(&schema), Ok(true)));
    let schema = Schema::new(vec![Field::new("a", DataType::Int64, false)]);
    assert!(matches!(expr.nullable(&schema), Ok(false)));
    assert!(matches!(expr.kind(), NodeKind::Other));
}

#[test]
fn a_cast_in_a_short_list_is_evaluated() {
    let (probe, batch) = int_batch(vec![Some(7), Some(8)]);
    let cast = node(AddOneCast { operand: node(lit(ScalarValue::Int64(Some(7)))) });
    let expr = InListExpr::new(probe, vec![cast], false);
    assert_eq!(answers(&expr, &batch), vec![Some(false), Some(true)]);
}

#[test]
fn a_set_has_the_buckets_it_was_made_with() {
    assert_eq!(ScalarSet::new().num_buckets(), 16);
    assert_eq!(ScalarSet::with_capacity(0).num_buckets(), 1);
    assert_eq!(ScalarSet::with_capacity(1).num_buckets(), 1);
    assert_eq!(ScalarSet::with_capacity(31).num_buckets(), 31);
    let mut set = ScalarSet::with_capacity(3);
    assert_eq!(set.len(), 0);
    for v in 0..20 {
        set = set.insert(ScalarValue::Int64(Some(v)));
    }
    assert_eq!(set.num_buckets(), 3);
    assert_eq!(set.len(), 20);
    for v in 0..20 {
        assert!(set.contains(&ScalarValue::Int64(Some(v))));
    }
    assert!(!set.contains(&ScalarValue::Int64(Some(20))));
}
