use std::sync::Arc;

use in_list::{
    col, in_list, lit, Array, ArrayRef, DataType, ExprError, Field, PhysicalExpr, RecordBatch,
    ScalarValue, Schema, F64,
};

fn apply(
    batch: &RecordBatch,
    list: Vec<Arc<dyn PhysicalExpr>>,
    negated: &bool,
    expected: Vec<Option<bool>>,
    col: Arc<dyn PhysicalExpr>,
) -> Result<(), ExprError> {
    let expr = in_list(col, list, negated).unwrap();
    let result = expr.evaluate(batch)?.into_array(batch.num_rows());
    match &*result {
        Array::Boolean(rows) => assert_eq!(&expected, rows),
        _ => panic!("failed to downcast to BooleanArray"),
    }
    Ok(())
}

fn node<E: PhysicalExpr + 'static>(e: E) -> Arc<dyn PhysicalExpr> {
    Arc::new(e)
}

fn f64_value(v: f64) -> F64 {
    F64::from_bits(v.to_bits())
}

#[test]
fn in_list_utf8() -> Result<(), ExprError> {
    let schema = Schema::new(vec![Field::new("a", DataType::Utf8, true)]);
    let a: ArrayRef = Arc::new(Array::Utf8(vec![
        Some("a".to_string()),
        Some("d".to_string()),
        None,
    ]));
    let col_a = node(col("a", &schema)?);
    let batch = RecordBatch::try_new(vec![a])?;

    // expression: "a in ("a", "b")"
    let list = vec![
        node(lit(ScalarValue::Utf8(Some("a".to_string())))),
        node(lit(ScalarValue::Utf8(Some("b".to_string())))),
    ];
    apply(&batch, list, &false, vec![Some(true), Some(false), None], col_a.clone())?;

    // expression: "a not in ("a", "b")"
    let list = vec![
        node(lit(ScalarValue::Utf8(Some("a".to_string())))),
        node(lit(ScalarValue::Utf8(Some("b".to_string())))),
    ];
    apply(&batch, list, &true, vec![Some(false), Some(true), None], col_a.clone())?;

    // expression: "a in ("a", "b", NULL)"
    let list = vec![
        node(lit(ScalarValue::Utf8(Some("a".to_string())))),
        node(lit(ScalarValue::Utf8(Some("b".to_string())))),
        node(lit(ScalarValue::Utf8(None))),
    ];
    apply(&batch, list, &false, vec![Some(true), None, None], col_a.clone())?;

    // expression: "a not in ("a", "b", NULL)"
    let list = vec![
        node(lit(ScalarValue::Utf8(Some("a".to_string())))),
        node(lit(ScalarValue::Utf8(Some("b".to_string())))),
        node(lit(ScalarValue::Utf8(None))),
    ];
    apply(&batch, list, &true, vec![Some(false), None, None], col_a.clone())?;

    Ok(())
}

#[test]
fn in_list_int64() -> Result<(), ExprError> {
    let schema = Schema::new(vec![Field::new("a", DataType::Int64, true)]);
    let a: ArrayRef = Arc::new(Array::Int64(vec![Some(0), Some(2), None]));
    let col_a = node(col("a", &schema)?);
    let batch = RecordBatch::try_new(vec![a])?;

    // expression: "a in (0, 1)"
    let list = vec![
        node(lit(ScalarValue::Int64(Some(0)))),
        node(lit(ScalarValue::Int64(Some(1)))),
    ];
    apply(&batch, list, &false, vec![Some(true), Some(false), None], col_a.clone())?;

    // expression: "a not in (0, 1)"
    let list = vec![
        node(lit(ScalarValue::Int64(Some(0)))),
        node(lit(ScalarValue::Int64(Some(1)))),
    ];
    apply(&batch, list, &true, vec![Some(false), Some(true), None], col_a.clone())?;

    // expression: "a in (0, 1, NULL)"
    let list = vec![
        node(lit(ScalarValue::Int64(Some(0)))),
        node(lit(ScalarValue::Int64(Some(1)))),
        node(lit(ScalarValue::Utf8(None))),
    ];
    apply(&batch, list, &false, vec![Some(true), None, None], col_a.clone())?;

    // expression: "a not in (0, 1, NULL)"
    let list = vec![
        node(lit(ScalarValue::Int64(Some(0)))),
        node(lit(ScalarValue::Int64(Some(1)))),
        node(lit(ScalarValue::Utf8(None))),
    ];
    apply(&batch, list, &true, vec![Some(false), None, None], col_a.clone())?;

    Ok(())
}

#[test]
fn in_list_float64() -> Result<(), ExprError> {
    let schema = Schema::new(vec![Field::new("a", DataType::Float64, true)]);
    let a: ArrayRef = Arc::new(Array::Float64(vec![
        Some(f64_value(0.0)),
        Some(f64_value(0.2)),
        None,
    ]));
    let col_a = node(col("a", &schema)?);
    let batch = RecordBatch::try_new(vec![a])?;

    // expression: "a in (0.0, 0.1)"
    let list = vec![
        node(lit(ScalarValue::Float64(Some(f64_value(0.0))))),
        node(lit(ScalarValue::Float64(Some(f64_value(0.1))))),
    ];
    apply(&batch, list, &false, vec![Some(true), Some(false), None], col_a.clone())?;

    // expression: "a not in (0.0, 0.1)"
    let list = vec![
        node(lit(ScalarValue::Float64(Some(f64_value(0.0))))),
        node(lit(ScalarValue::Float64(Some(f64_value(0.1))))),
    ];
    apply(&batch, list, &true, vec![Some(false), Some(true), None], col_a.clone())?;

    // expression: "a in (0.0, 0.1, NULL)"
    let list = vec![
        node(lit(ScalarValue::Float64(Some(f64_value(0.0))))),
        node(lit(ScalarValue::Float64(Some(f64_value(0.1))))),
        node(lit(ScalarValue::Utf8(None))),
    ];
    apply(&batch, list, &false, vec![Some(true), None, None], col_a.clone())?;

    // expression: "a not in (0.0, 0.1, NULL)"
    let list = vec![
        node(lit(ScalarValue::Float64(Some(f64_value(0.0))))),
        node(lit(ScalarValue::Float64(Some(f64_value(0.1))))),
        node(lit(ScalarValue::Utf8(None))),
    ];
    apply(&batch, list, &true, vec![Some(false), None, None], col_a.clone())?;

    Ok(())
}

#[test]
fn in_list_bool() -> Result<(), ExprError> {
    let schema = Schema::new(vec![Field::new("a", DataType::Boolean, true)]);
    let a: ArrayRef = Arc::new(Array::Boolean(vec![Some(true), None]));
    let col_a = node(col("a", &schema)?);
    let batch = RecordBatch::try_new(vec![a])?;

    // expression: "a in (true)"
    let list = vec![node(lit(ScalarValue::Boolean(Some(true))))];
    apply(&batch, list, &false, vec![Some(true), None], col_a.clone())?;

    // expression: "a not in (true)"
    let list = vec![node(lit(ScalarValue::Boolean(Some(true))))];
    apply(&batch, list, &true, vec![Some(false), None], col_a.clone())?;

    // expression: "a in (true, NULL)"
    let list = vec![
        node(lit(ScalarValue::Boolean(Some(true)))),
        node(lit(ScalarValue::Utf8(None))),
    ];
    apply(&batch, list, &false, vec![Some(true), None], col_a.clone())?;

    // expression: "a not in (true, NULL)"
    let list = vec![
        node(lit(ScalarValue::Boolean(Some(true)))),
        node(lit(ScalarValue::Utf8(None))),
    ];
    apply(&batch, list, &true, vec![Some(false), None], col_a.clone())?;

    Ok(())
}
