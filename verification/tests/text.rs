use std::sync::Arc;

use in_list::scalar_set::hash;
use in_list::{
    lit, Array, ColumnarValue, DataType, ExprError, InListExpr, Literal, PhysicalExpr, ScalarValue,
    F32, F64,
};

fn node(value: ScalarValue) -> Arc<dyn PhysicalExpr> {
    Arc::new(lit(value))
}

fn predicate(members: i64, negated: bool) -> InListExpr<Literal> {
    let list = (0..members).map(|v| node(ScalarValue::Int64(Some(v)))).collect();
    InListExpr::new(Arc::new(lit(ScalarValue::Int64(Some(1)))), list, negated)
}

#[test]
fn the_text_of_a_predicate_names_its_strategy() {
    assert_eq!(predicate(2, false).fmt("a@0", "[1, 2]"), "a@0 IN ([1, 2])");
    assert_eq!(predicate(2, true).fmt("a@0", "[1, 2]"), "a@0 NOT IN ([1, 2])");
    assert_eq!(predicate(31, false).fmt("a@0", "[..]"), "Use a@0 IN (SET) ([..])");
    assert_eq!(predicate(31, true).fmt("a@0", "[..]"), "a@0 NOT IN (SET) ([..])");
    assert_eq!(predicate(0, false).fmt("", ""), " IN ()");
}

#[test]
fn each_error_has_its_message() {
    assert_eq!(
        ExprError::UnsupportedType(DataType::Date32).message(),
        "InList does not support datatype Date32."
    );
    assert_eq!(
        ExprError::NestedColumn.message(),
        "InList does not yet support nested columns."
    );
    assert_eq!(
        ExprError::UnexpectedType(DataType::LargeUtf8).message(),
        "Unexpected type LargeUtf8 for InList"
    );
    assert_eq!(
        ExprError::ColumnOutOfBounds(3).message(),
        "The batch has no column at the index asked for."
    );
    assert_eq!(
        ExprError::FieldOutOfBounds(3).message(),
        "The schema has no field at the index asked for."
    );
    assert_eq!(
        ExprError::FieldNotFound.message(),
        "The schema has no field of the name asked for."
    );
    assert_eq!(
        ExprError::UnequalColumns.message(),
        "The columns of a batch must have equal lengths."
    );
    assert_eq!(ExprError::External("as it came".to_string()).message(), "as it came");
}

#[test]
fn each_type_has_its_name() {
    let names = [
        (DataType::Null, "Null", false),
        (DataType::Boolean, "Boolean", true),
        (DataType::Int8, "Int8", true),
        (DataType::Int16, "Int16", true),
        (DataType::Int32, "Int32", true),
        (DataType::Int64, "Int64", true),
        (DataType::UInt8, "UInt8", true),
        (DataType::UInt16, "UInt16", true),
        (DataType::UInt32, "UInt32", true),
        (DataType::UInt64, "UInt64", true),
        (DataType::Float32, "Float32", true),
        (DataType::Float64, "Float64", true),
        (DataType::Utf8, "Utf8", true),
        (DataType::LargeUtf8, "LargeUtf8", true),
        (DataType::Date32, "Date32", false),
        (DataType::Date64, "Date64", false),
    ];
    for (data_type, name, comparable) in names {
        assert_eq!(data_type.name(), name);
        assert_eq!(data_type.comparable(), comparable);
    }
}

#[test]
fn scalars_know_their_type_and_whether_they_are_null() {
    let scalars = [
        (ScalarValue::Null, DataType::Null, true),
        (ScalarValue::Boolean(Some(false)), DataType::Boolean, false),
        (ScalarValue::Boolean(None), DataType::Boolean, true),
        (ScalarValue::Float32(Some(F32::from_bits(0))), DataType::Float32, false),
        (ScalarValue::Float64(None), DataType::Float64, true),
        (ScalarValue::Int8(Some(0)), DataType::Int8, false),
        (ScalarValue::Int16(None), DataType::Int16, true),
        (ScalarValue::Int32(Some(0)), DataType::Int32, false),
        (ScalarValue::Int64(None), DataType::Int64, true),
        (ScalarValue::UInt8(Some(0)), DataType::UInt8, false),
        (ScalarValue::UInt16(None), DataType::UInt16, true),
        (ScalarValue::UInt32(Some(0)), DataType::UInt32, false),
        (ScalarValue::UInt64(None), DataType::UInt64, true),
        (ScalarValue::Utf8(Some(String::new())), DataType::Utf8, false),
        (ScalarValue::LargeUtf8(None), DataType::LargeUtf8, true),
        (ScalarValue::Date32(Some(0)), DataType::Date32, false),
        (ScalarValue::Date64(None), DataType::Date64, true),
    ];
    for (scalar, data_type, null) in scalars {
        assert_eq!(scalar.get_datatype(), data_type);
        assert_eq!(scalar.is_null(), null);
        assert!(scalar.same_key(&scalar.duplicate()));
        assert_eq!(ColumnarValue::Scalar(scalar.duplicate()).data_type(), data_type);
        let array = scalar.to_array_of_size(3);
        assert_eq!(array.data_type(), data_type);
        assert_eq!(array.len(), 3);
        for row in 0..3 {
            assert_eq!(array.is_null(row), null);
        }
        assert_eq!(scalar.to_array().len(), 1);
    }
}

#[test]
fn a_scalar_fills_a_column_with_itself() {
    match ScalarValue::Utf8(Some("x".to_string())).to_array_of_size(2) {
        Array::Utf8(rows) => assert_eq!(rows, vec![Some("x".to_string()), Some("x".to_string())]),
        other => panic!("expected strings, got {:?}", other),
    }
    match ScalarValue::Int16(Some(-3)).to_array() {
        Array::Int16(rows) => assert_eq!(rows, vec![Some(-3)]),
        other => panic!("expected integers, got {:?}", other),
    }
    match ScalarValue::Float64(Some(F64::from_bits(7))).to_array_of_size(1) {
        Array::Float64(rows) => assert_eq!(rows[0].unwrap().to_bits(), 7),
        other => panic!("expected numbers, got {:?}", other),
    }
    assert!(matches!(ScalarValue::Null.to_array_of_size(5), Array::Null(5)));
    assert!(matches!(ScalarValue::Boolean(None).to_array_of_size(0), Array::Boolean(rows) if rows.is_empty()));
}

#[test]
fn the_hash_of_a_key_is_the_stated_one() {
    assert_eq!(hash(&ScalarValue::Null), 0);
    assert_eq!(hash(&ScalarValue::Int32(None)), 0);
    assert_eq!(hash(&ScalarValue::Boolean(Some(true))), 1);
    assert_eq!(hash(&ScalarValue::Boolean(Some(false))), 0);
    assert_eq!(hash(&ScalarValue::UInt64(Some(u64::MAX))), u64::MAX);
    assert_eq!(hash(&ScalarValue::UInt8(Some(200))), 200);
    assert_eq!(hash(&ScalarValue::Int64(Some(-1))), u64::MAX);
    assert_eq!(hash(&ScalarValue::Int8(Some(-128))), u64::MAX - 127);
    assert_eq!(hash(&ScalarValue::Int16(Some(5))), 5);
    assert_eq!(hash(&ScalarValue::Date64(Some(i64::MIN))), 1u64 << 63);
    assert_eq!(hash(&ScalarValue::Utf8(Some(String::new()))), 0);
    assert_eq!(hash(&ScalarValue::Utf8(Some("a".to_string()))), 97);
    assert_eq!(hash(&ScalarValue::LargeUtf8(Some("ab".to_string()))), 3138);
    assert_eq!(hash(&ScalarValue::Utf8(None)), 0);
    // every NaN hashes as the canonical one, and the two zeros as zero
    let nan = f64::NAN.to_bits();
    assert_eq!(hash(&ScalarValue::Float64(Some(F64::from_bits(nan | 5)))), 0x7ff8_0000_0000_0000);
    assert_eq!(hash(&ScalarValue::Float64(Some(F64::from_bits((-0.0f64).to_bits())))), 0);
    assert_eq!(hash(&ScalarValue::Float64(Some(F64::from_bits(1.0f64.to_bits())))), 1.0f64.to_bits());
    assert_eq!(hash(&ScalarValue::Float32(Some(F32::from_bits(f32::NAN.to_bits() | 9)))), 0x7fc0_0000);
    assert_eq!(hash(&ScalarValue::Float32(Some(F32::from_bits((-0.0f32).to_bits())))), 0);
    assert_eq!(
        hash(&ScalarValue::Float32(Some(F32::from_bits(1.0f32.to_bits())))),
        1.0f32.to_bits() as u64
    );
}
