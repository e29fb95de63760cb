//! Expression nodes: what the predicate asks of its probe and of the members
//! of its list, and the two nodes that every plan has.

use vstd::prelude::*;
use crate::columnar::{ColumnarData, ColumnarValue, RecordBatch, Schema};
use crate::datatypes::DataType;
use crate::error::ExprError;
use crate::scalar::ScalarValue;

verus! {

/// The shape of a node, as far as the predicate tells shapes apart.
#[derive(Clone, Debug)]
pub enum NodeKind {
    /// A constant, with its value.
    Literal(ScalarValue),
    /// A type cast, with the value of its operand where the operand is a
    /// constant.
    Cast(Option<ScalarValue>),
    /// Any other node.
    Other,
}

impl NodeKind {
    /// The constant behind a node that is known before any batch is seen: a
    /// constant's value, or the value under a cast of a constant.
    pub open spec fn static_value(self) -> Option<ScalarValue> {
        match self {
            NodeKind::Literal(v) => Some(v),
            NodeKind::Cast(Some(v)) => Some(v),
            _ => None,
        }
    }
}

/// What evaluating a node returned: its value, or its error.
pub open spec fn evaluated(r: Result<ColumnarValue, ExprError>) -> Result<ColumnarData, ExprError> {
    match r {
        Ok(value) => Ok(value@),
        Err(e) => Err(e),
    }
}

/// A node of an expression tree that can be evaluated against a batch. A
/// node does not change once it is made, and can be shared between threads.
///
/// The four functions that say what a node is have a value that nothing is
/// known of until a node states its own; a node written where nothing is
/// proved leaves them as they are.
pub trait PhysicalExpr: Send + Sync {
    /// What the node evaluates to against `batch`.
    open spec fn evaluate_spec(&self, batch: &RecordBatch) -> Result<ColumnarData, ExprError> {
        arbitrary()
    }

    /// The type of the node's values under `schema`.
    open spec fn data_type_spec(&self, schema: &Schema) -> Result<DataType, ExprError> {
        arbitrary()
    }

    /// Whether the node can be null under `schema`.
    open spec fn nullable_spec(&self, schema: &Schema) -> Result<bool, ExprError> {
        arbitrary()
    }

    /// The node's shape.
    open spec fn kind_spec(&self) -> NodeKind {
        arbitrary()
    }

    /// Evaluates the node against `batch`.
    fn evaluate(&self, batch: &RecordBatch) -> (r: Result<ColumnarValue, ExprError>)
        ensures
            evaluated(r) == self.evaluate_spec(batch),
    ;

    /// The type of the node's values under `schema`.
    fn data_type(&self, schema: &Schema) -> (r: Result<DataType, ExprError>)
        ensures
            r == self.data_type_spec(schema),
    ;

    /// Whether the node can be null under `schema`.
    fn nullable(&self, schema: &Schema) -> (r: Result<bool, ExprError>)
        ensures
            r == self.nullable_spec(schema),
    ;

    /// The node's shape.
    fn kind(&self) -> (r: NodeKind)
        ensures
            r == self.kind_spec(),
    ;
}

/// A reference to the column of a batch at a fixed index.
#[derive(Clone, Debug)]
pub struct Column {
    pub name: String,
    pub index: usize,
}

impl Column {
    /// The column of the given name at the given index.
    pub fn new(name: &str, index: usize) -> (r: Column)
        ensures
            r.name@ == name@,
            r.index == index,
    {
        Column { name: name.to_owned(), index }
    }
}

impl PhysicalExpr for Column {
    open spec fn evaluate_spec(&self, batch: &RecordBatch) -> Result<ColumnarData, ExprError> {
        if self.index < batch.columns_spec().len() {
            Ok(ColumnarData::Array(batch.columns_spec()[self.index as int]@))
        } else {
            Err(ExprError::ColumnOutOfBounds(self.index))
        }
    }

    open spec fn data_type_spec(&self, schema: &Schema) -> Result<DataType, ExprError> {
        if self.index < schema.fields.len() {
            Ok(schema.fields[self.index as int].data_type)
        } else {
            Err(ExprError::FieldOutOfBounds(self.index))
        }
    }

    open spec fn nullable_spec(&self, schema: &Schema) -> Result<bool, ExprError> {
        if self.index < schema.fields.len() {
            Ok(schema.fields[self.index as int].nullable)
        } else {
            Err(ExprError::FieldOutOfBounds(self.index))
        }
    }

    open spec fn kind_spec(&self) -> NodeKind {
        NodeKind::Other
    }

    fn evaluate(&self, batch: &RecordBatch) -> (r: Result<ColumnarValue, ExprError>) {
        if self.index < batch.num_columns() {
            Ok(ColumnarValue::Array(batch.column(self.index).clone()))
        } else {
            Err(ExprError::ColumnOutOfBounds(self.index))
        }
    }

    fn data_type(&self, schema: &Schema) -> (r: Result<DataType, ExprError>) {
        if self.index < schema.fields.len() {
            Ok(schema.fields[self.index].data_type)
        } else {
            Err(ExprError::FieldOutOfBounds(self.index))
        }
    }

    fn nullable(&self, schema: &Schema) -> (r: Result<bool, ExprError>) {
        if self.index < schema.fields.len() {
            Ok(schema.fields[self.index].nullable)
        } else {
            Err(ExprError::FieldOutOfBounds(self.index))
        }
    }

    fn kind(&self) -> (r: NodeKind) {
        NodeKind::Other
    }
}

/// A constant.
#[derive(Clone, Debug)]
pub struct Literal {
    pub value: ScalarValue,
}

impl Literal {
    /// The constant of the given value.
    pub fn new(value: ScalarValue) -> (r: Literal)
        ensures
            r.value == value,
    {
        Literal { value }
    }

    /// The constant's value.
    pub fn value(&self) -> (r: &ScalarValue)
        ensures
            *r == self.value,
    {
        &self.value
    }
}

impl PhysicalExpr for Literal {
    open spec fn evaluate_spec(&self, batch: &RecordBatch) -> Result<ColumnarData, ExprError> {
        Ok(ColumnarData::Scalar(self.value@))
    }

    open spec fn data_type_spec(&self, schema: &Schema) -> Result<DataType, ExprError> {
        Ok(self.value@.data_type)
    }

    open spec fn nullable_spec(&self, schema: &Schema) -> Result<bool, ExprError> {
        Ok(self.value@.value is None)
    }

    open spec fn kind_spec(&self) -> NodeKind {
        NodeKind::Literal(self.value)
    }

    fn evaluate(&self, batch: &RecordBatch) -> (r: Result<ColumnarValue, ExprError>) {
        Ok(ColumnarValue::Scalar(self.value.duplicate()))
    }

    fn data_type(&self, schema: &Schema) -> (r: Result<DataType, ExprError>) {
        Ok(self.value.get_datatype())
    }

    fn nullable(&self, schema: &Schema) -> (r: Result<bool, ExprError>) {
        Ok(self.value.is_null())
    }

    fn kind(&self) -> (r: NodeKind) {
        NodeKind::Literal(self.value.duplicate())
    }
}

/// A reference to the first column of `schema` that has the given name.
pub fn col(name: &str, schema: &Schema) -> (r: Result<Column, ExprError>)
    ensures
        match r {
            Ok(column) => column.name@ == name@ && column.index < schema.fields.len()
                && schema.fields[column.index as int].name@ == name@ && forall|j: int|
                0 <= j < column.index ==> schema.fields[j].name@ != name@,
            Err(e) => e == ExprError::FieldNotFound && forall|j: int|
                0 <= j < schema.fields.len() ==> schema.fields[j].name@ != name@,
        },
{
    match schema.index_of(name) {
        Ok(index) => Ok(Column::new(name, index)),
        Err(e) => Err(e),
    }
}

/// A constant of the given value.
pub fn lit(value: ScalarValue) -> (r: Literal)
    ensures
        r.value == value,
{
    Literal::new(value)
}

} // verus!
