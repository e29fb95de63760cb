//! Vectorised evaluation of SQL `IN` / `NOT IN` over columnar batches.
//!
//! A predicate node holds a probe expression, a candidate list and a negation
//! flag. Evaluated against a batch it yields one three-valued result per row.
//! Long lists of constants are materialised once into a set of distinct
//! values; every other list is evaluated again for each batch.
//!
//! The data: [`datatypes`], [`native`], [`scalar`], [`array`], [`columnar`].
//! The nodes: [`expressions`], and the predicate itself in [`predicate`].
//! The work: [`static_list`] tells lists of constants apart and turns them
//! into a [`scalar_set`]; [`kernels`] compares one column, whatever its
//! element type ([`primitive`]); [`router`] finds the evaluator for a column.
//! What holds of all of it is stated and proved in [`theorems`].

pub mod array;
pub mod columnar;
pub mod datatypes;
pub mod error;
pub mod expressions;
pub mod kernels;
pub mod native;
pub mod predicate;
pub mod primitive;
pub mod router;
pub mod scalar;
pub mod scalar_set;
pub mod static_list;
pub mod theorems;

pub use array::{Array, ArrayRef};
pub use columnar::{ColumnarValue, Field, RecordBatch, Schema};
pub use datatypes::DataType;
pub use error::ExprError;
pub use expressions::{col, lit, Column, Literal, NodeKind, PhysicalExpr};
pub use native::{F32, F64};
pub use predicate::{in_list, InListExpr, InSet, OPTIMIZER_INSET_THRESHOLD};
pub use scalar::ScalarValue;
pub use scalar_set::ScalarSet;
