//! What can go wrong when an expression is built or evaluated.

use vstd::prelude::*;
use vstd::string::StringExecFns;
use crate::datatypes::DataType;

verus! {

/// Why an expression could not be built or evaluated.
#[derive(Clone, Debug)]
pub enum ExprError {
    /// `IN` / `NOT IN` is not offered for probes of this type.
    UnsupportedType(DataType),
    /// A member of the candidate list evaluated to a column.
    NestedColumn,
    /// A member of the candidate list is not null and of a type that does not
    /// compare with the probe's. Holds the member's type.
    UnexpectedType(DataType),
    /// The batch has no column at this index.
    ColumnOutOfBounds(usize),
    /// The schema has no field at this index.
    FieldOutOfBounds(usize),
    /// The schema has no field of the name asked for.
    FieldNotFound,
    /// The columns handed to a batch differ in length.
    UnequalColumns,
    /// A node supplied from outside failed; the text is the node's own.
    External(String),
}

impl ExprError {
    /// The text of the message.
    pub open spec fn message_spec(&self) -> Seq<char> {
        match *self {
            ExprError::UnsupportedType(t) => "InList does not support datatype "@ + t.name_spec()
                + "."@,
            ExprError::NestedColumn => "InList does not yet support nested columns."@,
            ExprError::UnexpectedType(t) => "Unexpected type "@ + t.name_spec() + " for InList"@,
            ExprError::ColumnOutOfBounds(_) => "The batch has no column at the index asked for."@,
            ExprError::FieldOutOfBounds(_) => "The schema has no field at the index asked for."@,
            ExprError::FieldNotFound => "The schema has no field of the name asked for."@,
            ExprError::UnequalColumns => "The columns of a batch must have equal lengths."@,
            ExprError::External(s) => s@,
        }
    }

    /// A message for the user that names the type or shape at fault.
    pub fn message(&self) -> (r: String)
        ensures
            r@ == self.message_spec(),
    {
        match self {
            ExprError::UnsupportedType(t) => {
                let mut text = String::from_str("InList does not support datatype ");
                text.append(t.name());
                text.append(".");
                text
            },
            ExprError::NestedColumn => String::from_str(
                "InList does not yet support nested columns.",
            ),
            ExprError::UnexpectedType(t) => {
                let mut text = String::from_str("Unexpected type ");
                text.append(t.name());
                text.append(" for InList");
                text
            },
            ExprError::ColumnOutOfBounds(_) => String::from_str(
                "The batch has no column at the index asked for.",
            ),
            ExprError::FieldOutOfBounds(_) => String::from_str(
                "The schema has no field at the index asked for.",
            ),
            ExprError::FieldNotFound => String::from_str(
                "The schema has no field of the name asked for.",
            ),
            ExprError::UnequalColumns => String::from_str(
                "The columns of a batch must have equal lengths.",
            ),
            ExprError::External(s) => s.clone(),
        }
    }
}

} // verus!
