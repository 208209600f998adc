use vstd::prelude::*;

use crate::common::text::{debug_str, str_debug};

verus! {

/// Errors that can occur during the binding process.
#[derive(Debug)]
pub enum BindError {
    UnsupportedStatement(String),
    /// Unsupported SQL data type encountered.
    UnsupportedDataType(String),
    /// Unsupported table name component encountered.
    UnsupportedTableName(String),
    /// The specified table was not found in the catalog.
    TableNotFound(String),
    /// The specified column was not found in the current scope.
    ColumnNotFound(String),
    /// The specified column reference is ambiguous.
    AmbiguousColumnName(String),
    /// A feature that is not yet implemented.
    NotImplemented(String),
    /// A generic binding exception.
    Exception(String),
    /// An unsupported expression type.
    UnsupportedExpr(String),
    UnsupportedTableFactor(String),
    UnsupportObjectName(String),
    UnsupportedJoinType(String),
    UnsupportedJoinConstraint(String),
    UnsupportedBinaryOperator(String),
    UnsupportedTableRef(String),
    EmptyTableRef,
    UnsupportedYetSQL(String),
    Message(String),
}

/// Whether a binding error has a display form: the variants that
/// reach the user with a message of their own.
pub open spec fn is_displayable(e: BindError) -> bool {
    match e {
        BindError::UnsupportedDataType(_) | BindError::UnsupportedTableName(_) | BindError::TableNotFound(_)
        | BindError::ColumnNotFound(_) | BindError::AmbiguousColumnName(_) | BindError::NotImplemented(_)
        | BindError::Exception(_) | BindError::UnsupportedExpr(_) => true,
        _ => false,
    }
}

/// The display form of a binding error that has one.
pub open spec fn display_text(e: BindError) -> Seq<char> {
    match e {
        BindError::UnsupportedDataType(m) => "Unsupported data type: "@ + str_debug(m@),
        BindError::UnsupportedTableName(m) => "Unsupported table name: "@ + str_debug(m@),
        BindError::TableNotFound(m) => "Table not found: "@ + m@,
        BindError::ColumnNotFound(m) => "Column not found: "@ + m@,
        BindError::AmbiguousColumnName(m) => "Ambiguous column: "@ + m@,
        BindError::NotImplemented(m) => "Not implemented: "@ + m@,
        BindError::Exception(m) => m@,
        BindError::UnsupportedExpr(m) => "Unsupported expression: "@ + m@,
        _ => Seq::empty(),
    }
}

impl BindError {
    /// The display form of this error.
    pub fn to_string(&self) -> (r: String)
        requires
            is_displayable(*self),
        ensures
            r@ == display_text(*self),
    {
        match self {
            BindError::UnsupportedDataType(m) => {
                let d = debug_str(m.as_str());
                String::from_str("Unsupported data type: ").concat(d.as_str())
            },
            BindError::UnsupportedTableName(m) => {
                let d = debug_str(m.as_str());
                String::from_str("Unsupported table name: ").concat(d.as_str())
            },
            BindError::TableNotFound(m) => String::from_str("Table not found: ").concat(m.as_str()),
            BindError::ColumnNotFound(m) => String::from_str("Column not found: ").concat(m.as_str()),
            BindError::AmbiguousColumnName(m) => String::from_str("Ambiguous column: ").concat(m.as_str()),
            BindError::NotImplemented(m) => String::from_str("Not implemented: ").concat(m.as_str()),
            BindError::Exception(m) => m.clone(),
            BindError::UnsupportedExpr(m) => String::from_str("Unsupported expression: ").concat(m.as_str()),
            _ => {
                proof {
                    assert(false);
                }
                String::new()
            },
        }
    }
}

} // verus!
