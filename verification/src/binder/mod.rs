pub mod binder;
pub mod error;
pub mod expression;
pub mod sql;
pub mod statement;
pub mod table_ref;

pub use expression::{
    BoundAggCall, BoundAlias, BoundBinaryOp, BoundBinaryOperator, BoundColumnRef, BoundConstant,
    BoundExpression, BoundFuncCall, BoundOrderBy, BoundUnaryOp, BoundWindow, OrderByType,
    WindowBoundary,
};
pub use statement::{
    BoundStatement, CreateStatement, DeleteStatement, ExplainOptions, ExplainStatement,
    IndexStatement, InsertStatement, SelectStatement, TransactionStatement,
    TransactionStatementType, UpdateStatement, VariableSetStatement, VariableShowStatement,
};
pub use table_ref::{
    BaseTableRef, CTERef, CrossProductRef, ExpressionListRef, JoinRef, JoinType, SubqueryRef,
    TableRef,
};
pub use error::BindError;
pub use binder::Binder;
