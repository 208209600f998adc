use vstd::prelude::*;

verus! {

/// A part of a dotted object name: an identifier, or something else shown as text.
pub enum SqlObjectNamePart {
    Identifier(String),
    Other(String),
}

/// A dotted object name, with its debug text for error messages.
pub struct SqlObjectName {
    pub parts: Vec<SqlObjectNamePart>,
    pub debug: String,
}

/// The SQL data types that a column definition names.
pub enum SqlDataType {
    Bool,
    Boolean,
    TinyInt,
    TinyIntUnsigned,
    UTinyInt,
    SmallInt,
    SmallIntUnsigned,
    USmallInt,
    Int2,
    Int2Unsigned,
    Int,
    Integer,
    Int4,
    IntUnsigned,
    Int4Unsigned,
    IntegerUnsigned,
    Int32,
    Signed,
    SignedInteger,
    BigInt,
    BigIntUnsigned,
    UBigInt,
    Int8,
    Int8Unsigned,
    Int64,
    Decimal,
    Dec,
    Numeric,
    Float,
    Float4,
    Float8,
    Float32,
    Float64,
    Real,
    Double,
    DoublePrecision,
    /// A character type with its length when it is given as a number.
    Varchar(Option<u64>),
    Char(Option<u64>),
    Character(Option<u64>),
    CharacterVarying(Option<u64>),
    CharVarying(Option<u64>),
    Nvarchar(Option<u64>),
    Timestamp,
    Date,
    Datetime,
    /// Any other type, by its text.
    Other(String),
}

/// A column definition of CREATE TABLE.
pub struct SqlColumnDef {
    pub name: String,
    pub data_type: SqlDataType,
    /// The column's options, in order.
    pub options: Vec<SqlColumnOption>,
}

/// An option of a column definition.
pub enum SqlColumnOption {
    /// PRIMARY KEY.
    PrimaryKey,
    /// Any other option.
    Other,
}

/// A CREATE TABLE statement.
pub struct SqlCreateTable {
    pub name: SqlObjectName,
    pub columns: Vec<SqlColumnDef>,
}

/// The binary operators of SQL expressions.
pub enum SqlBinaryOperator {
    Plus,
    Minus,
    Multiply,
    Divide,
    Modulo,
    StringConcat,
    Gt,
    Lt,
    GtEq,
    LtEq,
    Spaceship,
    Eq,
    NotEq,
    And,
    Or,
    /// Any other operator, by its debug text.
    Other(String),
}

/// A literal value.
pub enum SqlValue {
    /// A number as written, and whether it is a long literal.
    Number(String, bool),
    SingleQuotedString(String),
    Null,
    /// Any other value, by its text.
    Other(String),
}

/// A SQL expression.
pub enum SqlExpr {
    Identifier(String),
    CompoundIdentifier(Vec<String>),
    BinaryOp { left: Box<SqlExpr>, op: SqlBinaryOperator, right: Box<SqlExpr> },
    Value(SqlValue),
    /// Any other expression, by its debug text.
    Other(String),
}

/// A column of CREATE INDEX, with its sort option.
pub struct SqlIndexColumn {
    pub expr: SqlExpr,
    pub asc: Option<bool>,
}

/// A CREATE INDEX statement.
pub struct SqlCreateIndex {
    pub name: Option<SqlObjectName>,
    pub table_name: SqlObjectName,
    pub columns: Vec<SqlIndexColumn>,
}

/// A table in FROM: a named table with its alias, or something else by its debug text.
pub enum SqlTableFactor {
    Table { name: SqlObjectName, alias: Option<String> },
    Other(String),
}

/// The condition of a join.
pub enum SqlJoinConstraint {
    On(SqlExpr),
    Other(String),
}

/// The kind of a join, with its condition.
pub enum SqlJoinOperator {
    Left(SqlJoinConstraint),
    Right(SqlJoinConstraint),
    Inner(SqlJoinConstraint),
    /// A bare `JOIN`, with no kind written.
    Join(SqlJoinConstraint),
    FullOuter(SqlJoinConstraint),
    /// Any other join, by its debug text.
    Other(String),
}

/// A join of a table in FROM.
pub struct SqlJoin {
    pub relation: SqlTableFactor,
    pub join_operator: SqlJoinOperator,
}

/// A table in FROM with its joins.
pub struct SqlTableWithJoins {
    pub relation: SqlTableFactor,
    pub joins: Vec<SqlJoin>,
}

/// An item of a SELECT list.
pub enum SqlSelectItem {
    UnnamedExpr(SqlExpr),
    Wildcard,
    /// Any other item, by its text.
    Other(String),
}

/// A SELECT.
pub struct SqlSelect {
    pub projection: Vec<SqlSelectItem>,
    pub from: Vec<SqlTableWithJoins>,
}

/// The body of a query.
pub enum SqlSetExpr {
    Select(SqlSelect),
    Values(Vec<Vec<SqlExpr>>),
    /// Any other body, by its debug text.
    Other(String),
}

/// A query, with which of the clauses the binder refuses it has.
pub struct SqlQuery {
    pub has_with: bool,
    pub has_order_by: bool,
    pub has_limit: bool,
    pub body: SqlSetExpr,
}

/// The target of an INSERT.
pub enum SqlTableObject {
    TableName(SqlObjectName),
    /// Any other target, by its text.
    Other(String),
}

/// An INSERT statement.
pub struct SqlInsert {
    pub table: SqlTableObject,
    pub source: Option<Box<SqlQuery>>,
}

/// A parsed SQL statement.
pub enum SqlStatement {
    Query(Box<SqlQuery>),
    CreateTable(SqlCreateTable),
    Insert(SqlInsert),
    /// Any other statement, by its text.
    Other(String),
}

} // verus!
