use vstd::prelude::*;

use crate::binder::expression::{BoundColumnRef, BoundExpression, BoundOrderBy};
use crate::binder::table_ref::{base_table_text, table_ref_text, BaseTableRef, SubqueryRef, TableRef};
use crate::catalog::catalog::IndexType;
use crate::catalog::column::Column;

verus! {

/// Options for EXPLAIN statement, used as bit flags (see `bit`).
#[derive(Debug, Clone, Copy, PartialEq, Eq, Structural)]
pub enum ExplainOptions {
    /// Show binder results.
    Binder,
    /// Show planner results.
    Planner,
    /// Show optimizer results.
    Optimizer,
    /// Show schema.
    Schema,
}

/// The flag bit of an EXPLAIN option.
pub open spec fn option_bit(o: ExplainOptions) -> u8 {
    match o {
        ExplainOptions::Binder => 1,
        ExplainOptions::Planner => 2,
        ExplainOptions::Optimizer => 4,
        ExplainOptions::Schema => 8,
    }
}

impl ExplainOptions {
    /// The flag bit of this option.
    pub fn bit(&self) -> (r: u8)
        ensures
            r == option_bit(*self),
    {
        match self {
            ExplainOptions::Binder => 1,
            ExplainOptions::Planner => 2,
            ExplainOptions::Optimizer => 4,
            ExplainOptions::Schema => 8,
        }
    }
}

/// A bound SQL statement.
pub enum BoundStatement {
    /// CREATE TABLE statement.
    Create(CreateStatement),
    /// SELECT statement.
    Select(SelectStatement),
    /// DELETE statement.
    Delete(DeleteStatement),
    /// INSERT statement.
    Insert(InsertStatement),
    /// EXPLAIN statement.
    Explain(ExplainStatement),
    /// UPDATE statement.
    Update(UpdateStatement),
    /// SET a system variable.
    VariableSet(VariableSetStatement),
    /// SHOW a system variable.
    VariableShow(VariableShowStatement),
    /// Transaction control statement.
    Transaction(TransactionStatement),
    /// CREATE INDEX statement.
    Index(IndexStatement),
}

/// A bound CREATE TABLE statement.
pub struct CreateStatement {
    /// The name of the table to create.
    pub table: String,
    /// The columns of the table.
    pub columns: Vec<Column>,
    /// The primary key column names.
    pub primary_key: Vec<String>,
}

/// A bound SELECT statement.
pub struct SelectStatement {
    /// Bound FROM clause.
    pub table: Box<TableRef>,
    /// Bound SELECT list.
    pub select_list: Vec<BoundExpression>,
    /// Bound WHERE clause.
    pub where_clause: Option<BoundExpression>,
    /// Bound GROUP BY clause.
    pub group_by: Vec<BoundExpression>,
    /// Bound HAVING clause.
    pub having: Option<BoundExpression>,
    /// Bound LIMIT count.
    pub limit_count: Option<BoundExpression>,
    /// Bound LIMIT offset.
    pub limit_offset: Option<BoundExpression>,
    /// Bound ORDER BY clause.
    pub sort: Vec<BoundOrderBy>,
    /// Bound CTE list.
    pub ctes: Vec<SubqueryRef>,
    /// Is SELECT DISTINCT.
    pub is_distinct: bool,
}

/// A bound DELETE statement.
pub struct DeleteStatement {
    /// The table to delete from.
    pub table: BaseTableRef,
    /// The filter expression (WHERE clause).
    pub expr: Option<BoundExpression>,
}

/// A bound INSERT statement.
pub struct InsertStatement {
    /// The table to insert into.
    pub table: BaseTableRef,
    /// The SELECT statement providing values to insert.
    pub select: SelectStatement,
}

/// A bound EXPLAIN statement.
pub struct ExplainStatement {
    /// The inner statement being explained.
    pub statement: Box<BoundStatement>,
    /// Explain options as bit flags.
    pub options: u8,
}

/// A bound UPDATE statement.
pub struct UpdateStatement {
    /// The table to update.
    pub table: BaseTableRef,
    /// The filter expression (WHERE clause).
    pub filter_expr: Option<BoundExpression>,
    /// The target column and expression pairs to update.
    pub target_expr: Vec<(BoundColumnRef, BoundExpression)>,
}

/// A bound SET statement, e.g., `SET variable = value`.
pub struct VariableSetStatement {
    /// The variable name.
    pub variable: String,
    /// The value to set.
    pub value: String,
}

/// A bound SHOW statement, e.g., `SHOW variable`.
pub struct VariableShowStatement {
    /// The variable name.
    pub variable: String,
}

/// The transaction control commands.
#[derive(Debug, Clone, Copy, PartialEq, Eq, Structural)]
pub enum TransactionStatementType {
    Begin,
    Commit,
    Rollback,
}

/// A bound transaction control statement, e.g., `BEGIN`, `COMMIT`, `ROLLBACK`.
pub struct TransactionStatement {
    /// The transaction command type.
    pub txn_type: TransactionStatementType,
}

/// A bound CREATE INDEX statement.
pub struct IndexStatement {
    /// The name of the index.
    pub index_name: String,
    /// The table on which the index is created.
    pub table: BaseTableRef,
    /// The columns to index.
    pub cols: Vec<BoundColumnRef>,
    /// The index type (e.g., "btree", "hash").
    pub index_type: IndexType,
    /// Column-level options.
    pub col_options: Vec<String>,
    /// Additional options as key-value pairs.
    pub options: Vec<(String, i32)>,
}


/// The text of a bound statement.
pub open spec fn statement_text(s: BoundStatement) -> Seq<char> {
    match s {
        BoundStatement::Create(c) => "CreateStatement { table="@ + c.table@ + " }"@,
        BoundStatement::Select(sel) => "SelectStatement { table="@ + table_ref_text(*sel.table) + " }"@,
        BoundStatement::Delete(d) => "DeleteStatement { table="@ + base_table_text(d.table) + " }"@,
        BoundStatement::Insert(i) => "InsertStatement { table="@ + base_table_text(i.table) + " }"@,
        BoundStatement::Explain(_) => "ExplainStatement"@,
        BoundStatement::Update(u) => "UpdateStatement { table="@ + base_table_text(u.table) + " }"@,
        BoundStatement::VariableSet(v) => "VariableSet { variable="@ + v.variable@ + ", value="@
            + v.value@ + " }"@,
        BoundStatement::VariableShow(v) => "VariableShow { variable="@ + v.variable@ + " }"@,
        BoundStatement::Transaction(t) => match t.txn_type {
            TransactionStatementType::Begin => "BEGIN"@,
            TransactionStatementType::Commit => "COMMIT"@,
            TransactionStatementType::Rollback => "ROLLBACK"@,
        },
        BoundStatement::Index(i) => "IndexStatement { index_name="@ + i.index_name@ + ", table="@
            + base_table_text(i.table) + " }"@,
    }
}

/// `prefix`, then `middle`, then ` }`.
fn braced(prefix: &str, middle: &str) -> (r: String)
    ensures
        r@ == prefix@ + middle@ + " }"@,
{
    let mut r = String::from_str(prefix);
    r.append(middle);
    r.append(" }");
    r
}

impl BoundStatement {
    /// The text of this statement.
    pub fn to_string(&self) -> (r: String)
        ensures
            r@ == statement_text(*self),
    {
        proof {
            reveal_strlit("ExplainStatement");
            reveal_strlit("BEGIN");
            reveal_strlit("COMMIT");
            reveal_strlit("ROLLBACK");
            reveal_strlit(", value=");
            reveal_strlit(", table=");
        }
        match self {
            BoundStatement::Create(c) => braced("CreateStatement { table=", c.table.as_str()),
            BoundStatement::Select(sel) => {
                let t = sel.table.to_string();
                braced("SelectStatement { table=", t.as_str())
            },
            BoundStatement::Delete(d) => {
                let t = d.table.to_string();
                braced("DeleteStatement { table=", t.as_str())
            },
            BoundStatement::Insert(i) => {
                let t = i.table.to_string();
                braced("InsertStatement { table=", t.as_str())
            },
            BoundStatement::Explain(_) => String::from_str("ExplainStatement"),
            BoundStatement::Update(u) => {
                let t = u.table.to_string();
                braced("UpdateStatement { table=", t.as_str())
            },
            BoundStatement::VariableSet(v) => {
                let mut m = v.variable.clone();
                m.append(", value=");
                m.append(v.value.as_str());
                braced("VariableSet { variable=", m.as_str())
            },
            BoundStatement::VariableShow(v) => braced("VariableShow { variable=", v.variable.as_str()),
            BoundStatement::Transaction(t) => match t.txn_type {
                TransactionStatementType::Begin => String::from_str("BEGIN"),
                TransactionStatementType::Commit => String::from_str("COMMIT"),
                TransactionStatementType::Rollback => String::from_str("ROLLBACK"),
            },
            BoundStatement::Index(i) => {
                let mut m = i.index_name.clone();
                m.append(", table=");
                let t = i.table.to_string();
                m.append(t.as_str());
                braced("IndexStatement { index_name=", m.as_str())
            },
        }
    }
}

} // verus!
