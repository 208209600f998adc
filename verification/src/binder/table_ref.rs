use vstd::prelude::*;

use crate::binder::expression::{expr_text, BoundExpression};
use crate::common::text::{decimal, push_decimal};
use crate::binder::statement::SelectStatement;
use crate::catalog::catalog::TableOid;
use crate::catalog::schema::Schema;

verus! {

/// All types of joins.
#[derive(Debug, Clone, Copy, PartialEq, Eq, Structural)]
pub enum JoinType {
    Left,
    Right,
    Inner,
    Outer,
}

/// A bound table reference.
pub enum TableRef {
    /// Placeholder for empty FROM clause.
    Empty,
    /// Base table reference, e.g., `SELECT x FROM y`.
    BaseTableRef(BaseTableRef),
    /// Output of cartesian product, e.g., `SELECT * FROM x, y`.
    CrossProductRef(CrossProductRef),
    /// CTE reference, e.g., `WITH (select 1) x SELECT * FROM x`.
    CTERef(CTERef),
    /// Values clause, e.g., `VALUES (1, 2)`.
    ExpressionListRef(ExpressionListRef),
    /// Output of join, e.g., `SELECT * FROM x INNER JOIN y ON ...`.
    JoinRef(JoinRef),
    /// Subquery reference, e.g., `SELECT * FROM (SELECT * FROM t1)`.
    SubqueryRef(SubqueryRef),
}

/// A bound table ref type for single table. e.g., `SELECT x FROM y`,
/// where `y` is `BaseTableRef`.
pub struct BaseTableRef {
    /// The name of the table.
    pub table: String,
    /// The OID of the table.
    pub oid: TableOid,
    /// The alias of the table.
    pub alias: Option<String>,
    /// The schema of the table.
    pub schema: Schema,
}

/// The name a base table is known by in the query: its alias, else its name.
pub open spec fn visible_name(t: BaseTableRef) -> Seq<char> {
    match t.alias {
        Some(a) => a@,
        None => t.table@,
    }
}

impl BaseTableRef {
    /// The name the table is known by in the query: its alias, else its name.
    pub fn get_table_name(&self) -> (r: &str)
        ensures
            r@ == visible_name(*self),
    {
        match self.alias.as_ref() {
            Some(a) => a.as_str(),
            None => self.table.as_str(),
        }
    }
}

/// A cross product. e.g., `SELECT * FROM x, y`, where `x, y` is `CrossProductRef`.
pub struct CrossProductRef {
    /// The left side of the cross product.
    pub left: Box<TableRef>,
    /// The right side of the cross product.
    pub right: Box<TableRef>,
}

/// A CTE. e.g., `WITH (select 1) x SELECT * FROM x`, where `x` is `CTERef`.
pub struct CTERef {
    /// CTE name.
    pub cte_name: String,
    /// Alias.
    pub alias: String,
}

/// A bound table ref type for `values` clause.
pub struct ExpressionListRef {
    /// The value list.
    pub values: Vec<Vec<BoundExpression>>,
    /// A unique identifier for this values list, so that planner / binder can work correctly.
    pub identifier: String,
}

/// A join. e.g., `SELECT * FROM x INNER JOIN y ON ...`,
/// where `x INNER JOIN y ON ...` is `JoinRef`.
pub struct JoinRef {
    /// Type of join.
    pub join_type: JoinType,
    /// The left side of the join.
    pub left: Box<TableRef>,
    /// The right side of the join.
    pub right: Box<TableRef>,
    /// Join condition.
    pub condition: BoundExpression,
}

/// A subquery. e.g., `SELECT * FROM (SELECT * FROM t1)`,
/// where `(SELECT * FROM t1)` is `SubqueryRef`.
pub struct SubqueryRef {
    /// Subquery.
    pub subquery: SelectStatement,
    /// Name of each item in the select list.
    pub select_list_name: Vec<Vec<String>>,
    /// Alias.
    pub alias: String,
}


/// The text of a base table reference.
pub open spec fn base_table_text(t: BaseTableRef) -> Seq<char> {
    "BaseTableRef { table="@ + t.table@ + ", oid="@ + decimal(t.oid as nat) + match t.alias {
        Some(a) => ", alias="@ + a@,
        None => Seq::empty(),
    } + " }"@
}

/// The name of a join type.
pub open spec fn join_type_name(t: JoinType) -> Seq<char> {
    match t {
        JoinType::Left => "Left"@,
        JoinType::Right => "Right"@,
        JoinType::Inner => "Inner"@,
        JoinType::Outer => "Outer"@,
    }
}

impl JoinType {
    /// The name of this join type.
    pub fn to_str(&self) -> (r: &'static str)
        ensures
            r@ == join_type_name(*self),
    {
        match self {
            JoinType::Left => "Left",
            JoinType::Right => "Right",
            JoinType::Inner => "Inner",
            JoinType::Outer => "Outer",
        }
    }

    /// The name of this join type, as a string.
    pub fn to_string(&self) -> (r: String)
        ensures
            r@ == join_type_name(*self),
    {
        String::from_str(self.to_str())
    }
}

/// The text of a table reference.
pub open spec fn table_ref_text(t: TableRef) -> Seq<char>
    decreases t,
{
    match t {
        TableRef::Empty => "<empty>"@,
        TableRef::BaseTableRef(b) => base_table_text(b),
        TableRef::CrossProductRef(c) => "CrossProductRef { left="@ + table_ref_text(*c.left) + ", right="@
            + table_ref_text(*c.right) + " }"@,
        TableRef::CTERef(c) => "CTERef { cte_name="@ + c.cte_name@ + ", alias="@ + c.alias@ + " }"@,
        TableRef::ExpressionListRef(e) => "ExpressionListRef { identifier="@ + e.identifier@ + " }"@,
        TableRef::JoinRef(j) => "Join { type="@ + join_type_name(j.join_type) + ", left="@ + table_ref_text(
            *j.left,
        ) + ", right="@ + table_ref_text(*j.right) + ", condition="@ + expr_text(j.condition) + " }"@,
        TableRef::SubqueryRef(s) => "SubqueryRef { alias="@ + s.alias@ + " }"@,
    }
}

impl BaseTableRef {
    /// The text of this table reference.
    pub fn to_string(&self) -> (r: String)
        ensures
            r@ == base_table_text(*self),
    {
        proof {
            reveal_strlit("BaseTableRef { table=");
            reveal_strlit(", oid=");
            reveal_strlit(", alias=");
            reveal_strlit(" }");
        }
        let mut r = String::from_str("BaseTableRef { table=");
        r.append(self.table.as_str());
        r.append(", oid=");
        push_decimal(&mut r, self.oid as u64);
        match &self.alias {
            Some(a) => {
                r.append(", alias=");
                r.append(a.as_str());
            },
            None => {},
        }
        r.append(" }");
        r
    }
}

impl TableRef {
    /// The text of this table reference.
    pub fn to_string(&self) -> (r: String)
        ensures
            r@ == table_ref_text(*self),
        decreases self,
    {
        proof {
            reveal_strlit("<empty>");
            reveal_strlit("CrossProductRef { left=");
            reveal_strlit(", right=");
            reveal_strlit(" }");
            reveal_strlit("CTERef { cte_name=");
            reveal_strlit(", alias=");
            reveal_strlit("ExpressionListRef { identifier=");
            reveal_strlit("Join { type=");
            reveal_strlit(", left=");
            reveal_strlit(", condition=");
            reveal_strlit("SubqueryRef { alias=");
        }
        match self {
            TableRef::Empty => String::from_str("<empty>"),
            TableRef::BaseTableRef(b) => b.to_string(),
            TableRef::CrossProductRef(c) => {
                let mut r = String::from_str("CrossProductRef { left=");
                let l = c.left.to_string();
                r.append(l.as_str());
                r.append(", right=");
                let rt = c.right.to_string();
                r.append(rt.as_str());
                r.append(" }");
                r
            },
            TableRef::CTERef(c) => {
                let mut r = String::from_str("CTERef { cte_name=");
                r.append(c.cte_name.as_str());
                r.append(", alias=");
                r.append(c.alias.as_str());
                r.append(" }");
                r
            },
            TableRef::ExpressionListRef(e) => {
                let mut r = String::from_str("ExpressionListRef { identifier=");
                r.append(e.identifier.as_str());
                r.append(" }");
                r
            },
            TableRef::JoinRef(j) => {
                let mut r = String::from_str("Join { type=");
                r.append(j.join_type.to_str());
                r.append(", left=");
                let l = j.left.to_string();
                r.append(l.as_str());
                r.append(", right=");
                let rt = j.right.to_string();
                r.append(rt.as_str());
                r.append(", condition=");
                let c = j.condition.to_string();
                r.append(c.as_str());
                r.append(" }");
                r
            },
            TableRef::SubqueryRef(s) => {
                let mut r = String::from_str("SubqueryRef { alias=");
                r.append(s.alias.as_str());
                r.append(" }");
                r
            },
        }
    }
}

} // verus!
