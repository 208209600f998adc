pub mod plan_expression;
pub mod plan_insert;
pub mod plan_select;
pub mod plan_table;

use vstd::prelude::*;

use crate::binder::statement::{statement_text, BoundStatement};
use crate::catalog::catalog::CatalogRef;
use crate::catalog::schema::columns_fit;
use crate::common::errors::BustubError;
use crate::execution::plans::PlanNode;
use crate::planner::plan_expression::fails_with;
use crate::planner::plan_insert::{insert_planned, plan_insert};
use crate::planner::plan_select::{plan_select, select_panics, select_planned};
use crate::planner::plan_table::message_with;

verus! {

/// The planner's per-query context; it holds nothing yet.
pub struct PlannerContext {}

/// The planner turns bound statements into plan trees.
pub struct Planner {
    catalog: CatalogRef,
    ctx: PlannerContext,
}

impl Planner {
    /// A planner over `catalog`.
    pub fn new(catalog: CatalogRef) -> (r: Self)
        ensures
            r.catalog() == catalog,
    {
        Planner { catalog, ctx: PlannerContext {} }
    }

    /// Plan a bound statement: a SELECT or an INSERT; any other statement
    /// is not planned.
    pub fn plan_query(&mut self, stmt: &BoundStatement) -> (r: Result<PlanNode, BustubError>)
        requires
            *stmt matches BoundStatement::Select(sel) ==> !select_panics(sel)
                && columns_fit(sel.select_list@.len() as int),
            *stmt matches BoundStatement::Insert(ins) ==> !select_panics(ins.select)
                && columns_fit(ins.select.select_list@.len() as int),
        ensures
            *final(self) == *old(self),
            *stmt matches BoundStatement::Select(sel) ==> select_planned(sel, r),
            *stmt matches BoundStatement::Insert(ins) ==> insert_planned(ins, r),
            !(*stmt is Select || *stmt is Insert) ==> fails_with(
                r,
                "Planner: unsupported statement type "@ + statement_text(*stmt),
            ),
    {
        match stmt {
            BoundStatement::Select(sel) => plan_select(self, sel),
            BoundStatement::Insert(ins) => plan_insert(self, ins),
            _ => {
                let t = stmt.to_string();
                Err(message_with("Planner: unsupported statement type ", t.as_str()))
            },
        }
    }

    /// The catalog this planner reads.
    pub closed spec fn catalog(&self) -> CatalogRef {
        self.catalog
    }
}

} // verus!
