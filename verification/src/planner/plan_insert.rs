use std::rc::Rc;
use vstd::prelude::*;

use crate::binder::statement::InsertStatement;
use crate::catalog::column::Column;
use crate::catalog::schema::{column_views, schema_of, Schema, SchemaView, columns_fit};
use crate::common::errors::BustubError;
use crate::execution::plans::{aggregate_column, plan_output, InsertPlanNode, PlanNode};
use crate::planner::plan_expression::fails_with;
use crate::planner::plan_select::{is_select_plan, plan_select, select_error, select_panics};
use crate::planner::Planner;
use crate::sql_type::type_id::TypeId;

verus! {

/// Whether the columns of `a` and `b` have the same types, pairwise as far
/// as the shorter one goes.
pub open spec fn types_match(a: SchemaView, b: SchemaView) -> bool {
    forall|i: int|
        0 <= i < a.columns.len() && i < b.columns.len() ==> #[trigger] a.columns[i].type_id
            == b.columns[i].type_id
}

/// The schema of an insert's output: the INTEGER count of inserted rows.
pub open spec fn insert_output_schema() -> SchemaView {
    schema_of(
        seq![
            crate::catalog::column::ColumnView {
                name: "__bustub_internal.insert_rows"@,
                ..aggregate_column()
            },
        ],
    )
}

/// What planning `ins` gives: the error of its SELECT, the insert over
/// the SELECT's plan, or a mismatch of the column types.
pub open spec fn insert_planned(ins: InsertStatement, r: Result<PlanNode, BustubError>) -> bool {
    match select_error(ins.select) {
        Some(m) => fails_with(r, m),
        None => exists|child: PlanNode|
            is_select_plan(ins.select, child) && if types_match(
                plan_output(child)@,
                ins.table.schema@,
            ) {
                r matches Ok(PlanNode::Insert(n)) && n.children@ == seq![child]
                    && n.output_schema@ == insert_output_schema() && n.table_oid == ins.table.oid
            } else {
                fails_with(r, "insert schema mismatch"@)
            },
    }
}

/// Plan an INSERT: the plan of its SELECT, under an insert into the table,
/// when the SELECT's columns have the table's types.
pub fn plan_insert(planner: &mut Planner, ins: &InsertStatement) -> (r: Result<PlanNode, BustubError>)
    requires
        !select_panics(ins.select),
        columns_fit(ins.select.select_list@.len() as int),
    ensures
        *final(planner) == *old(planner),
        insert_planned(*ins, r),
{
    let child = match plan_select(planner, &ins.select) {
        Ok(c) => c,
        Err(e) => {
            return Err(e);
        },
    };
    let ghost g = child;
    {
        let child_schema = child.output_schema_ref();
        let table_schema = &ins.table.schema;
        let a = child_schema.get_columns();
        let b = table_schema.get_columns();
        let mut i: usize = 0;
        while i < a.len() && i < b.len()
            invariant
                0 <= i <= a@.len(),
                i <= b@.len(),
                *planner == *old(planner),
                select_error(ins.select) is None,
                is_select_plan(ins.select, g),
                child_schema@ == plan_output(g)@,
                table_schema@ == ins.table.schema@,
                column_views(a@) == child_schema@.columns,
                column_views(b@) == table_schema@.columns,
                forall|j: int| 0 <= j < i ==> #[trigger] child_schema@.columns[j].type_id
                    == table_schema@.columns[j].type_id,
            decreases a@.len() - i,
        {
            assert(column_views(a@)[i as int] == a@[i as int]@);
            assert(column_views(b@)[i as int] == b@[i as int]@);
            if a[i].get_type() != b[i].get_type() {
                assert(!types_match(plan_output(g)@, ins.table.schema@));
                return Err(BustubError::Message(String::from_str("insert schema mismatch")));
            }
            i += 1;
        }
    }
    let ghost col = crate::catalog::column::ColumnView {
        name: "__bustub_internal.insert_rows"@,
        ..aggregate_column()
    };
    let c = Column::new(String::from_str("__bustub_internal.insert_rows"), TypeId::Integer);
    let cols = vec![c];
    proof {
        assert(column_views(cols@) =~= seq![col]);
        assert(crate::catalog::schema::layout_offset(seq![col], 1) == 4) by {
            reveal_with_fuel(crate::catalog::schema::layout_offset, 2);
        }
    }
    let output_schema = Rc::new(Schema::new(cols));
    let r = PlanNode::Insert(
        InsertPlanNode { children: vec![child], output_schema, table_oid: ins.table.oid },
    );
    assert(types_match(plan_output(g)@, ins.table.schema@));
    assert(is_select_plan(ins.select, g));
    proof {
        let ghost gr = r;
        match gr {
            PlanNode::Insert(n) => {
                assert(n.children@ == seq![g]);
                assert(n.output_schema@ == insert_output_schema());
            },
            _ => {},
        }
    }
    Ok(r)
}

} // verus!
