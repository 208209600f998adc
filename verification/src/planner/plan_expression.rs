use vstd::prelude::*;

use crate::binder::expression::{dotted, expr_text, BoundColumnRef, BoundExpression};
use crate::catalog::column::ColumnView;
use crate::common::errors::BustubError;
use crate::common::text::str_eq;
use crate::execution::expressions::AbstractExpression;
use crate::execution::plans::{plan_output, PlanNode};
use crate::planner::plan_table::message_with;
use crate::planner::Planner;

verus! {

/// Whether some column of `cols` is named `name`.
pub open spec fn occurs(cols: Seq<ColumnView>, name: Seq<char>) -> bool {
    exists|i: int| 0 <= i < cols.len() && #[trigger] cols[i].name == name
}

/// Whether two columns of `cols` are named `name`.
pub open spec fn occurs_twice(cols: Seq<ColumnView>, name: Seq<char>) -> bool {
    exists|i: int, j: int|
        0 <= i < j < cols.len() && #[trigger] cols[i].name == name && #[trigger] cols[j].name == name
}

/// Whether `idx` is the first column of `cols` named `name`.
pub open spec fn first_named(cols: Seq<ColumnView>, name: Seq<char>, idx: int) -> bool {
    &&& 0 <= idx < cols.len()
    &&& cols[idx].name == name
    &&& forall|j: int| 0 <= j < idx ==> #[trigger] cols[j].name != name
}

/// Whether `x` reads, from child `t`, the first column of `cols` named
/// `name`, with that column as its type.
pub open spec fn reads_column(x: AbstractExpression, t: usize, cols: Seq<ColumnView>, name: Seq<char>) -> bool {
    &&& x matches AbstractExpression::ColumnValue(v)
    &&& v.tuple_idx == t
    &&& first_named(cols, name, v.col_idx as int)
    &&& v.ret_type@ == cols[v.col_idx as int]
}

/// The name a column reference is planned under: its names joined by dots.
pub open spec fn ref_name(c: BoundColumnRef) -> Seq<char> {
    dotted(c.names())
}

/// Whether `r` is an error whose message is `m`.
pub open spec fn fails_with<T>(r: Result<T, BustubError>, m: Seq<char>) -> bool {
    r matches Err(BustubError::Message(s)) && s@ == m
}

/// Whether planning `col_ref` would panic: with one child, on a name that
/// the child's output does not have.
pub open spec fn column_ref_panics(col_ref: BoundColumnRef, children: Seq<PlanNode>) -> bool {
    children.len() == 1 && !occurs(plan_output(children[0])@.columns, ref_name(col_ref))
}

/// What planning the column reference `col_ref` over `children` gives.
pub open spec fn column_ref_planned(
    col_ref: BoundColumnRef,
    children: Seq<PlanNode>,
    r: Result<(String, AbstractExpression), BustubError>,
) -> bool {
    let name = ref_name(col_ref);
    if children.len() == 0 {
        fails_with(r, "column ref should have at least one child"@)
    } else if children.len() == 1 {
        let cols = plan_output(children[0])@.columns;
        if occurs_twice(cols, name) {
            fails_with(r, "duplicated column found in schema"@)
        } else {
            r matches Ok((n, x)) && n@ == name && reads_column(x, 0, cols, name)
        }
    } else if children.len() == 2 {
        let lc = plan_output(children[0])@.columns;
        let rc = plan_output(children[1])@.columns;
        if occurs(lc, name) && occurs(rc, name) {
            fails_with(r, "ambiguous column name "@ + name)
        } else if occurs(lc, name) {
            r matches Ok((n, x)) && n@ == name && reads_column(x, 0, lc, name)
        } else if occurs(rc, name) {
            r matches Ok((n, x)) && n@ == name && reads_column(x, 1, rc, name)
        } else {
            fails_with(r, "column name "@ + name + " not found"@)
        }
    } else {
        fails_with(r, "no executor with expression has more than 2 children for now"@)
    }
}

/// Whether planning `expr` over `children` would panic.
pub open spec fn expression_panics(expr: BoundExpression, children: Seq<PlanNode>) -> bool {
    expr matches BoundExpression::BoundColumnRef(c) && column_ref_panics(c, children)
}

/// What planning `expr` over `children` gives: a column reference is
/// planned as one; every other expression is not supported.
pub open spec fn expression_planned(
    expr: BoundExpression,
    children: Seq<PlanNode>,
    r: Result<(String, AbstractExpression), BustubError>,
) -> bool {
    match expr {
        BoundExpression::BoundColumnRef(c) => column_ref_planned(c, children, r),
        _ => fails_with(r, "expr planning is not supported yet: "@ + expr_text(expr)),
    }
}

/// Plan a bound expression against the output of `children`.
pub fn plan_expression(planner: &Planner, expr: &BoundExpression, children: &[PlanNode]) -> (r:
    Result<(String, AbstractExpression), BustubError>)
    requires
        !expression_panics(*expr, children@),
    ensures
        expression_planned(*expr, children@, r),
{
    match expr {
        BoundExpression::BoundColumnRef(col_ref) => plan_column_ref(planner, col_ref, children),
        _ => {
            let t = expr.to_string();
            Err(message_with("expr planning is not supported yet: ", t.as_str()))
        },
    }
}

/// The first column of `cols` named `name`, and whether another follows it.
fn count_named(columns: &Vec<crate::catalog::column::Column>, name: &str) -> (r: bool)
    ensures
        r == occurs_twice(crate::catalog::schema::column_views(columns@), name@),
{
    let ghost cols = crate::catalog::schema::column_views(columns@);
    let mut found: Option<usize> = None;
    let mut i: usize = 0;
    while i < columns.len()
        invariant
            0 <= i <= columns@.len(),
            cols == crate::catalog::schema::column_views(columns@),
            !occurs_twice(cols.take(i as int), name@),
            match found {
                None => forall|j: int| 0 <= j < i ==> #[trigger] cols[j].name != name@,
                Some(k) => k < i && cols[k as int].name == name@,
            },
        decreases columns@.len() - i,
    {
        if str_eq(name, columns[i].get_name()) {
            if found.is_some() {
                proof {
                    let k = found.unwrap() as int;
                    assert(cols[k].name == name@ && cols[i as int].name == name@);
                }
                return true;
            }
            found = Some(i);
        }
        proof {
            assert forall|a: int, b: int|
                0 <= a < b < i + 1 && #[trigger] cols.take(i as int + 1)[a].name == name@
                    && #[trigger] cols.take(i as int + 1)[b].name == name@ implies false by {
                if b < i {
                    assert(cols.take(i as int)[a] == cols[a]);
                    assert(cols.take(i as int)[b] == cols[b]);
                } else {
                    assert(cols[a].name == name@);
                }
            }
        }
        i += 1;
    }
    assert(cols.take(i as int) =~= cols);
    false
}

/// Plan a column reference against the output of `children`: with one
/// child, the first column of its output with that name; with two (a join),
/// the column of whichever side has it.
pub fn plan_column_ref(planner: &Planner, col_ref: &BoundColumnRef, children: &[PlanNode]) -> (r:
    Result<(String, AbstractExpression), BustubError>)
    requires
        !column_ref_panics(*col_ref, children@),
    ensures
        column_ref_planned(*col_ref, children@, r),
{
    proof {
        reveal_strlit(" not found");
    }
    if children.len() == 0 {
        return Err(BustubError::Message(String::from_str("column ref should have at least one child")));
    }
    let col_name = col_ref.to_string();
    if children.len() == 1 {
        let child = &children[0];
        let schema = child.output_schema_ref();
        if count_named(schema.get_columns(), col_name.as_str()) {
            return Err(BustubError::Message(String::from_str("duplicated column found in schema")));
        }
        let col_idx = schema.get_col_idx(col_name.as_str()) as usize;
        let col_type = schema.get_column(col_idx).duplicate();
        return Ok((col_name, AbstractExpression::column_value(0, col_idx, col_type)));
    }
    if children.len() == 2 {
        let left_schema = children[0].output_schema_ref();
        let right_schema = children[1].output_schema_ref();
        let col_idx_left = left_schema.try_get_col_idx(col_name.as_str());
        let col_idx_right = right_schema.try_get_col_idx(col_name.as_str());
        if col_idx_left.is_some() && col_idx_right.is_some() {
            return Err(message_with("ambiguous column name ", col_name.as_str()));
        }
        if let Some(col_idx) = col_idx_left {
            let col_type = left_schema.get_column(col_idx as usize).duplicate();
            return Ok((col_name, AbstractExpression::column_value(0, col_idx as usize, col_type)));
        }
        if let Some(col_idx) = col_idx_right {
            let col_type = right_schema.get_column(col_idx as usize).duplicate();
            return Ok((col_name, AbstractExpression::column_value(1, col_idx as usize, col_type)));
        }
        let mut m = String::from_str("column name ");
        m.append(col_name.as_str());
        m.append(" not found");
        return Err(BustubError::Message(m));
    }
    Err(
        BustubError::Message(
            String::from_str("no executor with expression has more than 2 children for now"),
        ),
    )
}

} // verus!
