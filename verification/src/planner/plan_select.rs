use std::rc::Rc;
use vstd::prelude::*;

use crate::binder::expression::{has_agg, has_window, BoundColumnRef, BoundExpression};
use crate::binder::statement::SelectStatement;
use crate::binder::table_ref::{visible_name, TableRef};
use crate::catalog::column::ColumnView;
use crate::catalog::schema::{column_views, schema_of, share_schema, columns_fit};
use crate::common::errors::BustubError;
use crate::execution::expressions::{AbstractExpression, ColumnValueExpression};
use crate::execution::plans::{
    expr_columns, plan_output, renamed, scan_columns, AggregationPlanNode, LimitPlanNode, PlanNode,
    ProjectionPlanNode, SortPlanNode,
};
use crate::planner::plan_expression::{
    fails_with, first_named, occurs, occurs_twice, plan_expression, reads_column, ref_name,
};
use crate::planner::plan_table::{
    base_table_error, is_base_table_plan, message_with, plan_table_ref, table_ref_kind,
};
use crate::planner::Planner;
use crate::sql_type::type_id::TypeId;
use crate::sql_type::value::Datum;

verus! {

/// Why a SELECT fails before its select list is planned: a CTE, an empty
/// or unsupported FROM clause, or a WHERE clause.
pub open spec fn from_error(sel: SelectStatement) -> Option<Seq<char>> {
    if sel.ctes@.len() > 0 {
        Some("select with cte is not supported yet."@)
    } else {
        match *sel.table {
            TableRef::Empty => Some("select with empty table if not supported yet."@),
            TableRef::BaseTableRef(b) => match base_table_error(b) {
                Some(m) => Some(m),
                None => if sel.where_clause is Some {
                    Some("select with where clause is not supported yet."@)
                } else {
                    None
                },
            },
            t => Some("table ref planning not supported yet: "@ + table_ref_kind(t)),
        }
    }
}

/// The output columns of the plan of a SELECT's base table.
pub open spec fn from_columns(sel: SelectStatement) -> Seq<ColumnView> {
    match *sel.table {
        TableRef::BaseTableRef(b) => schema_of(scan_columns(visible_name(b), b.schema@.columns)).columns,
        _ => Seq::empty(),
    }
}

/// Whether the first select item with an aggregate or a window function
/// has an aggregate (`.0`) or a window function (`.1`).
pub open spec fn first_flags(items: Seq<BoundExpression>) -> (bool, bool)
    decreases items.len(),
{
    if items.len() == 0 {
        (false, false)
    } else if has_agg(items[0]) {
        (true, false)
    } else if has_window(items[0]) {
        (false, true)
    } else {
        first_flags(items.drop_first())
    }
}

/// Whether a SELECT is planned as a plain projection: no aggregate, window
/// function, HAVING or GROUP BY.
pub open spec fn is_plain(sel: SelectStatement) -> bool {
    let flags = first_flags(sel.select_list@);
    !flags.0 && !flags.1 && sel.having is None && sel.group_by@.len() == 0
}

/// Why a SELECT with a window function fails: HAVING or GROUP BY with it.
pub open spec fn window_error(sel: SelectStatement) -> Option<Seq<char>> {
    if first_flags(sel.select_list@).1 {
        if sel.having is Some {
            Some("HAVING on window function is not supported yet."@)
        } else if sel.group_by@.len() > 0 {
            Some("GROUP BY is not allowed to use with window function"@)
        } else {
            None
        }
    } else {
        None
    }
}

/// Why planning `e` against one child with columns `cols` fails.
pub open spec fn item_error(cols: Seq<ColumnView>, e: BoundExpression) -> Option<Seq<char>> {
    match e {
        BoundExpression::BoundColumnRef(c) => if occurs_twice(cols, ref_name(c)) {
            Some("duplicated column found in schema"@)
        } else {
            None
        },
        _ => Some("expr planning is not supported yet: "@ + crate::binder::expression::expr_text(e)),
    }
}

/// Why planning the expressions `es` in order against one child with
/// columns `cols` fails: the first failure.
pub open spec fn items_error(cols: Seq<ColumnView>, es: Seq<BoundExpression>) -> Option<Seq<char>>
    decreases es.len(),
{
    if es.len() == 0 {
        None
    } else {
        match item_error(cols, es[0]) {
            Some(m) => Some(m),
            None => items_error(cols, es.drop_first()),
        }
    }
}

/// Whether planning `es` in order against one child with columns `cols`
/// panics: a column reference it reaches names no column.
pub open spec fn items_panic(cols: Seq<ColumnView>, es: Seq<BoundExpression>) -> bool
    decreases es.len(),
{
    if es.len() == 0 {
        false
    } else {
        match es[0] {
            BoundExpression::BoundColumnRef(c) => !occurs(cols, ref_name(c)) || (
            !occurs_twice(cols, ref_name(c)) && items_panic(cols, es.drop_first())),
            _ => false,
        }
    }
}

/// The index of the first column of `cols` named `name`, or -1.
pub open spec fn index_named(cols: Seq<ColumnView>, name: Seq<char>) -> int
    decreases cols.len(),
{
    if cols.len() == 0 {
        -1
    } else if cols[0].name == name {
        0
    } else {
        let k = index_named(cols.drop_first(), name);
        if k < 0 {
            -1
        } else {
            k + 1
        }
    }
}

/// The column reference of an expression that is one.
pub open spec fn ref_of(e: BoundExpression) -> BoundColumnRef {
    match e {
        BoundExpression::BoundColumnRef(c) => c,
        _ => arbitrary(),
    }
}

/// The output columns of the projection of the column references `es`
/// from `cols`.
pub open spec fn projected(cols: Seq<ColumnView>, es: Seq<BoundExpression>) -> Seq<ColumnView> {
    schema_of(
        Seq::new(
            es.len(),
            |i: int| renamed(cols[index_named(cols, ref_name(ref_of(es[i])))], "<unnamed>"@),
        ),
    ).columns
}

/// The ORDER BY expressions of a SELECT.
pub open spec fn sort_exprs(sel: SelectStatement) -> Seq<BoundExpression> {
    Seq::new(sel.sort@.len(), |i: int| *sel.sort@[i].expr)
}

/// Whether the LIMIT count is an INTEGER constant.
pub open spec fn integer_constant(e: BoundExpression) -> bool {
    e matches BoundExpression::BoundConstant(c) && c.val@.type_id == TypeId::Integer
}

/// Why the stages after the projection fail, with `cols` the columns it
/// outputs: ORDER BY items, or a LIMIT / OFFSET clause.
pub open spec fn tail_error(sel: SelectStatement, cols: Seq<ColumnView>) -> Option<Seq<char>> {
    match items_error(cols, sort_exprs(sel)) {
        Some(m) => Some(m),
        None => match (sel.limit_count, sel.limit_offset) {
            (None, None) => None,
            (Some(count), None) => if integer_constant(count) {
                None
            } else {
                Some("LIMIT clause must be an integer constant"@)
            },
            (_, Some(offset)) => if integer_constant(offset) {
                Some("OFFSET clause is not supported yet."@)
            } else {
                Some("OFFSET clause must be an integer constant"@)
            },
        },
    }
}

/// Whether the stages after the projection panic: an ORDER BY column that
/// is not there, or a LIMIT count that is not a 32-bit integer.
pub open spec fn tail_panics(sel: SelectStatement, cols: Seq<ColumnView>) -> bool {
    ||| items_panic(cols, sort_exprs(sel))
    ||| (items_error(cols, sort_exprs(sel)) is None && sel.limit_offset is None && (
    sel.limit_count matches Some(count) && integer_constant(count) && !(
    ref_constant_int(count))))
}

/// Whether a constant holds a 32-bit integer.
pub open spec fn ref_constant_int(e: BoundExpression) -> bool {
    e matches BoundExpression::BoundConstant(c) && c.val@.datum matches Datum::Int(i) && i32::MIN
        <= i <= i32::MAX
}

/// Whether planning `sel` panics: on an aggregate or window query that the
/// planner does not plan yet, or on a column or LIMIT it cannot read.
pub open spec fn select_panics(sel: SelectStatement) -> bool {
    &&& from_error(sel) is None
    &&& window_error(sel) is None
    &&& {
        ||| !is_plain(sel)
        ||| items_panic(from_columns(sel), sel.select_list@)
        ||| (items_error(from_columns(sel), sel.select_list@) is None && tail_panics(
            sel,
            projected(from_columns(sel), sel.select_list@),
        ))
    }
}

/// The error planning `sel` gives, if any.
pub open spec fn select_error(sel: SelectStatement) -> Option<Seq<char>> {
    match from_error(sel) {
        Some(m) => Some(m),
        None => match window_error(sel) {
            Some(m) => Some(m),
            None => match items_error(from_columns(sel), sel.select_list@) {
                Some(m) => Some(m),
                None => tail_error(sel, projected(from_columns(sel), sel.select_list@)),
            },
        },
    }
}

/// Whether `p` projects the select list of `sel` out of its base table.
pub open spec fn is_projection(sel: SelectStatement, p: PlanNode) -> bool {
    &&& p matches PlanNode::Projection(n)
    &&& n.children@.len() == 1
    &&& *sel.table matches TableRef::BaseTableRef(b)
    &&& is_base_table_plan(b, n.children@[0])
    &&& n.expressions@.len() == sel.select_list@.len()
    &&& forall|i: int|
        0 <= i < n.expressions@.len() ==> reads_column(
            #[trigger] n.expressions@[i],
            0,
            from_columns(sel),
            ref_name(ref_of(sel.select_list@[i])),
        )
    &&& n.output_schema@ == schema_of(expr_columns(n.expressions@))
}

/// Whether `p` is `q`, or, for SELECT DISTINCT, `q` grouped by all its columns.
pub open spec fn distinct_layer(sel: SelectStatement, p: PlanNode, q: PlanNode) -> bool {
    if sel.is_distinct {
        &&& p matches PlanNode::Aggregation(n)
        &&& n.children@ == seq![q]
        &&& n.output_schema == plan_output(q)
        &&& n.aggregates@.len() == 0
        &&& n.agg_types@.len() == 0
        &&& n.group_bys@.len() == plan_output(q)@.columns.len()
        &&& forall|i: int|
            0 <= i < n.group_bys@.len() ==> (#[trigger] n.group_bys@[i] matches AbstractExpression::ColumnValue(v) && v.tuple_idx == 0 && v.col_idx == i && v.ret_type@ == plan_output(q)@.columns[i])
    } else {
        p == q
    }
}

/// Whether `p` is `q`, or `q` sorted by the ORDER BY items of `sel`.
pub open spec fn sort_layer(sel: SelectStatement, p: PlanNode, q: PlanNode) -> bool {
    if sel.sort@.len() == 0 {
        p == q
    } else {
        &&& p matches PlanNode::Sort(n)
        &&& n.children@ == seq![q]
        &&& n.output_schema == plan_output(q)
        &&& n.order_bys@.len() == sel.sort@.len()
        &&& forall|i: int|
            0 <= i < n.order_bys@.len() ==> (#[trigger] n.order_bys@[i]).0 == sel.sort@[i].order_by_type
                && reads_column(
                n.order_bys@[i].1,
                0,
                plan_output(q)@.columns,
                ref_name(ref_of(*sel.sort@[i].expr)),
            )
    }
}

/// The integer a constant holds.
pub open spec fn constant_int(e: BoundExpression) -> int {
    match e {
        BoundExpression::BoundConstant(c) => match c.val@.datum {
            Datum::Int(i) => i,
            _ => 0,
        },
        _ => 0,
    }
}

/// Whether `p` is `q`, or `q` limited to the LIMIT count of `sel`.
pub open spec fn limit_layer(sel: SelectStatement, p: PlanNode, q: PlanNode) -> bool {
    match sel.limit_count {
        None => p == q,
        Some(count) => {
            &&& p matches PlanNode::Limit(n)
            &&& n.children@ == seq![q]
            &&& n.output_schema == plan_output(q)
            &&& n.limit == (constant_int(count) as i32) as usize
        },
    }
}

/// Whether `p` is the plan of `sel`: its projection, made distinct, sorted
/// and limited as `sel` asks.
pub open spec fn is_select_plan(sel: SelectStatement, p: PlanNode) -> bool {
    exists|q1: PlanNode, q2: PlanNode, q3: PlanNode|
        is_projection(sel, q1) && distinct_layer(sel, q2, q1) && sort_layer(sel, q3, q2)
            && limit_layer(sel, p, q3)
}

/// Whether `es` has no failing item when planned against `cols`.
proof fn lemma_items_error_at(cols: Seq<ColumnView>, es: Seq<BoundExpression>, i: int)
    requires
        0 <= i < es.len(),
        items_error(cols, es) is None,
    ensures
        item_error(cols, es[i]) is None,
        items_error(cols, es.subrange(i + 1, es.len() as int)) is None,
    decreases i,
{
    if i > 0 {
        lemma_items_error_at(cols, es.drop_first(), i - 1);
        assert(es.drop_first()[i - 1] == es[i]);
        assert(es.drop_first().subrange(i, es.drop_first().len() as int) =~= es.subrange(
            i + 1,
            es.len() as int,
        ));
    }
}

/// The first column named `name` is the one `index_named` finds.
pub proof fn lemma_index_named(cols: Seq<ColumnView>, name: Seq<char>, i: int)
    requires
        first_named(cols, name, i),
    ensures
        index_named(cols, name) == i,
    decreases i,
{
    if i > 0 {
        assert(cols[0].name != name);
        let rest = cols.drop_first();
        assert(first_named(rest, name, i - 1)) by {
            assert forall|j: int| 0 <= j < i - 1 implies #[trigger] rest[j].name != name by {
                assert(rest[j] == cols[j + 1]);
            }
        }
        lemma_index_named(rest, name, i - 1);
    }
}

/// Plan the expressions `items` against one child, in order.
fn plan_items(planner: &Planner, items: &Vec<BoundExpression>, children: &Vec<PlanNode>) -> (r: Result<
    (Vec<String>, Vec<AbstractExpression>),
    BustubError,
>)
    requires
        children@.len() == 1,
        !items_panic(plan_output(children@[0])@.columns, items@),
    ensures
        match items_error(plan_output(children@[0])@.columns, items@) {
            Some(m) => fails_with(r, m),
            None => r matches Ok((names, exprs)) && exprs@.len() == items@.len() && names@.len()
                == items@.len() && forall|i: int|
                0 <= i < exprs@.len() ==> reads_column(
                    #[trigger] exprs@[i],
                    0,
                    plan_output(children@[0])@.columns,
                    ref_name(ref_of(items@[i])),
                ),
        },
{
    let ghost cols = plan_output(children@[0])@.columns;
    let mut col_names: Vec<String> = Vec::new();
    let mut exprs: Vec<AbstractExpression> = Vec::new();
    let mut i: usize = 0;
    assert(items@.subrange(0, items@.len() as int) =~= items@);
    while i < items.len()
        invariant
            0 <= i <= items@.len(),
            children@.len() == 1,
            cols == plan_output(children@[0])@.columns,
            items_error(cols, items@) == items_error(cols, items@.subrange(i as int, items@.len() as int)),
            !items_panic(cols, items@.subrange(i as int, items@.len() as int)),
            exprs@.len() == i,
            col_names@.len() == i,
            forall|j: int|
                0 <= j < i ==> reads_column(#[trigger] exprs@[j], 0, cols, ref_name(ref_of(items@[j]))),
        decreases items@.len() - i,
    {
        let ghost rest = items@.subrange(i as int, items@.len() as int);
        assert(rest[0] == items@[i as int]);
        assert(rest.drop_first() =~= items@.subrange(i + 1, items@.len() as int));
        let planned = plan_expression(planner, &items[i], children.as_slice());
        match planned {
            Ok((name, expr)) => {
                col_names.push(name);
                exprs.push(expr);
            },
            Err(e) => {
                return Err(e);
            },
        }
        i += 1;
    }
    Ok((col_names, exprs))
}

/// What planning `sel` gives: its error, or its plan.
pub open spec fn select_planned(sel: SelectStatement, r: Result<PlanNode, BustubError>) -> bool {
    match select_error(sel) {
        Some(m) => fails_with(r, m),
        None => r matches Ok(p) && is_select_plan(sel, p),
    }
}

/// Whether the first select item with an aggregate or a window function
/// has an aggregate (`.0`) or a window function (`.1`).
fn first_flags_of(items: &Vec<BoundExpression>) -> (r: (bool, bool))
    ensures
        r == first_flags(items@),
{
    let mut i: usize = 0;
    assert(items@.subrange(0, items@.len() as int) =~= items@);
    while i < items.len()
        invariant
            0 <= i <= items@.len(),
            first_flags(items@) == first_flags(items@.subrange(i as int, items@.len() as int)),
        decreases items@.len() - i,
    {
        let ghost rest = items@.subrange(i as int, items@.len() as int);
        assert(rest[0] == items@[i as int]);
        assert(rest.drop_first() =~= items@.subrange(i + 1, items@.len() as int));
        if items[i].has_aggregation() {
            return (true, false);
        }
        if items[i].has_window_function() {
            return (false, true);
        }
        i += 1;
    }
    (false, false)
}

/// Plan a SELECT statement: its base table, the projection of its select
/// list, then DISTINCT, ORDER BY and LIMIT as it asks.
pub fn plan_select(planner: &mut Planner, sel: &SelectStatement) -> (r: Result<PlanNode, BustubError>)
    requires
        !select_panics(*sel),
        columns_fit(sel.select_list@.len() as int),
    ensures
        *final(planner) == *old(planner),
        select_planned(*sel, r),
{
    if sel.ctes.len() > 0 {
        return Err(BustubError::Message(String::from_str("select with cte is not supported yet.")));
    }
    let plan = match &*sel.table {
        TableRef::Empty => {
            return Err(
                BustubError::Message(String::from_str("select with empty table if not supported yet.")),
            );
        },
        t => match plan_table_ref(t) {
            Ok(p) => p,
            Err(e) => {
                return Err(e);
            },
        },
    };
    if sel.where_clause.is_some() {
        return Err(
            BustubError::Message(String::from_str("select with where clause is not supported yet.")),
        );
    }
    let flags = first_flags_of(&sel.select_list);
    let has_having = sel.having.is_some();
    let has_group_by = sel.group_by.len() > 0;
    if flags.1 {
        if has_having {
            return Err(
                BustubError::Message(String::from_str("HAVING on window function is not supported yet.")),
            );
        }
        if has_group_by {
            return Err(
                BustubError::Message(
                    String::from_str("GROUP BY is not allowed to use with window function"),
                ),
            );
        }
        proof {
            assert(false);
        }
        return Err(BustubError::Message(String::new()));
    }
    if flags.0 || has_having || has_group_by {
        proof {
            assert(false);
        }
        return Err(BustubError::Message(String::new()));
    }
    let ghost from_cols = from_columns(*sel);
    assert(plan_output(plan)@.columns == from_cols);
    let children = vec![plan];
    let (_col_names, exprs) = match plan_items(planner, &sel.select_list, &children) {
        Ok(x) => x,
        Err(e) => {
            return Err(e);
        },
    };
    let schema = Rc::new(ProjectionPlanNode::infer_projection_schema(exprs.as_slice()));
    let plan = PlanNode::Projection(
        ProjectionPlanNode { output_schema: schema, children, expressions: exprs },
    );
    let ghost q1 = plan;
    proof {
        let es = sel.select_list@;
        let n_exprs = match q1 {
            PlanNode::Projection(n) => n.expressions@,
            _ => arbitrary(),
        };
        assert(expr_columns(n_exprs) =~= Seq::new(
            es.len(),
            |i: int| renamed(from_cols[index_named(from_cols, ref_name(ref_of(es[i])))], "<unnamed>"@),
        )) by {
            assert forall|i: int| 0 <= i < es.len() implies #[trigger] expr_columns(n_exprs)[i] == renamed(
                from_cols[index_named(from_cols, ref_name(ref_of(es[i])))],
                "<unnamed>"@,
            ) by {
                let x = n_exprs[i];
                assert(reads_column(x, 0, from_cols, ref_name(ref_of(es[i]))));
                match x {
                    AbstractExpression::ColumnValue(v) => {
                        lemma_index_named(from_cols, ref_name(ref_of(es[i])), v.col_idx as int);
                    },
                    _ => {},
                }
            }
        }
        assert(plan_output(q1)@.columns == projected(from_cols, es));
    }
    // DISTINCT is planned as a grouping on every output column.
    let plan = if sel.is_distinct {
        let output_schema = share_schema(plan.output_schema());
        let mut group_bys: Vec<AbstractExpression> = Vec::new();
        {
            let cols = plan.output_schema_ref().get_columns();
            let mut col_idx: usize = 0;
            while col_idx < cols.len()
                invariant
                    0 <= col_idx <= cols@.len(),
                    column_views(cols@) == plan_output(q1)@.columns,
                    group_bys@.len() == col_idx,
                    forall|i: int|
                        0 <= i < col_idx ==> (#[trigger] group_bys@[i] matches AbstractExpression::ColumnValue(
                            v,
                        ) && v.tuple_idx == 0 && v.col_idx == i && v.ret_type@ == plan_output(
                            q1,
                        )@.columns[i]),
                decreases cols@.len() - col_idx,
            {
                assert(column_views(cols@)[col_idx as int] == cols@[col_idx as int]@);
                group_bys.push(
                    AbstractExpression::ColumnValue(
                        ColumnValueExpression {
                            tuple_idx: 0,
                            col_idx,
                            ret_type: cols[col_idx].duplicate(),
                        },
                    ),
                );
                col_idx += 1;
            }
        }
        let agg = PlanNode::Aggregation(
            AggregationPlanNode {
                output_schema,
                children: vec![plan],
                group_bys,
                aggregates: Vec::new(),
                agg_types: Vec::new(),
            },
        );
        proof {
            let ghost g = agg;
            match g {
                PlanNode::Aggregation(n) => {
                    assert(n.children@ == seq![q1]);
                    assert(n.output_schema == plan_output(q1));
                    assert(n.aggregates@.len() == 0);
                    assert(n.group_bys@.len() == plan_output(q1)@.columns.len());
                },
                _ => {},
            }
        }
        agg
    } else {
        plan
    };
    let ghost q2 = plan;
    assert(plan_output(q2) == plan_output(q1));
    let ghost proj_cols = plan_output(q2)@.columns;
    // ORDER BY
    let plan = if sel.sort.len() == 0 {
        plan
    } else {
        let output_schema = share_schema(plan.output_schema());
        let children = vec![plan];
        let mut order_bys: Vec<(crate::binder::expression::OrderByType, AbstractExpression)> = Vec::new();
        let ghost es = sort_exprs(*sel);
        let mut i: usize = 0;
        assert(es.subrange(0, es.len() as int) =~= es);
        while i < sel.sort.len()
            invariant
                0 <= i <= sel.sort@.len(),
                es == sort_exprs(*sel),
                children@ == seq![q2],
                from_error(*sel) is None,
                window_error(*sel) is None,
                from_cols == from_columns(*sel),
                items_error(from_cols, sel.select_list@) is None,
                proj_cols == projected(from_cols, sel.select_list@),
                proj_cols == plan_output(q2)@.columns,
                items_error(proj_cols, es) == items_error(
                    proj_cols,
                    es.subrange(i as int, es.len() as int),
                ),
                !items_panic(proj_cols, es.subrange(i as int, es.len() as int)),
                order_bys@.len() == i,
                forall|j: int|
                    0 <= j < i ==> (#[trigger] order_bys@[j]).0 == sel.sort@[j].order_by_type
                        && reads_column(order_bys@[j].1, 0, proj_cols, ref_name(ref_of(es[j]))),
            decreases sel.sort@.len() - i,
        {
            let ghost rest = es.subrange(i as int, es.len() as int);
            assert(rest[0] == es[i as int]);
            assert(rest.drop_first() =~= es.subrange(i + 1, es.len() as int));
            let ob = &sel.sort[i];
            let planned = plan_expression(planner, &*ob.expr, children.as_slice());
            match planned {
                Ok((_name, expr)) => {
                    order_bys.push((ob.order_by_type, expr));
                },
                Err(e) => {
                    assert(from_error(*sel) is None);
                    assert(window_error(*sel) is None);
                    assert(items_error(from_cols, sel.select_list@) is None);
                    assert(proj_cols == projected(from_cols, sel.select_list@));
                    let ghost rest = es.subrange(i as int, es.len() as int);
                    assert(item_error(proj_cols, rest[0]) is Some);
                    assert(items_error(proj_cols, rest) is Some);
                    assert(tail_error(*sel, proj_cols) == items_error(proj_cols, es));
                    assert(select_error(*sel) == items_error(proj_cols, es));
                    return Err(e);
                },
            }
            i += 1;
        }
        PlanNode::Sort(SortPlanNode { output_schema, children, order_bys })
    };
    let ghost q3 = plan;
    // LIMIT / OFFSET
    match (&sel.limit_count, &sel.limit_offset) {
        (None, None) => {
            assert(is_projection(*sel, q1));
            assert(distinct_layer(*sel, q2, q1));
            assert(sort_layer(*sel, q3, q2));
            assert(limit_layer(*sel, plan, q3));
            Ok(plan)
        },
        (Some(count), None) => {
            match count {
                BoundExpression::BoundConstant(c) => {
                    if c.val.get_type_id() == TypeId::Integer {
                        let n = c.val.get_as_i32() as usize;
                        let output_schema = share_schema(plan.output_schema());
                        let p = PlanNode::Limit(
                            LimitPlanNode { output_schema, children: vec![plan], limit: n },
                        );
                        assert(is_projection(*sel, q1));
                        assert(distinct_layer(*sel, q2, q1));
                        assert(sort_layer(*sel, q3, q2));
                        proof {
                            let ghost g = p;
                            match g {
                                PlanNode::Limit(ln) => {
                                    assert(ln.children@ == seq![q3]);
                                    assert(ln.output_schema == plan_output(q3));
                                    assert(constant_int(*count) == c.val@.datum->Int_0);
                                    assert(ln.limit == (constant_int(*count) as i32) as usize);
                                },
                                _ => {},
                            }
                        }
                        assert(limit_layer(*sel, p, q3));
                        Ok(p)
                    } else {
                        Err(BustubError::Message(String::from_str("LIMIT clause must be an integer constant")))
                    }
                },
                _ => Err(BustubError::Message(String::from_str("LIMIT clause must be an integer constant"))),
            }
        },
        (_, Some(offset)) => {
            match offset {
                BoundExpression::BoundConstant(c) => {
                    if c.val.get_type_id() == TypeId::Integer {
                        Err(BustubError::Message(String::from_str("OFFSET clause is not supported yet.")))
                    } else {
                        Err(BustubError::Message(String::from_str("OFFSET clause must be an integer constant")))
                    }
                },
                _ => Err(BustubError::Message(String::from_str("OFFSET clause must be an integer constant"))),
            }
        },
    }
}

/// A SELECT with an integer LIMIT `n` (not negative) is planned with a
/// Limit node of limit `n` at its root, whose one child is the plan of the
/// same SELECT without its LIMIT and whose output is that child's.
pub proof fn law_limit_is_the_root(sel: SelectStatement, p: PlanNode, n: int)
    requires
        select_planned(sel, Ok(p)),
        sel.limit_count matches Some(BoundExpression::BoundConstant(k)) && k.val@.datum == Datum::Int(n),
        0 <= n <= i32::MAX,
    ensures
        p matches PlanNode::Limit(l) && l.limit == n && l.children@.len() == 1 && l.output_schema == plan_output(
            l.children@[0],
        ) && is_select_plan(SelectStatement { limit_count: None, ..sel }, l.children@[0]),
{
    let (q1, q2, q3) = choose|q1: PlanNode, q2: PlanNode, q3: PlanNode|
        is_projection(sel, q1) && distinct_layer(sel, q2, q1) && sort_layer(sel, q3, q2) && limit_layer(sel, p, q3);
    let unlimited = SelectStatement { limit_count: None, ..sel };
    assert(is_projection(unlimited, q1));
    assert(distinct_layer(unlimited, q2, q1));
    assert(sort_layer(unlimited, q3, q2));
    assert(limit_layer(unlimited, q3, q3));
    match p {
        PlanNode::Limit(l) => {
            assert(l.children@ == seq![q3]);
            assert(l.children@[0] == q3);
        },
        _ => {},
    }
}

/// The root of a SELECT's plan is its outermost clause: a Limit node when
/// it has a LIMIT, else a Sort node when it has an ORDER BY, else an
/// Aggregation node without aggregates when it is DISTINCT, else the
/// projection of its select list; and LIMIT, ORDER BY and DISTINCT never
/// change the columns that the projection outputs.
pub proof fn law_select_plan_root(sel: SelectStatement, p: PlanNode)
    requires
        is_select_plan(sel, p),
    ensures
        sel.limit_count is Some ==> p is Limit,
        sel.limit_count is None && sel.sort@.len() > 0 ==> p is Sort,
        sel.limit_count is None && sel.sort@.len() == 0 && sel.is_distinct ==> (p matches PlanNode::Aggregation(
            n,
        ) && n.aggregates@.len() == 0),
        sel.limit_count is None && sel.sort@.len() == 0 && !sel.is_distinct ==> is_projection(sel, p),
        exists|q: PlanNode| is_projection(sel, q) && plan_output(p) == plan_output(q),
{
    let (q1, q2, q3) = choose|q1: PlanNode, q2: PlanNode, q3: PlanNode|
        is_projection(sel, q1) && distinct_layer(sel, q2, q1) && sort_layer(sel, q3, q2) && limit_layer(sel, p, q3);
    assert(plan_output(q2) == plan_output(q1));
    assert(plan_output(q3) == plan_output(q2));
    assert(plan_output(p) == plan_output(q3));
}

} // verus!
