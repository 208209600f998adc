use std::collections::HashMap;
use vstd::prelude::*;

use crate::binder::expression::OrderByType;
use crate::binder::table_ref::{visible_name, BaseTableRef};
use crate::catalog::catalog::{IndexOid, TableOid};
use crate::catalog::column::{type_size, Column, ColumnView};
use crate::catalog::schema::{
    column_views, lemma_few_small_columns_fit, lemma_layout_concat, lemma_layout_same_sizes,
    layout_offset, schema_of, Schema, SchemaRef, SchemaView, columns_fit,
};
use crate::execution::expressions::{return_column, AbstractExpression};
use crate::sql_type::sql_type::CmpBool;
use crate::sql_type::type_id::TypeId;
use crate::sql_type::value::{compare_datums, seq_compare, Datum, Value};

verus! {

/// JoinType enumerates all possible join types.
#[derive(Debug, Clone, Copy, PartialEq, Eq, Structural)]
pub enum JoinType {
    Invalid,
    Left,
    Right,
    Inner,
    Outer,
}

/// AggregationType enumerates all possible aggregation functions.
#[derive(Debug, Clone, Copy, PartialEq, Eq, Structural)]
pub enum AggregationType {
    CountStar,
    Count,
    Sum,
    Min,
    Max,
}

/// WindowFunctionType enumerates all possible window functions.
#[derive(Debug, Clone, Copy, PartialEq, Eq, Structural)]
pub enum WindowFunctionType {
    CountStar,
    Count,
    Sum,
    Min,
    Max,
    Rank,
}

/// AggregateKey represents a key used for grouping in an aggregation operation.
pub struct AggregateKey {
    /// The group-by values.
    pub group_bys: Vec<Value>,
}

/// AggregateValue represents the running aggregate values.
pub struct AggregateValue {
    /// The aggregate values.
    pub aggregates: Vec<Value>,
}

/// SeqScanPlanNode represents a sequential table scan operation.
pub struct SeqScanPlanNode {
    /// The output schema of this plan node.
    pub output_schema: SchemaRef,
    /// The identifier of the table to be scanned.
    pub table_oid: TableOid,
    /// The name of the table to be scanned.
    pub table_name: String,
    /// An optional filter predicate pushed down to the scan.
    pub filter_predicate: Option<AbstractExpression>,
}

/// IndexScanPlanNode identifies a table to be scanned via an index with an optional predicate.
pub struct IndexScanPlanNode {
    /// The output schema of this plan node.
    pub output_schema: SchemaRef,
    /// The identifier of the table on which the index is created.
    pub table_oid: TableOid,
    /// The identifier of the index whose tuples should be scanned.
    pub index_oid: IndexOid,
    /// An optional filter predicate pushed down to the index scan.
    pub filter_predicate: Option<AbstractExpression>,
    /// The constant value keys for point lookup (e.g., `WHERE v = 1`).
    pub pred_keys: Vec<AbstractExpression>,
}

/// InsertPlanNode identifies a table into which tuples are inserted.
///
/// The values to be inserted come from the child plan node.
pub struct InsertPlanNode {
    /// The output schema of this plan node.
    pub output_schema: SchemaRef,
    /// The child plans of this plan node.
    pub children: Vec<PlanNode>,
    /// The identifier of the table to insert into.
    pub table_oid: TableOid,
}

/// UpdatePlanNode identifies a table that should be updated.
///
/// The tuples to be updated come from the child plan node.
pub struct UpdatePlanNode {
    /// The output schema of this plan node.
    pub output_schema: SchemaRef,
    /// The child plans of this plan node.
    pub children: Vec<PlanNode>,
    /// The identifier of the table to be updated.
    pub table_oid: TableOid,
    /// The target expressions for new column values.
    pub target_expressions: Vec<AbstractExpression>,
}

/// DeletePlanNode identifies a table from which tuples should be deleted.
///
/// The tuples to be deleted come from the child plan node.
pub struct DeletePlanNode {
    /// The output schema of this plan node.
    pub output_schema: SchemaRef,
    /// The child plans of this plan node.
    pub children: Vec<PlanNode>,
    /// The identifier of the table from which tuples are deleted.
    pub table_oid: TableOid,
}

/// AggregationPlanNode represents SQL aggregation functions (COUNT, SUM, MIN, MAX, etc.).
///
/// NOTE: AggregationPlanNode must always have exactly one child.
pub struct AggregationPlanNode {
    /// The output schema of this plan node.
    pub output_schema: SchemaRef,
    /// The child plans of this plan node.
    pub children: Vec<PlanNode>,
    /// The GROUP BY expressions.
    pub group_bys: Vec<AbstractExpression>,
    /// The aggregation expressions.
    pub aggregates: Vec<AbstractExpression>,
    /// The aggregation function types.
    pub agg_types: Vec<AggregationType>,
}

/// LimitPlanNode constrains the number of output tuples produced by its child executor.
pub struct LimitPlanNode {
    /// The output schema of this plan node.
    pub output_schema: SchemaRef,
    /// The child plans of this plan node.
    pub children: Vec<PlanNode>,
    /// The maximum number of tuples to output.
    pub limit: usize,
}

/// NestedLoopJoinPlanNode joins tuples from two child plan nodes.
pub struct NestedLoopJoinPlanNode {
    /// The output schema of this plan node.
    pub output_schema: SchemaRef,
    /// The child plans of this plan node (left and right inputs).
    pub children: Vec<PlanNode>,
    /// The join predicate. Tuples are joined if predicate(tuple) is true.
    pub predicate: AbstractExpression,
    /// The join type (inner, left, right, outer).
    pub join_type: JoinType,
}

/// NestedIndexJoinPlanNode represents a nested index join between two tables.
///
/// The outer table tuples are propagated from the child, but the inner table tuples
/// are obtained using the outer table tuples and an index from the catalog.
pub struct NestedIndexJoinPlanNode {
    /// The output schema of this plan node.
    pub output_schema: SchemaRef,
    /// The child plans of this plan node.
    pub children: Vec<PlanNode>,
    /// The predicate to extract the join key from the outer (child) tuple.
    pub key_predicate: AbstractExpression,
    /// The table OID of the inner table.
    pub inner_table_oid: TableOid,
    /// The index OID for the index on the inner table.
    pub index_oid: IndexOid,
    /// The name of the index.
    pub index_name: String,
    /// The name of the inner table.
    pub index_table_name: String,
    /// The schema of the inner table.
    pub inner_table_schema: SchemaRef,
    /// The join type.
    pub join_type: JoinType,
}

/// HashJoinPlanNode performs a hash join between two child plan nodes.
pub struct HashJoinPlanNode {
    /// The output schema of this plan node.
    pub output_schema: SchemaRef,
    /// The child plans of this plan node (left and right inputs).
    pub children: Vec<PlanNode>,
    /// The expressions for computing the left join key.
    pub left_key_expressions: Vec<AbstractExpression>,
    /// The expressions for computing the right join key.
    pub right_key_expressions: Vec<AbstractExpression>,
    /// The join type.
    pub join_type: JoinType,
}

/// FilterPlanNode represents a filter operation.
///
/// It retains any tuple from its child that satisfies the predicate.
pub struct FilterPlanNode {
    /// The output schema of this plan node.
    pub output_schema: SchemaRef,
    /// The child plans of this plan node.
    pub children: Vec<PlanNode>,
    /// The predicate to test tuples against.
    pub predicate: AbstractExpression,
}

/// ValuesPlanNode represents rows of literal values.
///
/// For example, `INSERT INTO table VALUES ((0, 1), (1, 2))` produces
/// `(0, 1)` and `(1, 2)` as the output of this executor.
pub struct ValuesPlanNode {
    /// The output schema of this plan node.
    pub output_schema: SchemaRef,
    /// The literal values produced by this plan node. Each inner vector
    /// represents one row of values.
    pub values: Vec<Vec<AbstractExpression>>,
}

/// ProjectionPlanNode represents a projection operation.
///
/// It computes expressions based on the input from its child.
pub struct ProjectionPlanNode {
    /// The output schema of this plan node.
    pub output_schema: SchemaRef,
    /// The child plans of this plan node.
    pub children: Vec<PlanNode>,
    /// The projection expressions to evaluate.
    pub expressions: Vec<AbstractExpression>,
}

/// SortPlanNode represents a sort operation.
///
/// It sorts the input tuples according to the given order-by expressions.
pub struct SortPlanNode {
    /// The output schema of this plan node.
    pub output_schema: SchemaRef,
    /// The child plans of this plan node.
    pub children: Vec<PlanNode>,
    /// The order-by expressions and their sort directions.
    pub order_bys: Vec<(OrderByType, AbstractExpression)>,
}

/// TopNPlanNode represents a top-N operation.
///
/// It retains only the N extreme rows based on the order-by expressions.
pub struct TopNPlanNode {
    /// The output schema of this plan node.
    pub output_schema: SchemaRef,
    /// The child plans of this plan node.
    pub children: Vec<PlanNode>,
    /// The order-by expressions and their sort directions.
    pub order_bys: Vec<(OrderByType, AbstractExpression)>,
    /// The maximum number of rows to retain.
    pub n: usize,
}

/// TopNPerGroupPlanNode represents a top-N per group operation.
pub struct TopNPerGroupPlanNode {
    /// The output schema of this plan node.
    pub output_schema: SchemaRef,
    /// The child plans of this plan node.
    pub children: Vec<PlanNode>,
    /// The group-by expressions.
    pub group_bys: Vec<AbstractExpression>,
    /// The order-by expressions and their sort directions.
    pub order_bys: Vec<(OrderByType, AbstractExpression)>,
    /// The maximum number of rows to retain per group.
    pub n: usize,
}

/// MockScanPlanNode represents a dummy sequential scan over a table.
///
/// Unlike SeqScanPlanNode, this does not require the table to exist.
/// NOTE: This class is used solely for testing.
pub struct MockScanPlanNode {
    /// The output schema of this plan node.
    pub output_schema: SchemaRef,
    /// The table name used to determine generated content.
    pub table: String,
}

/// WindowFunction represents a single window function inside WindowFunctionPlanNode.
pub struct WindowFunction {
    /// The expression being aggregated.
    pub function: AbstractExpression,
    /// The type of window function.
    pub func_type: WindowFunctionType,
    /// The PARTITION BY expressions.
    pub partition_by: Vec<AbstractExpression>,
    /// The ORDER BY expressions and directions.
    pub order_by: Vec<(OrderByType, AbstractExpression)>,
}

/// WindowFunctionPlanNode represents window function operations.
///
/// Window aggregation is different from normal aggregation as it outputs one row
/// for each input row, and can be combined with normal selected columns.
pub struct WindowFunctionPlanNode {
    /// The output schema of this plan node.
    pub output_schema: SchemaRef,
    /// The child plans of this plan node.
    pub children: Vec<PlanNode>,
    /// All column expressions including placeholders for window functions.
    pub columns: Vec<AbstractExpression>,
    /// A map from column index to the window function definition.
    pub window_functions: HashMap<usize, WindowFunction>,
}

/// PlanNode represents all possible types of plan nodes in the system.
///
/// Plan nodes are modeled as trees, so each plan node can have a variable
/// number of children. Per the Volcano model, the plan node receives the
/// tuples of its children. The ordering of the children may matter.
pub enum PlanNode {
    SeqScan(SeqScanPlanNode),
    IndexScan(IndexScanPlanNode),
    Insert(InsertPlanNode),
    Update(UpdatePlanNode),
    Delete(DeletePlanNode),
    Aggregation(AggregationPlanNode),
    Limit(LimitPlanNode),
    NestedLoopJoin(NestedLoopJoinPlanNode),
    NestedIndexJoin(NestedIndexJoinPlanNode),
    HashJoin(HashJoinPlanNode),
    Filter(FilterPlanNode),
    Values(ValuesPlanNode),
    Projection(ProjectionPlanNode),
    Sort(SortPlanNode),
    TopN(TopNPlanNode),
    TopNPerGroup(TopNPerGroupPlanNode),
    MockScan(MockScanPlanNode),
    Window(WindowFunctionPlanNode),
}

/// The output schema of a plan node.
pub open spec fn plan_output(p: PlanNode) -> SchemaRef {
    match p {
        PlanNode::SeqScan(n) => n.output_schema,
        PlanNode::IndexScan(n) => n.output_schema,
        PlanNode::Insert(n) => n.output_schema,
        PlanNode::Update(n) => n.output_schema,
        PlanNode::Delete(n) => n.output_schema,
        PlanNode::Aggregation(n) => n.output_schema,
        PlanNode::Limit(n) => n.output_schema,
        PlanNode::NestedLoopJoin(n) => n.output_schema,
        PlanNode::NestedIndexJoin(n) => n.output_schema,
        PlanNode::HashJoin(n) => n.output_schema,
        PlanNode::Filter(n) => n.output_schema,
        PlanNode::Values(n) => n.output_schema,
        PlanNode::Projection(n) => n.output_schema,
        PlanNode::Sort(n) => n.output_schema,
        PlanNode::TopN(n) => n.output_schema,
        PlanNode::TopNPerGroup(n) => n.output_schema,
        PlanNode::MockScan(n) => n.output_schema,
        PlanNode::Window(n) => n.output_schema,
    }
}

/// The children of a plan node, in order; scans and value lists have none.
pub open spec fn plan_children(p: PlanNode) -> Seq<PlanNode> {
    match p {
        PlanNode::SeqScan(_) => Seq::empty(),
        PlanNode::IndexScan(_) => Seq::empty(),
        PlanNode::Values(_) => Seq::empty(),
        PlanNode::MockScan(_) => Seq::empty(),
        PlanNode::Insert(n) => n.children@,
        PlanNode::Update(n) => n.children@,
        PlanNode::Delete(n) => n.children@,
        PlanNode::Aggregation(n) => n.children@,
        PlanNode::Limit(n) => n.children@,
        PlanNode::NestedLoopJoin(n) => n.children@,
        PlanNode::NestedIndexJoin(n) => n.children@,
        PlanNode::HashJoin(n) => n.children@,
        PlanNode::Filter(n) => n.children@,
        PlanNode::Projection(n) => n.children@,
        PlanNode::Sort(n) => n.children@,
        PlanNode::TopN(n) => n.children@,
        PlanNode::TopNPerGroup(n) => n.children@,
        PlanNode::Window(n) => n.children@,
    }
}

/// The name of a plan node's kind.
pub open spec fn plan_name(p: PlanNode) -> Seq<char> {
    match p {
        PlanNode::SeqScan(_) => "SeqScan"@,
        PlanNode::IndexScan(_) => "IndexScan"@,
        PlanNode::Insert(_) => "Insert"@,
        PlanNode::Update(_) => "Update"@,
        PlanNode::Delete(_) => "Delete"@,
        PlanNode::Aggregation(_) => "Aggregation"@,
        PlanNode::Limit(_) => "Limit"@,
        PlanNode::NestedLoopJoin(_) => "NestedLoopJoin"@,
        PlanNode::NestedIndexJoin(_) => "NestedIndexJoin"@,
        PlanNode::HashJoin(_) => "HashJoin"@,
        PlanNode::Filter(_) => "Filter"@,
        PlanNode::Values(_) => "Values"@,
        PlanNode::Projection(_) => "Projection"@,
        PlanNode::Sort(_) => "Sort"@,
        PlanNode::TopN(_) => "TopN"@,
        PlanNode::TopNPerGroup(_) => "TopNPerGroup"@,
        PlanNode::MockScan(_) => "MockScan"@,
        PlanNode::Window(_) => "Window"@,
    }
}

/// The column `c` under the name `name`.
pub open spec fn renamed(c: ColumnView, name: Seq<char>) -> ColumnView {
    ColumnView { name, ..c }
}

/// The columns of a scan of a table known as `table`: each named
/// `table.column`.
pub open spec fn scan_columns(table: Seq<char>, cols: Seq<ColumnView>) -> Seq<ColumnView> {
    cols.map_values(|c: ColumnView| renamed(c, table + seq!['.'] + c.name))
}

/// The result columns of expressions, each named `<unnamed>`.
pub open spec fn expr_columns(es: Seq<AbstractExpression>) -> Seq<ColumnView> {
    es.map_values(|e: AbstractExpression| renamed(return_column(e), "<unnamed>"@))
}

/// The INTEGER result column of an aggregate, named `<unnamed>`.
pub open spec fn aggregate_column() -> ColumnView {
    ColumnView {
        name: "<unnamed>"@,
        type_id: TypeId::Integer,
        length: type_size(TypeId::Integer, 0),
        offset: 0,
    }
}

/// `cols` with their names replaced, in order, by `names`.
pub open spec fn renamed_columns(cols: Seq<ColumnView>, names: Seq<Seq<char>>) -> Seq<ColumnView> {
    Seq::new(cols.len(), |i: int| renamed(cols[i], names[i]))
}

/// The name every inferred column carries.
fn unnamed() -> (r: String)
    ensures
        r@ == "<unnamed>"@,
{
    String::from_str("<unnamed>")
}

/// Builds the schema of the result columns of `exprs`, renamed `<unnamed>`,
/// followed by `extra` INTEGER aggregate columns.
fn schema_of_exprs(exprs: &[AbstractExpression], extra: usize) -> (r: Schema)
    requires
        columns_fit(exprs@.len() + extra),
    ensures
        r@ == schema_of(
            expr_columns(exprs@) + Seq::new(extra as nat, |i: int| aggregate_column()),
        ),
{
    let ghost target = expr_columns(exprs@) + Seq::new(extra as nat, |i: int| aggregate_column());
    let mut output: Vec<Column> = Vec::with_capacity(exprs.len() + extra);
    let mut i: usize = 0;
    while i < exprs.len()
        invariant
            0 <= i <= exprs@.len(),
            columns_fit(exprs@.len() + extra),
            target == expr_columns(exprs@) + Seq::new(extra as nat, |i: int| aggregate_column()),
            column_views(output@) == target.take(i as int),
            forall|j: int| 0 <= j < i ==> #[trigger] target[j].type_id != TypeId::Varchar ==> target[j].length <= 8,
        decreases exprs@.len() - i,
    {
        let return_type = exprs[i].get_return_type();
        proof {
            use_type_invariant(&return_type);
        }
        let c = return_type.with_column_name(unnamed());
        proof {
            assert(column_views(output@.push(c)) =~= column_views(output@).push(c@));
            assert(target.take(i as int + 1) =~= target.take(i as int).push(target[i as int]));
        }
        output.push(c);
        i += 1;
    }
    let mut k: usize = 0;
    while k < extra
        invariant
            0 <= k <= extra,
            i == exprs@.len(),
            columns_fit(exprs@.len() + extra),
            target == expr_columns(exprs@) + Seq::new(extra as nat, |i: int| aggregate_column()),
            column_views(output@) == target.take(i + k),
            forall|j: int| 0 <= j < i + k ==> #[trigger] target[j].type_id != TypeId::Varchar ==> target[j].length <= 8,
        decreases extra - k,
    {
        let c = Column::new(unnamed(), TypeId::Integer);
        proof {
            assert(column_views(output@.push(c)) =~= column_views(output@).push(c@));
            assert(target.take(i + k + 1) =~= target.take(i + k).push(target[i + k]));
        }
        output.push(c);
        k += 1;
    }
    proof {
        assert(target.take(i + k) =~= target);
        lemma_few_small_columns_fit(target);
    }
    Schema::new(output)
}

impl SeqScanPlanNode {
    /// Infer the scan schema from a table reference by prefixing each column
    /// name with the bound table name.
    pub fn infer_scan_schema(table: &BaseTableRef) -> (r: Schema)
        ensures
            r@ == schema_of(scan_columns(visible_name(*table), table.schema@.columns)),
    {
        let ghost target = scan_columns(visible_name(*table), table.schema@.columns);
        proof {
            use_type_invariant(&table.schema);
        }
        let columns = table.schema.get_columns();
        let mut output: Vec<Column> = Vec::with_capacity(columns.len());
        let mut i: usize = 0;
        while i < columns.len()
            invariant
                0 <= i <= columns@.len(),
                column_views(columns@) == table.schema@.columns,
                target == scan_columns(visible_name(*table), table.schema@.columns),
                column_views(output@) == target.take(i as int),
            decreases columns@.len() - i,
        {
            let c = &columns[i];
            let mut name = String::from_str(table.get_table_name());
            name.append(".");
            name.append(c.get_name());
            proof {
                reveal_strlit(".");
                assert(name@ =~= visible_name(*table) + seq!['.'] + c@.name);
            }
            let nc = Column::new_with_name(name, c);
            proof {
                assert(column_views(output@.push(nc)) =~= column_views(output@).push(nc@));
                assert(target.take(i as int + 1) =~= target.take(i as int).push(target[i as int]));
            }
            output.push(nc);
            i += 1;
        }
        proof {
            assert(target.take(i as int) =~= target);
            assert forall|j: int| 0 <= j < target.len() implies #[trigger] target[j].type_id
                == table.schema@.columns[j].type_id && target[j].length
                == table.schema@.columns[j].length by {}
            lemma_layout_same_sizes(target, table.schema@.columns, target.len() as int);
        }
        Schema::new(output)
    }
}

impl NestedLoopJoinPlanNode {
    /// Infer the join schema by concatenating the output schemas of the left
    /// and right child plan nodes.
    pub fn infer_join_schema(left: &PlanNode, right: &PlanNode) -> (r: Schema)
        requires
            plan_output(*left)@.length + plan_output(*right)@.length <= usize::MAX,
            plan_output(*left)@.columns.len() + plan_output(*right)@.columns.len() <= u32::MAX,
        ensures
            r@ == schema_of(plan_output(*left)@.columns + plan_output(*right)@.columns),
    {
        let ls = left.output_schema_ref();
        let rs = right.output_schema_ref();
        proof {
            use_type_invariant(ls);
            use_type_invariant(rs);
        }
        let left_columns = ls.get_columns();
        let right_columns = rs.get_columns();
        let ghost target = ls@.columns + rs@.columns;
        let mut schema: Vec<Column> = Vec::new();
        let mut i: usize = 0;
        while i < left_columns.len()
            invariant
                0 <= i <= left_columns@.len(),
                column_views(left_columns@) == ls@.columns,
                target == ls@.columns + rs@.columns,
                column_views(schema@) == target.take(i as int),
            decreases left_columns@.len() - i,
        {
            let c = left_columns[i].duplicate();
            proof {
                assert(column_views(schema@.push(c)) =~= column_views(schema@).push(c@));
                assert(target.take(i as int + 1) =~= target.take(i as int).push(target[i as int]));
            }
            schema.push(c);
            i += 1;
        }
        let mut j: usize = 0;
        while j < right_columns.len()
            invariant
                0 <= j <= right_columns@.len(),
                i == ls@.columns.len(),
                column_views(right_columns@) == rs@.columns,
                target == ls@.columns + rs@.columns,
                column_views(schema@) == target.take(i + j),
            decreases right_columns@.len() - j,
        {
            let c = right_columns[j].duplicate();
            proof {
                assert(column_views(schema@.push(c)) =~= column_views(schema@).push(c@));
                assert(target.take(i + j + 1) =~= target.take(i + j).push(target[i + j]));
            }
            schema.push(c);
            j += 1;
        }
        proof {
            assert(target.take(i + j) =~= target);
            lemma_layout_concat(ls@.columns, rs@.columns, rs@.columns.len() as int);
        }
        Schema::new(schema)
    }
}

impl ProjectionPlanNode {
    /// Infer the projection schema from a list of expressions.
    pub fn infer_projection_schema(expressions: &[AbstractExpression]) -> (r: Schema)
        requires
            columns_fit(expressions@.len() as int),
        ensures
            r@ == schema_of(expr_columns(expressions@)),
    {
        let r = schema_of_exprs(expressions, 0);
        assert(expr_columns(expressions@) + Seq::new(0nat, |i: int| aggregate_column())
            =~= expr_columns(expressions@));
        r
    }

    /// Rename the columns of a schema according to the provided column names.
    pub fn rename_schema(schema: &Schema, col_names: &[String]) -> (r: Schema)
        requires
            col_names@.len() == schema@.columns.len(),
        ensures
            r@ == schema_of(
                renamed_columns(schema@.columns, col_names@.map_values(|s: String| s@)),
            ),
    {
        proof {
            use_type_invariant(schema);
        }
        let ghost target = renamed_columns(schema@.columns, col_names@.map_values(|s: String| s@));
        let columns = schema.get_columns();
        let mut output: Vec<Column> = Vec::with_capacity(col_names.len());
        let mut idx: usize = 0;
        while idx < columns.len()
            invariant
                0 <= idx <= columns@.len(),
                col_names@.len() == columns@.len(),
                column_views(columns@) == schema@.columns,
                target == renamed_columns(schema@.columns, col_names@.map_values(|s: String| s@)),
                column_views(output@) == target.take(idx as int),
            decreases columns@.len() - idx,
        {
            let c = Column::new_with_name(col_names[idx].clone(), &columns[idx]);
            proof {
                assert(column_views(output@.push(c)) =~= column_views(output@).push(c@));
                assert(target.take(idx as int + 1) =~= target.take(idx as int).push(
                    target[idx as int],
                ));
            }
            output.push(c);
            idx += 1;
        }
        proof {
            assert(target.take(idx as int) =~= target);
            assert forall|j: int| 0 <= j < target.len() implies #[trigger] target[j].type_id
                == schema@.columns[j].type_id && target[j].length == schema@.columns[j].length by {}
            lemma_layout_same_sizes(target, schema@.columns, target.len() as int);
        }
        Schema::new(output)
    }
}

impl AggregationPlanNode {
    /// Infer the aggregation schema from the group-by and aggregate expressions.
    ///
    /// The output schema consists of the group-by columns followed by the
    /// aggregate columns (which are currently inferred as INTEGER).
    pub fn infer_agg_schema(
        group_bys: &[AbstractExpression],
        aggregates: &[AbstractExpression],
        agg_types: &[AggregationType],
    ) -> (r: Schema)
        requires
            columns_fit((group_bys@.len() + aggregates@.len()) as int),
        ensures
            r@ == schema_of(
                expr_columns(group_bys@) + Seq::new(
                    aggregates@.len(),
                    |i: int| aggregate_column(),
                ),
            ),
    {
        schema_of_exprs(group_bys, aggregates.len())
    }
}

impl WindowFunctionPlanNode {
    /// Infer the window function schema from the list of column expressions.
    pub fn infer_window_schema(columns: &[AbstractExpression]) -> (r: Schema)
        requires
            columns_fit(columns@.len() as int),
        ensures
            r@ == schema_of(expr_columns(columns@)),
    {
        ProjectionPlanNode::infer_projection_schema(columns)
    }
}

impl PlanNode {
    /// Returns a reference to the output schema of this plan node.
    pub fn output_schema(&self) -> (r: &SchemaRef)
        ensures
            *r == plan_output(*self),
    {
        match self {
            PlanNode::SeqScan(n) => &n.output_schema,
            PlanNode::IndexScan(n) => &n.output_schema,
            PlanNode::Insert(n) => &n.output_schema,
            PlanNode::Update(n) => &n.output_schema,
            PlanNode::Delete(n) => &n.output_schema,
            PlanNode::Aggregation(n) => &n.output_schema,
            PlanNode::Limit(n) => &n.output_schema,
            PlanNode::NestedLoopJoin(n) => &n.output_schema,
            PlanNode::NestedIndexJoin(n) => &n.output_schema,
            PlanNode::HashJoin(n) => &n.output_schema,
            PlanNode::Filter(n) => &n.output_schema,
            PlanNode::Values(n) => &n.output_schema,
            PlanNode::Projection(n) => &n.output_schema,
            PlanNode::Sort(n) => &n.output_schema,
            PlanNode::TopN(n) => &n.output_schema,
            PlanNode::TopNPerGroup(n) => &n.output_schema,
            PlanNode::MockScan(n) => &n.output_schema,
            PlanNode::Window(n) => &n.output_schema,
        }
    }

    /// Returns a reference to the output schema of this plan node.
    pub fn output_schema_ref(&self) -> (r: &Schema)
        ensures
            *r == *plan_output(*self),
    {
        &**self.output_schema()
    }

    /// Returns the children of this plan node.
    pub fn get_children(&self) -> (r: &[PlanNode])
        ensures
            r@ == plan_children(*self),
    {
        match self {
            PlanNode::SeqScan(_) => &[],
            PlanNode::IndexScan(_) => &[],
            PlanNode::Values(_) => &[],
            PlanNode::MockScan(_) => &[],
            PlanNode::Insert(n) => n.children.as_slice(),
            PlanNode::Update(n) => n.children.as_slice(),
            PlanNode::Delete(n) => n.children.as_slice(),
            PlanNode::Aggregation(n) => n.children.as_slice(),
            PlanNode::Limit(n) => n.children.as_slice(),
            PlanNode::NestedLoopJoin(n) => n.children.as_slice(),
            PlanNode::NestedIndexJoin(n) => n.children.as_slice(),
            PlanNode::HashJoin(n) => n.children.as_slice(),
            PlanNode::Filter(n) => n.children.as_slice(),
            PlanNode::Projection(n) => n.children.as_slice(),
            PlanNode::Sort(n) => n.children.as_slice(),
            PlanNode::TopN(n) => n.children.as_slice(),
            PlanNode::TopNPerGroup(n) => n.children.as_slice(),
            PlanNode::Window(n) => n.children.as_slice(),
        }
    }

    /// Returns the child at the given index.
    pub fn get_child_at(&self, child_idx: usize) -> (r: &PlanNode)
        requires
            child_idx < plan_children(*self).len(),
        ensures
            *r == plan_children(*self)[child_idx as int],
    {
        &self.get_children()[child_idx]
    }

    /// Return the number of children.
    pub fn get_child_count(&self) -> (r: usize)
        ensures
            r == plan_children(*self).len(),
    {
        self.get_children().len()
    }

    /// The name of this plan node's kind.
    pub fn to_string(&self) -> (r: String)
        ensures
            r@ == plan_name(*self),
    {
        let s = match self {
            PlanNode::SeqScan(_) => "SeqScan",
            PlanNode::IndexScan(_) => "IndexScan",
            PlanNode::Insert(_) => "Insert",
            PlanNode::Update(_) => "Update",
            PlanNode::Delete(_) => "Delete",
            PlanNode::Aggregation(_) => "Aggregation",
            PlanNode::Limit(_) => "Limit",
            PlanNode::NestedLoopJoin(_) => "NestedLoopJoin",
            PlanNode::NestedIndexJoin(_) => "NestedIndexJoin",
            PlanNode::HashJoin(_) => "HashJoin",
            PlanNode::Filter(_) => "Filter",
            PlanNode::Values(_) => "Values",
            PlanNode::Projection(_) => "Projection",
            PlanNode::Sort(_) => "Sort",
            PlanNode::TopN(_) => "TopN",
            PlanNode::TopNPerGroup(_) => "TopNPerGroup",
            PlanNode::MockScan(_) => "MockScan",
            PlanNode::Window(_) => "Window",
        };
        String::from_str(s)
    }
}

impl MockScanPlanNode {
    /// Returns a reference to the output schema of this plan node.
    pub fn output_schema_ref(&self) -> (r: &Schema)
        ensures
            *r == *self.output_schema,
    {
        &self.output_schema
    }
}

/// Whether two lists of group-by values are equal, value by value.
pub open spec fn keys_equal(a: Seq<Value>, b: Seq<Value>) -> bool {
    &&& a.len() == b.len()
    &&& forall|i: int| 0 <= i < a.len() ==> compare_datums(#[trigger] a[i]@.datum, b[i]@.datum) == Some(0int)
}

impl AggregateKey {
    /// Compares two aggregate keys for equality by comparing each group-by value.
    pub fn equals(&self, other: &AggregateKey) -> (r: bool)
        ensures
            r == keys_equal(self.group_bys@, other.group_bys@),
    {
        if self.group_bys.len() != other.group_bys.len() {
            return false;
        }
        let mut i: usize = 0;
        while i < self.group_bys.len()
            invariant
                0 <= i <= self.group_bys@.len(),
                self.group_bys@.len() == other.group_bys@.len(),
                forall|j: int|
                    0 <= j < i ==> compare_datums(
                        #[trigger] self.group_bys@[j]@.datum,
                        other.group_bys@[j]@.datum,
                    ) == Some(0int),
            decreases self.group_bys@.len() - i,
        {
            if self.group_bys[i].compare_equals(&other.group_bys[i]) != CmpBool::CmpTrue {
                return false;
            }
            i += 1;
        }
        true
    }
}

/// Two strings compare as equal only when they are the same string.
proof fn lemma_seq_compare_zero(a: Seq<char>, b: Seq<char>)
    requires
        seq_compare(a, b) == 0,
    ensures
        a == b,
    decreases a.len(),
{
    if a.len() > 0 && b.len() > 0 {
        lemma_seq_compare_zero(a.drop_first(), b.drop_first());
        let (x, y) = (a[0], b[0]);
        assert((x as u32) == (y as u32));
        vstd::utf8::char_u32_cast(x, x as u32);
        vstd::utf8::char_u32_cast(y, y as u32);
        assert(x == y);
        assert(a =~= seq![a[0]] + a.drop_first());
        assert(b =~= seq![b[0]] + b.drop_first());
    } else {
        assert(a =~= b);
    }
}

/// Aggregate-key equality is symmetric, and a key holding a NULL is equal
/// to no key, itself included.
pub proof fn law_keys_equal_symmetric_and_null(a: Seq<Value>, b: Seq<Value>, i: int)
    ensures
        keys_equal(a, b) ==> keys_equal(b, a),
        0 <= i < a.len() && a[i]@.datum is Null ==> !keys_equal(a, b) && !keys_equal(b, a),
{
    if keys_equal(a, b) {
        assert forall|j: int| 0 <= j < b.len() implies compare_datums(#[trigger] b[j]@.datum, a[j]@.datum)
            == Some(0int) by {
            assert(compare_datums(a[j]@.datum, b[j]@.datum) == Some(0int));
            match (a[j]@.datum, b[j]@.datum) {
                (Datum::Str(x), Datum::Str(y)) => {
                    lemma_seq_compare_zero(x, y);
                    lemma_seq_compare_self(x);
                },
                _ => {},
            }
        }
    }
    if 0 <= i < a.len() && a[i]@.datum is Null {
        if keys_equal(a, b) {
            assert(compare_datums(a[i]@.datum, b[i]@.datum) == Some(0int));
        }
        if keys_equal(b, a) {
            assert(compare_datums(b[i]@.datum, a[i]@.datum) == Some(0int));
        }
    }
}

/// A string compares as equal to itself.
proof fn lemma_seq_compare_self(a: Seq<char>)
    ensures
        seq_compare(a, a) == 0,
    decreases a.len(),
{
    if a.len() > 0 {
        lemma_seq_compare_self(a.drop_first());
    }
}

} // verus!
