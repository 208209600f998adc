use std::rc::Rc;

use bustub::catalog::catalog::Catalog;
use bustub::catalog::column::Column;
use bustub::catalog::schema::{share_schema, Schema};
use bustub::execution::execution_engine::ExecutionEngine;
use bustub::execution::executor_context::ExecutorContext;
use bustub::execution::executors::mock_scan_executor::{get_mock_table_schema_of, MockScanExecutor};
use bustub::execution::expressions::{
    AbstractExpression, ArithmeticType, ComparisonType, LogicType, StringExpressionType,
};
use bustub::execution::executors::projection_executor::ProjectionExecutor;
use bustub::execution::plans::{AggregateKey, MockScanPlanNode, PlanNode, ProjectionPlanNode};
use bustub::sql_type::type_id::TypeId;
use bustub::sql_type::value::Value;
use bustub::storage::tuple::Tuple;

fn mock_plan(table: &str) -> MockScanPlanNode {
    let schema = get_mock_table_schema_of(table).unwrap();
    MockScanPlanNode { output_schema: Rc::new(schema), table: table.to_string() }
}

#[test]
fn string_expressions_change_case() {
    let schema = Schema::new(vec![]);
    let tuple = Tuple::new_with_values(vec![], &schema);
    let lower = AbstractExpression::string(
        StringExpressionType::Lower,
        AbstractExpression::constant_value(Value::from_str("AbÇ Ω")),
    );
    assert_eq!(lower.evaluate(&tuple, &schema).to_string_val(), "abç ω");
    let upper = AbstractExpression::string(
        StringExpressionType::Upper,
        AbstractExpression::constant_value(Value::from_str("straße")),
    );
    assert_eq!(upper.evaluate(&tuple, &schema).to_string_val(), "STRASSE");
}

#[test]
fn mock_table_rows_in_order() {
    let plan = PlanNode::MockScan(mock_plan("__mock_table_1"));
    let ctx = ExecutorContext { catalog: Rc::new(Catalog::new()), is_delete: false };
    let rows = ExecutionEngine {}.execute(&plan, &ctx).unwrap();
    assert_eq!(rows.len(), 100);
    let schema = plan.output_schema_ref();
    for (i, row) in rows.iter().enumerate() {
        assert_eq!(row.get_value(schema, 0).get_as_i32(), i as i32);
        assert_eq!(row.get_value(schema, 1).get_as_i32(), (i * 100) as i32);
    }
}

#[test]
fn shuffled_mock_table_is_a_permutation() {
    let node = mock_plan("__mock_t1");
    let ctx = ExecutorContext { catalog: Rc::new(Catalog::new()), is_delete: false };
    let mut exec = MockScanExecutor::new(&ctx, &node);
    let schema = Schema::new(vec![
        Column::new("x".to_string(), TypeId::Integer),
        Column::new("y".to_string(), TypeId::Integer),
        Column::new("z".to_string(), TypeId::Integer),
    ]);
    let mut seen: Vec<i32> = Vec::new();
    while let Some((tuples, _)) = exec.next(4096) {
        for t in tuples.iter() {
            seen.push(t.get_value(&schema, 2).get_as_i32());
        }
    }
    assert_eq!(seen.len(), 1000000);
    let in_order = seen.iter().enumerate().all(|(i, v)| *v == i as i32);
    assert!(!in_order);
    seen.sort();
    assert!(seen.iter().enumerate().all(|(i, v)| *v == i as i32));
}

#[test]
fn shared_schema_is_the_same_schema() {
    let s = Rc::new(Schema::new(vec![Column::new("a".to_string(), TypeId::Integer)]));
    let t = share_schema(&s);
    assert!(Rc::ptr_eq(&s, &t));
    assert_eq!(Rc::strong_count(&s), 2);
    assert_eq!(t.get_column(0).get_name(), "a");
}

#[test]
fn expressions_print_as_text() {
    let col = AbstractExpression::column_value(0, 1, Column::new("a".to_string(), TypeId::Integer));
    let five = AbstractExpression::constant_value(Value::from_i32(5));
    let eq = AbstractExpression::comparison(ComparisonType::Equal, col, five);
    assert_eq!(eq.to_string(), "(#0.1=5)");
    let sum = AbstractExpression::arithmetic(
        ArithmeticType::Minus,
        AbstractExpression::constant_value(Value::from_i32(7)),
        AbstractExpression::column_value(1, 0, Column::new("b".to_string(), TypeId::Integer)),
    );
    assert_eq!(sum.to_string(), "(7-#1.0)");
    let ne = AbstractExpression::comparison(
        ComparisonType::GreaterThanOrEqual,
        AbstractExpression::constant_value(Value::from_i32(1)),
        AbstractExpression::constant_value(Value::from_i32(2)),
    );
    let lt = AbstractExpression::comparison(
        ComparisonType::NotEqual,
        AbstractExpression::constant_value(Value::from_i32(3)),
        AbstractExpression::constant_value(Value::from_i32(4)),
    );
    let both = AbstractExpression::logic(LogicType::Or, ne, lt);
    assert_eq!(both.to_string(), "((1>=2)or(3!=4))");
    let upper = AbstractExpression::string(
        StringExpressionType::Upper,
        AbstractExpression::constant_value(Value::from_str("ab")),
    );
    assert_eq!(upper.to_string(), "upper(ab)");
    let arr = AbstractExpression::array(vec![
        AbstractExpression::constant_value(Value::from_i32(1)),
        AbstractExpression::constant_value(Value::from_i32(-2)),
        AbstractExpression::array(vec![]),
    ]);
    assert_eq!(arr.to_string(), "[1,-2,[]]");
}

#[test]
fn expression_copy_prints_the_same() {
    let e = AbstractExpression::array(vec![
        AbstractExpression::comparison(
            ComparisonType::LessThan,
            AbstractExpression::column_value(0, 2, Column::new("c".to_string(), TypeId::Integer)),
            AbstractExpression::constant_value(Value::from_i32(10)),
        ),
        AbstractExpression::string(
            StringExpressionType::Lower,
            AbstractExpression::constant_value(Value::from_str("XY")),
        ),
    ]);
    let copy = e.duplicate();
    assert_eq!(copy.to_string(), "[(#0.2<10),lower(XY)]");
    assert_eq!(copy.to_string(), e.to_string());
    assert_eq!(copy.get_child_count(), 2);
}

#[test]
fn projection_batches_restart_on_their_last_row() {
    let scan = mock_plan("__mock_table_1");
    let ctx = ExecutorContext { catalog: Rc::new(Catalog::new()), is_delete: false };
    let out = Schema::new(vec![
        Column::new("a".to_string(), TypeId::Integer),
        Column::new("b".to_string(), TypeId::Integer),
    ]);
    let proj = ProjectionPlanNode {
        output_schema: Rc::new(Schema::new(vec![
            Column::new("a".to_string(), TypeId::Integer),
            Column::new("b".to_string(), TypeId::Integer),
        ])),
        children: vec![],
        expressions: vec![
            AbstractExpression::column_value(0, 0, Column::new("colA".to_string(), TypeId::Integer)),
            AbstractExpression::arithmetic(
                ArithmeticType::Plus,
                AbstractExpression::column_value(0, 1, Column::new("colB".to_string(), TypeId::Integer)),
                AbstractExpression::constant_value(Value::from_i32(1)),
            ),
        ],
    };
    let mut exec = ProjectionExecutor::new(&ctx, &proj, MockScanExecutor::new(&ctx, &scan));
    assert!(exec.next(0).is_none());
    let mut firsts: Vec<Vec<i32>> = Vec::new();
    for _ in 0..5 {
        let (tuples, rids) = exec.next(40).unwrap();
        assert_eq!(tuples.len(), rids.len());
        for t in tuples.iter() {
            let a = t.get_value(&out, 0).get_as_i32();
            assert_eq!(t.get_value(&out, 1).get_as_i32(), a * 100 + 1);
        }
        firsts.push(tuples.iter().map(|t| t.get_value(&out, 0).get_as_i32()).collect());
    }
    assert_eq!(firsts[0], (0..40).collect::<Vec<i32>>());
    assert_eq!(firsts[1], (39..79).collect::<Vec<i32>>());
    assert_eq!(firsts[2], (78..100).collect::<Vec<i32>>());
    assert_eq!(firsts[3], (80..100).collect::<Vec<i32>>());
    assert_eq!(firsts[4], (80..100).collect::<Vec<i32>>());
}

#[test]
fn join_evaluation_of_left_columns_ignores_the_right_tuple() {
    let ls = Schema::new(vec![Column::new("a".to_string(), TypeId::Integer)]);
    let rs = Schema::new(vec![Column::new("b".to_string(), TypeId::Integer)]);
    let lt = Tuple::new_with_values(vec![Value::from_i32(7)], &ls);
    let rt = Tuple::new_with_values(vec![Value::from_i32(9)], &rs);
    let e = AbstractExpression::arithmetic(
        ArithmeticType::Plus,
        AbstractExpression::column_value(0, 0, Column::new("a".to_string(), TypeId::Integer)),
        AbstractExpression::constant_value(Value::from_i32(1)),
    );
    assert_eq!(e.evaluate_join(&lt, &ls, &rt, &rs).get_as_i32(), 8);
    assert_eq!(e.evaluate(&lt, &ls).get_as_i32(), 8);
    let r = AbstractExpression::column_value(1, 0, Column::new("b".to_string(), TypeId::Integer));
    assert_eq!(r.evaluate_join(&lt, &ls, &rt, &rs).get_as_i32(), 9);
}

#[test]
fn aggregate_keys_compare_symmetrically_and_null_is_unequal() {
    let a = AggregateKey { group_bys: vec![Value::from_i32(1), Value::from_str("x")] };
    let b = AggregateKey { group_bys: vec![Value::from_i32(1), Value::from_str("x")] };
    let c = AggregateKey { group_bys: vec![Value::from_i32(1), Value::from_str("y")] };
    assert!(a.equals(&b) && b.equals(&a));
    assert!(!a.equals(&c) && !c.equals(&a));
    let n = AggregateKey { group_bys: vec![Value::null(TypeId::Integer)] };
    let n2 = AggregateKey { group_bys: vec![Value::null(TypeId::Integer)] };
    assert!(!n.equals(&n2));
    assert!(!n.equals(&n));
}

#[test]
fn uninlined_columns_are_the_varchar_positions_in_order() {
    let s = Schema::new(vec![
        Column::new_with_length("v".to_string(), TypeId::Varchar, 10),
        Column::new("a".to_string(), TypeId::Integer),
        Column::new_with_length("w".to_string(), TypeId::Varchar, 20),
    ]);
    assert_eq!(s.get_unlined_columns(), &vec![0usize, 2]);
    assert_eq!(s.get_unlined_column_count(), 2);
    assert!(!s.is_inlined());
}
