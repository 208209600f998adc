use std::rc::Rc;

use bustub::binder::statement::{BoundStatement, CreateStatement, ExplainStatement};
use bustub::binder::table_ref::{BaseTableRef, TableRef};
use bustub::catalog::catalog::Catalog;
use bustub::catalog::column::Column;
use bustub::catalog::schema::Schema;
use bustub::sql_type::type_id::TypeId;
use bustub::common::bustub_instance::BustubInstance;
use bustub::common::errors::BustubError;
use bustub::execution::executors::mock_scan_executor::get_mock_table_schema_of;
use bustub::execution::plans::PlanNode;
use bustub::planner::plan_table::{plan_base_table_ref, plan_table_ref};
use bustub::planner::Planner;

fn base(table: &str) -> BaseTableRef {
    BaseTableRef { table: table.to_string(), oid: 3, alias: None, schema: get_mock_table_schema_of("__mock_table_1").unwrap() }
}

#[test]
fn mock_tables_plan_as_mock_scans() {
    match plan_base_table_ref(&base("__mock_table_1")).unwrap() {
        PlanNode::MockScan(n) => {
            assert_eq!(n.table, "__mock_table_1");
            assert_eq!(n.output_schema.get_column(0).get_name(), "__mock_table_1.colA");
            assert_eq!(n.output_schema.get_column(1).get_name(), "__mock_table_1.colB");
        },
        _ => panic!("expected a mock scan"),
    }
    match plan_base_table_ref(&base("t")).unwrap() {
        PlanNode::SeqScan(n) => {
            assert_eq!(n.table_name, "t");
            assert_eq!(n.table_oid, 3);
            assert_eq!(n.output_schema.get_column(1).get_name(), "t.colB");
        },
        _ => panic!("expected a sequential scan"),
    }
    match plan_base_table_ref(&base("__internal")) {
        Err(BustubError::Message(m)) => assert_eq!(m, "unsupported internal table: __internal"),
        _ => panic!("expected an internal table to be refused"),
    }
}

#[test]
fn planner_refuses_other_statements() {
    let mut planner = Planner::new(Rc::new(Catalog::new()));
    let create = BoundStatement::Create(CreateStatement { table: "t".to_string(), columns: vec![], primary_key: vec![] });
    match planner.plan_query(&create) {
        Err(BustubError::Message(m)) => assert_eq!(m, "Planner: unsupported statement type CreateStatement { table=t }"),
        _ => panic!("expected the statement to be refused"),
    }
}

#[test]
fn explain_reports_planner_errors() {
    let db = BustubInstance::new();
    let create = BoundStatement::Create(CreateStatement { table: "t".to_string(), columns: vec![], primary_key: vec![] });
    let stmt = ExplainStatement { statement: Box::new(create), options: 1 | 2 };
    match db.handle_explain_statement(&stmt) {
        Err(BustubError::Message(m)) => {
            assert_eq!(m, "plan error: Message(\"Planner: unsupported statement type CreateStatement { table=t }\")")
        },
        _ => panic!("expected a plan error"),
    }
}

#[test]
fn only_base_tables_are_planned() {
    match plan_table_ref(&TableRef::BaseTableRef(base("__mock_table_1"))) {
        Ok(PlanNode::MockScan(n)) => assert_eq!(n.table, "__mock_table_1"),
        _ => panic!("expected a mock scan"),
    }
    match plan_table_ref(&TableRef::Empty) {
        Err(BustubError::Message(m)) => assert_eq!(m, "table ref planning not supported yet: Empty"),
        _ => panic!("expected the empty table reference to be refused"),
    }
}

#[test]
fn scans_name_columns_by_the_alias() {
    let t = BaseTableRef {
        table: "t1".to_string(),
        oid: 0,
        alias: Some("a".to_string()),
        schema: Schema::new(vec![Column::new("x".to_string(), TypeId::Integer)]),
    };
    match plan_base_table_ref(&t).unwrap() {
        PlanNode::SeqScan(n) => {
            assert_eq!(n.output_schema.get_column_count(), 1);
            assert_eq!(n.output_schema.get_column(0).get_name(), "a.x");
            assert_eq!(n.output_schema.get_column(0).get_type(), TypeId::Integer);
            assert_eq!(n.table_name, "t1");
        },
        _ => panic!("expected a sequential scan"),
    }
}
