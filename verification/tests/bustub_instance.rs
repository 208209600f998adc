use bustub::binder::error::BindError;
use bustub::binder::sql::{
    SqlColumnDef, SqlColumnOption, SqlCreateTable, SqlDataType, SqlExpr, SqlInsert, SqlObjectName, SqlObjectNamePart, SqlQuery,
    SqlSetExpr, SqlStatement, SqlTableObject, SqlValue,
};
use bustub::binder::statement::{
    TransactionStatement, TransactionStatementType, VariableSetStatement, VariableShowStatement,
};
use bustub::common::bustub_instance::{bind_error_string, query_complete, BustubInstance};
use bustub::common::errors::BustubError;
use bustub::common::result_writer::{NoopWriter, ResultWriter};
use bustub::concurrency::transaction::TransactionState;

/// A writer that keeps what it is given.
struct Recorder {
    header: Vec<String>,
    rows: Vec<Vec<String>>,
}

impl ResultWriter for Recorder {
    fn add_row(&mut self, row: &[String]) {
        self.rows.push(row.to_vec());
    }

    fn add_header_row(&mut self, row: &[String]) {
        self.header = row.to_vec();
    }
}

fn recorder() -> Recorder {
    Recorder { header: vec![], rows: vec![] }
}

fn message(r: Result<bool, BustubError>) -> String {
    match r {
        Err(BustubError::Message(m)) => m,
        _ => panic!("expected an error message"),
    }
}

fn name(n: &str) -> SqlObjectName {
    SqlObjectName { parts: vec![SqlObjectNamePart::Identifier(n.to_string())], debug: String::new() }
}

fn column(n: &str, t: SqlDataType, pk: bool) -> SqlColumnDef {
    let options = if pk { vec![SqlColumnOption::PrimaryKey, SqlColumnOption::Other] } else { vec![SqlColumnOption::Other] };
    SqlColumnDef { name: n.to_string(), data_type: t, options }
}

fn create(n: &str, columns: Vec<SqlColumnDef>) -> SqlStatement {
    SqlStatement::CreateTable(SqlCreateTable { name: name(n), columns })
}

#[test]
fn create_mock_table_adds_every_mock_table() {
    let mut db = BustubInstance::new();
    assert!(db.create_mock_table().is_ok());
    let mut w = recorder();
    assert!(matches!(db.execute_sql("\\dt", Ok(vec![]), &mut w), Ok(true)));
    assert_eq!(w.header, vec!["oid".to_string(), "name".to_string(), "cols".to_string()]);
    assert_eq!(w.rows.len(), 24);
    assert_eq!(w.rows[0], vec!["0".to_string(), "__mock_table_1".to_string(), "(colA:INTEGER, colB:INTEGER)".to_string()]);
    assert_eq!(w.rows[23][1], "__mock_t11");
    match db.create_mock_table() {
        Err(BustubError::Message(m)) => assert_eq!(m, "table __mock_table_1 exists"),
        _ => panic!("expected the mock tables to exist"),
    }
}

#[test]
fn internal_commands() {
    let mut db = BustubInstance::new();
    let mut w = recorder();
    assert!(matches!(db.execute_sql("\\help", Ok(vec![]), &mut w), Ok(true)));
    assert_eq!(w.rows.len(), 1);
    assert!(w.rows[0][0].starts_with("Welcome to the BusTub shell!\n\n\\dt: show all tables\n"));
    assert!(w.rows[0][0].ends_with("Use `explain` to\nsee the execution plan of your query."));
    let mut w = recorder();
    assert!(matches!(db.execute_sql("\\di", Ok(vec![]), &mut w), Ok(true)));
    assert_eq!(w.header.len(), 4);
    assert!(w.rows.is_empty());
    assert_eq!(message(db.execute_sql("\\foo", Ok(vec![]), &mut NoopWriter {})), "unsupported internal command: \\foo");
}

#[test]
fn create_table_with_primary_key_index() {
    let mut db = BustubInstance::new();
    let mut w = recorder();
    let stmts = vec![create(
        "t1",
        vec![column("a", SqlDataType::Int, true), column("b", SqlDataType::Varchar(Some(20)), false)],
    )];
    assert!(matches!(db.execute_sql("create table t1 (a int primary key, b varchar(20));", Ok(stmts), &mut w), Ok(false)));
    assert_eq!(w.rows, vec![vec!["Table created with oid = 0, primary key index created with id = 0.".to_string()]]);
    let mut w = recorder();
    db.execute_sql("\\di", Ok(vec![]), &mut w).unwrap();
    assert_eq!(w.rows, vec![vec!["t1".to_string(), "0".to_string(), "t1_pk".to_string(), "(a:INTEGER)".to_string()]]);
    let mut w = recorder();
    let again = vec![create("t2", vec![column("x", SqlDataType::BigInt, false)]), create("t1", vec![])];
    assert_eq!(message(db.execute_sql("", Ok(again), &mut w)), "table t1 exists.");
    assert_eq!(w.rows, vec![vec!["Table created with oid = 1.".to_string()]]);
    assert!(db.current_managed_txn().is_none());
}

#[test]
fn create_table_refuses_bad_primary_keys() {
    let mut db = BustubInstance::new();
    let stmts = vec![create("s", vec![column("a", SqlDataType::Varchar(None), true)])];
    assert_eq!(message(db.execute_sql("", Ok(stmts), &mut NoopWriter {})), "only support creating index on integer column.");
    let wide: Vec<SqlColumnDef> = (0..17).map(|i| column(&format!("c{}", i), SqlDataType::Int, true)).collect();
    assert_eq!(
        message(db.execute_sql("", Ok(vec![create("w", wide)]), &mut NoopWriter {})),
        "unsupported: primary key size exceeds 64 bytes"
    );
    let sixteen: Vec<SqlColumnDef> = (0..16).map(|i| column(&format!("c{}", i), SqlDataType::Int, true)).collect();
    let mut w = recorder();
    db.execute_sql("", Ok(vec![create("v", sixteen)]), &mut w).unwrap();
    assert_eq!(w.rows[0][0], "Table created with oid = 2, primary key index created with id = 0.");
}

#[test]
fn statement_errors_abort_the_line() {
    let mut db = BustubInstance::new();
    assert_eq!(message(db.execute_sql("x", Err("ParserError(\"x\")".to_string()), &mut NoopWriter {})), "parse error: ParserError(\"x\")");
    let ins = SqlStatement::Insert(SqlInsert {
        table: SqlTableObject::TableName(name("missing")),
        source: Some(Box::new(SqlQuery {
            has_with: false,
            has_order_by: false,
            has_limit: false,
            body: SqlSetExpr::Values(vec![vec![SqlExpr::Value(SqlValue::Number("1".to_string(), false))]]),
        })),
    });
    assert_eq!(message(db.execute_sql("", Ok(vec![ins]), &mut NoopWriter {})), "TableNotFound(\"missing\")");
    let other = SqlStatement::Other("DROP TABLE t".to_string());
    assert_eq!(
        message(db.execute_sql("", Ok(vec![other]), &mut NoopWriter {})),
        "UnsupportedStatement(\"DROP TABLE t\")"
    );
}

#[test]
fn bind_error_debug_text() {
    assert_eq!(bind_error_string(&BindError::TableNotFound("a\"b".to_string())), "TableNotFound(\"a\\\"b\")");
    assert_eq!(bind_error_string(&BindError::EmptyTableRef), "EmptyTableRef");
    assert_eq!(bind_error_string(&BindError::Message("x\ny".to_string())), "Message(\"x\\ny\")");
}

#[test]
fn session_variables_read_back() {
    let mut db = BustubInstance::new();
    assert_eq!(db.get_session_variable("x"), "");
    db.set_session_variable("x", "1");
    db.set_session_variable("y", "2");
    db.set_session_variable("x", "3");
    assert_eq!(db.get_session_variable("x"), "3");
    assert_eq!(db.get_session_variable("y"), "2");
    assert!(!db.is_force_starter_rule());
    db.handle_variable_set_statement(&VariableSetStatement {
        variable: "force_optimizer_starter_rule".to_string(),
        value: "yes".to_string(),
    })
    .unwrap();
    assert!(db.is_force_starter_rule());
    let shown = db.handle_variable_show_statement(&VariableShowStatement { variable: "y".to_string() }).unwrap();
    assert_eq!(shown, "y=2");
    let unset = db.handle_variable_show_statement(&VariableShowStatement { variable: "z".to_string() }).unwrap();
    assert_eq!(unset, "z=");
}

#[test]
fn transaction_statements_report() {
    let mut db = BustubInstance::new();
    let begin = TransactionStatement { txn_type: TransactionStatementType::Begin };
    let commit = TransactionStatement { txn_type: TransactionStatementType::Commit };
    let rollback = TransactionStatement { txn_type: TransactionStatementType::Rollback };
    assert_eq!(
        db.handle_txn_statement(None, &begin).unwrap(),
        "begin statement is only supported in managed txn mode, please use bustub-shell"
    );
    db.enable_managed_txn_mode();
    assert_eq!(
        db.handle_txn_statement(None, &begin).unwrap(),
        "begin txn txn_id=0 txn_real_id=4611686018427387904 read_ts=0 commit_ts=-1 status=Running iso_lvl=SnapshotIsolation"
    );
    db.set_session_variable("global_isolation_level", "serializable");
    assert_eq!(
        db.handle_txn_statement(None, &begin).unwrap(),
        "begin txn txn_id=1 txn_real_id=4611686018427387905 read_ts=0 commit_ts=-1 status=Running iso_lvl=Serializable"
    );
    assert_eq!(
        db.handle_txn_statement(None, &commit).unwrap(),
        "commit / rollback can only be used with txn"
    );
    let first = 4611686018427387904i64;
    assert_eq!(
        db.handle_txn_statement(Some(first), &commit).unwrap(),
        "txn committed, txn_id=0, status=Committed, read_ts=0, commit_ts=-1"
    );
    assert_eq!(
        db.handle_txn_statement(Some(first), &commit).unwrap(),
        "txn failed to commit, txn_id=0, status=Committed, read_ts=0, commit_ts=-1"
    );
    assert_eq!(
        db.handle_txn_statement(Some(first + 1), &rollback).unwrap(),
        "txn aborted, txn_id=1, status=Aborted, read_ts=0"
    );
    match db.handle_txn_statement(Some(first), &rollback) {
        Err(BustubError::Message(m)) => assert_eq!(m, "txn not in running / tainted state"),
        _ => panic!("expected a committed txn not to abort"),
    }
}

#[test]
fn lines_run_in_their_own_transaction() {
    let mut db = BustubInstance::new();
    db.execute_sql("", Ok(vec![create("t", vec![column("a", SqlDataType::Int, false)])]), &mut NoopWriter {}).unwrap();
    assert!(db.current_managed_txn().is_none());
    db.enable_managed_txn_mode();
    let begin = TransactionStatement { txn_type: TransactionStatementType::Begin };
    db.handle_txn_statement(None, &begin).unwrap();
    assert!(db.current_managed_txn().is_none());
    let _ = TransactionState::Running;
}

#[test]
fn shell_lines_and_prompts() {
    assert!(query_complete("select 1;"));
    assert!(query_complete("\\dt"));
    assert!(!query_complete("select 1"));
    assert!(!query_complete(""));
    let mut db = BustubInstance::new();
    assert_eq!(db.prompt("bustub> "), "bustub> ");
    assert!(db.can_begin_txn());
    let stmts = vec![create("t", vec![column("a", SqlDataType::Int, false)])];
    assert!(db.statements_supported(&stmts));
    let values = SqlStatement::Query(Box::new(SqlQuery {
        has_with: false,
        has_order_by: false,
        has_limit: false,
        body: SqlSetExpr::Values(vec![vec![SqlExpr::Value(SqlValue::Number("1".to_string(), false))]]),
    }));
    assert!(!db.statements_supported(&vec![values]));
    let insert_after_create = vec![
        create("t", vec![column("a", SqlDataType::Int, false)]),
        SqlStatement::Insert(SqlInsert {
            table: SqlTableObject::TableName(name("t")),
            source: Some(Box::new(SqlQuery {
                has_with: false,
                has_order_by: false,
                has_limit: false,
                body: SqlSetExpr::Values(vec![vec![SqlExpr::Value(SqlValue::Number("1".to_string(), false))]]),
            })),
        }),
    ];
    assert!(!db.statements_supported(&insert_after_create));
    db.execute_sql("", Ok(stmts), &mut NoopWriter {}).unwrap();
}
