use bustub::binder::binder::{eq_ignore_case, Binder};
use bustub::binder::error::BindError;
use bustub::binder::expression::{
    BoundBinaryOp, BoundBinaryOperator, BoundExpression, BoundWindow, OrderByType, WindowBoundary,
};
use bustub::binder::sql::{
    SqlBinaryOperator, SqlColumnDef, SqlColumnOption, SqlCreateIndex, SqlCreateTable, SqlDataType, SqlExpr, SqlIndexColumn,
    SqlInsert, SqlJoin, SqlJoinConstraint, SqlJoinOperator, SqlObjectName, SqlObjectNamePart, SqlQuery,
    SqlSelect, SqlSelectItem, SqlSetExpr, SqlStatement, SqlTableFactor, SqlTableObject, SqlTableWithJoins,
    SqlValue,
};
use bustub::binder::statement::BoundStatement;
use bustub::binder::table_ref::{JoinType, TableRef};
use bustub::catalog::catalog::{Catalog, IndexType};
use bustub::catalog::column::Column;
use bustub::catalog::schema::Schema;
use bustub::common::text::parse_i32;
use bustub::sql_type::type_id::TypeId;

fn name(n: &str) -> SqlObjectName {
    SqlObjectName {
        parts: vec![SqlObjectNamePart::Identifier(n.to_string())],
        debug: format!("ObjectName([Identifier({:?})])", n),
    }
}

fn catalog_with_t() -> Catalog {
    let mut cat = Catalog::new();
    let schema = Schema::new(vec![
        Column::new("a".to_string(), TypeId::Integer),
        Column::new("b".to_string(), TypeId::Integer),
    ]);
    assert_eq!(cat.create_table("t", &schema), Some(0));
    let schema_u = Schema::new(vec![Column::new("c".to_string(), TypeId::Integer)]);
    assert_eq!(cat.create_table("u", &schema_u), Some(1));
    cat
}

fn table(n: &str) -> SqlTableWithJoins {
    SqlTableWithJoins { relation: SqlTableFactor::Table { name: name(n), alias: None }, joins: vec![] }
}

fn query(body: SqlSetExpr) -> SqlQuery {
    SqlQuery { has_with: false, has_order_by: false, has_limit: false, body }
}

fn num(s: &str) -> SqlExpr {
    SqlExpr::Value(SqlValue::Number(s.to_string(), false))
}

#[test]
fn parse_i32_follows_rust() {
    assert_eq!(parse_i32("123"), Some(123));
    assert_eq!(parse_i32("+5"), Some(5));
    assert_eq!(parse_i32("-2147483648"), Some(i32::MIN));
    assert_eq!(parse_i32("2147483647"), Some(i32::MAX));
    assert_eq!(parse_i32("2147483648"), None);
    assert_eq!(parse_i32("99999999999999999999"), None);
    assert_eq!(parse_i32(""), None);
    assert_eq!(parse_i32("-"), None);
    assert_eq!(parse_i32("1.5"), None);
    assert_eq!(parse_i32(" 1"), None);
    for s in ["0", "-0", "+17", "12a", "٣", "2147483647", "-2147483649"] {
        assert_eq!(parse_i32(s), s.parse::<i32>().ok(), "{}", s);
    }
}

#[test]
fn eq_ignore_case_lowers_each_character() {
    assert!(eq_ignore_case("ABC", "abc"));
    assert!(eq_ignore_case("ÄÖÜ", "äöü"));
    assert!(eq_ignore_case("ColA", "cola"));
    assert!(!eq_ignore_case("abc", "abd"));
    assert!(!eq_ignore_case("abc", "ab"));
    assert!(!eq_ignore_case("STRASSE", "straße"));
}

#[test]
fn bind_create_table_columns_and_primary_key() {
    let cat = Catalog::new();
    let binder = Binder::new(&cat);
    let ct = SqlCreateTable {
        name: name("t1"),
        columns: vec![
            SqlColumnDef { name: "a".to_string(), data_type: SqlDataType::Int, options: vec![SqlColumnOption::PrimaryKey] },
            SqlColumnDef { name: "b".to_string(), data_type: SqlDataType::Varchar(Some(300)), options: vec![] },
            SqlColumnDef { name: "c".to_string(), data_type: SqlDataType::Boolean, options: vec![] },
            SqlColumnDef { name: "d".to_string(), data_type: SqlDataType::Char(None), options: vec![SqlColumnOption::PrimaryKey] },
            SqlColumnDef { name: "e".to_string(), data_type: SqlDataType::Double, options: vec![] },
        ],
    };
    let c = binder.bind_create(&ct).unwrap();
    assert_eq!(c.table, "t1");
    assert_eq!(c.primary_key, vec!["a".to_string(), "d".to_string()]);
    assert_eq!(c.columns.len(), 5);
    assert_eq!(c.columns[0].get_type(), TypeId::Integer);
    assert_eq!(c.columns[0].get_storage_size(), 4);
    assert_eq!(c.columns[1].get_type(), TypeId::Varchar);
    assert_eq!(c.columns[1].get_storage_size(), 300);
    assert_eq!(c.columns[2].get_type(), TypeId::Boolean);
    assert_eq!(c.columns[3].get_storage_size(), 128);
    assert_eq!(c.columns[4].get_type(), TypeId::Decimal);
    assert_eq!(c.columns[4].get_name(), "e");
}

#[test]
fn bind_create_refuses_unknown_type_and_name() {
    let cat = Catalog::new();
    let binder = Binder::new(&cat);
    let ct = SqlCreateTable {
        name: name("t1"),
        columns: vec![
            SqlColumnDef { name: "a".to_string(), data_type: SqlDataType::Int, options: vec![] },
            SqlColumnDef { name: "b".to_string(), data_type: SqlDataType::Other("BLOB".to_string()), options: vec![] },
            SqlColumnDef { name: "c".to_string(), data_type: SqlDataType::Other("JSON".to_string()), options: vec![] },
        ],
    };
    match binder.bind_create(&ct) {
        Err(BindError::UnsupportedDataType(m)) => assert_eq!(m, "BLOB"),
        _ => panic!("expected an unsupported data type"),
    }
    let bad = SqlCreateTable {
        name: SqlObjectName { parts: vec![SqlObjectNamePart::Other("f()".to_string())], debug: String::new() },
        columns: vec![],
    };
    match binder.bind_create(&bad) {
        Err(BindError::UnsupportedTableName(m)) => assert_eq!(m, "f()"),
        _ => panic!("expected an unsupported table name"),
    }
}

#[test]
fn bind_insert_into_missing_table() {
    let cat = catalog_with_t();
    let mut binder = Binder::new(&cat);
    let ins = SqlStatement::Insert(SqlInsert {
        table: SqlTableObject::TableName(name("nope")),
        source: Some(Box::new(query(SqlSetExpr::Values(vec![vec![num("1")]])))),
    });
    match binder.bind_statement(&ins) {
        Err(BindError::TableNotFound(m)) => assert_eq!(m, "nope"),
        _ => panic!("expected a missing table"),
    }
    let no_source = SqlStatement::Insert(SqlInsert { table: SqlTableObject::TableName(name("t")), source: None });
    match binder.bind_statement(&no_source) {
        Err(BindError::Message(m)) => assert_eq!(m, "insert should provide values"),
        _ => panic!("expected a missing source"),
    }
}

#[test]
fn bind_insert_values_into_table() {
    let cat = catalog_with_t();
    let mut binder = Binder::new(&cat);
    let ins = SqlStatement::Insert(SqlInsert {
        table: SqlTableObject::TableName(name("t")),
        source: Some(Box::new(query(SqlSetExpr::Values(vec![vec![num("1"), num("2")]])))),
    });
    match binder.bind_statement(&ins) {
        Ok(BoundStatement::Insert(i)) => {
            assert_eq!(i.table.table, "t");
            assert_eq!(i.table.oid, 0);
            assert!(i.table.alias.is_none());
            assert_eq!(i.select.select_list.len(), 0);
        },
        _ => panic!("expected an insert"),
    }
}

#[test]
fn bind_select_without_scope_fails() {
    let cat = catalog_with_t();
    let mut binder = Binder::new(&cat);
    let sel = SqlStatement::Query(Box::new(query(SqlSetExpr::Select(SqlSelect {
        projection: vec![SqlSelectItem::UnnamedExpr(SqlExpr::Identifier("a".to_string()))],
        from: vec![table("t")],
    }))));
    match binder.bind_statement(&sel) {
        Err(BindError::Message(m)) => assert_eq!(m, "Empty table ref"),
        _ => panic!("expected an empty table ref"),
    }
    let missing = SqlStatement::Query(Box::new(query(SqlSetExpr::Select(SqlSelect {
        projection: vec![SqlSelectItem::Wildcard],
        from: vec![table("t"), table("nope")],
    }))));
    match binder.bind_statement(&missing) {
        Err(BindError::TableNotFound(m)) => assert_eq!(m, "nope"),
        _ => panic!("expected a missing table"),
    }
}

#[test]
fn bind_query_refuses_clauses() {
    let cat = Catalog::new();
    let mut binder = Binder::new(&cat);
    let mut q = query(SqlSetExpr::Values(vec![vec![num("1")]]));
    q.has_with = true;
    q.has_limit = true;
    match binder.bind_query(&q) {
        Err(BindError::UnsupportedYetSQL(m)) => assert_eq!(m, "Query with WITH is not supported yet"),
        _ => panic!("expected WITH to be refused"),
    }
    let mut q = query(SqlSetExpr::Values(vec![vec![num("1")]]));
    q.has_order_by = true;
    match binder.bind_query(&q) {
        Err(BindError::UnsupportedYetSQL(m)) => assert_eq!(m, "Select with ORDER BY is not supported yet."),
        _ => panic!("expected ORDER BY to be refused"),
    }
    let q = query(SqlSetExpr::Other("SetOperation".to_string()));
    match binder.bind_query(&q) {
        Err(BindError::UnsupportedYetSQL(m)) => assert_eq!(m, "unsupoorted query body: SetOperation"),
        _ => panic!("expected the body to be refused"),
    }
}

#[test]
fn bind_values_rows() {
    let cat = Catalog::new();
    let mut binder = Binder::new(&cat);
    let q = query(SqlSetExpr::Values(vec![
        vec![num("1"), SqlExpr::Value(SqlValue::SingleQuotedString("x".to_string()))],
        vec![SqlExpr::Value(SqlValue::Null), num("-7")],
    ]));
    let s = binder.bind_query(&q).unwrap();
    assert_eq!(s.select_list.len(), 0);
    assert!(s.where_clause.is_none());
    assert!(!s.is_distinct);
    match *s.table {
        TableRef::ExpressionListRef(el) => {
            assert_eq!(el.identifier, "<unamed>");
            assert_eq!(el.values.len(), 2);
            assert_eq!(el.values[1].len(), 2);
            match &el.values[0][1] {
                BoundExpression::BoundConstant(c) => assert_eq!(c.val.to_string_val(), "x"),
                _ => panic!("expected a constant"),
            }
            match &el.values[1][1] {
                BoundExpression::BoundConstant(c) => assert_eq!(c.val.get_as_i32(), -7),
                _ => panic!("expected a constant"),
            }
            match &el.values[1][0] {
                BoundExpression::BoundConstant(c) => assert!(c.val.is_null()),
                _ => panic!("expected a constant"),
            }
        },
        _ => panic!("expected an expression list"),
    }
    let empty = query(SqlSetExpr::Values(vec![]));
    match binder.bind_query(&empty) {
        Err(BindError::Message(m)) => assert_eq!(m, "at least one row of values should be provided"),
        _ => panic!("expected empty values to be refused"),
    }
}

#[test]
fn bind_value_messages() {
    let cat = Catalog::new();
    let binder = Binder::new(&cat);
    match binder.bind_value(&SqlValue::Number("1.5".to_string(), false)) {
        Err(BindError::Message(m)) => assert_eq!(m, "invalid number literal: 1.5"),
        _ => panic!("expected an invalid number"),
    }
    match binder.bind_value(&SqlValue::Number("7".to_string(), true)) {
        Err(BindError::Message(m)) => assert_eq!(m, "unsupported value: 7L"),
        _ => panic!("expected an unsupported value"),
    }
    match binder.bind_value(&SqlValue::Other("TRUE".to_string())) {
        Err(BindError::Message(m)) => assert_eq!(m, "unsupported value: TRUE"),
        _ => panic!("expected an unsupported value"),
    }
    let c = binder.bind_value(&SqlValue::Number("2147483647".to_string(), false)).unwrap();
    assert_eq!(c.val.get_as_i32(), 2147483647);
    assert_eq!(c.val.get_type_id(), TypeId::Integer);
    let s = binder.bind_value(&SqlValue::SingleQuotedString("hi".to_string())).unwrap();
    assert_eq!(s.val.get_type_id(), TypeId::Varchar);
    let n = binder.bind_value(&SqlValue::Null).unwrap();
    assert!(n.val.is_null());
    assert_eq!(n.val.get_type_id(), TypeId::Integer);
}

#[test]
fn bind_expression_operators_and_names() {
    let cat = Catalog::new();
    let binder = Binder::new(&cat);
    let e = SqlExpr::BinaryOp { left: Box::new(num("1")), op: SqlBinaryOperator::Plus, right: Box::new(num("2")) };
    match binder.bind_expression(&e).unwrap() {
        BoundExpression::BoundBinaryOp(b) => assert_eq!(b.op, BoundBinaryOperator::Plus),
        _ => panic!("expected an operator"),
    }
    let bad = SqlExpr::BinaryOp {
        left: Box::new(num("1")),
        op: SqlBinaryOperator::Other("BitwiseXor".to_string()),
        right: Box::new(num("2")),
    };
    match binder.bind_expression(&bad) {
        Err(BindError::UnsupportedBinaryOperator(m)) => assert_eq!(m, "BitwiseXor"),
        _ => panic!("expected an unsupported operator"),
    }
    let left_first = SqlExpr::BinaryOp {
        left: Box::new(SqlExpr::Identifier("a".to_string())),
        op: SqlBinaryOperator::Other("BitwiseXor".to_string()),
        right: Box::new(num("2")),
    };
    assert!(matches!(binder.bind_expression(&left_first), Err(BindError::EmptyTableRef)));
    match binder.bind_expression(&SqlExpr::Other("Function".to_string())) {
        Err(BindError::UnsupportedExpr(m)) => assert_eq!(m, "Function"),
        _ => panic!("expected an unsupported expression"),
    }
    assert!(matches!(
        binder.bind_expression(&SqlExpr::CompoundIdentifier(vec!["t".to_string(), "a".to_string()])),
        Err(BindError::EmptyTableRef)
    ));
}

#[test]
fn bind_from_cross_products_and_joins() {
    let cat = catalog_with_t();
    let binder = Binder::new(&cat);
    assert!(matches!(binder.bind_from(&vec![]).unwrap(), TableRef::Empty));
    match binder.bind_from(&vec![table("t"), table("u"), table("t")]).unwrap() {
        TableRef::CrossProductRef(c) => {
            assert!(matches!(*c.left, TableRef::CrossProductRef(_)));
            match *c.right {
                TableRef::BaseTableRef(b) => assert_eq!(b.table, "t"),
                _ => panic!("expected a base table"),
            }
        },
        _ => panic!("expected a cross product"),
    }
    let joined = SqlTableWithJoins {
        relation: SqlTableFactor::Table { name: name("t"), alias: Some("x".to_string()) },
        joins: vec![SqlJoin {
            relation: SqlTableFactor::Table { name: name("u"), alias: None },
            join_operator: SqlJoinOperator::Left(SqlJoinConstraint::On(SqlExpr::BinaryOp {
                left: Box::new(num("1")),
                op: SqlBinaryOperator::Eq,
                right: Box::new(num("1")),
            })),
        }],
    };
    match binder.bind_table_ref(&joined).unwrap() {
        TableRef::JoinRef(j) => {
            assert_eq!(j.join_type, JoinType::Left);
            match *j.left {
                TableRef::BaseTableRef(b) => {
                    assert_eq!(b.alias, Some("x".to_string()));
                    assert_eq!(b.get_table_name(), "x");
                },
                _ => panic!("expected a base table"),
            }
        },
        _ => panic!("expected a join"),
    }
    let bare = SqlTableWithJoins {
        relation: SqlTableFactor::Table { name: name("t"), alias: None },
        joins: vec![SqlJoin {
            relation: SqlTableFactor::Table { name: name("u"), alias: None },
            join_operator: SqlJoinOperator::Join(SqlJoinConstraint::On(num("1"))),
        }],
    };
    match binder.bind_table_ref(&bare).unwrap() {
        TableRef::JoinRef(j) => assert_eq!(j.join_type, JoinType::Inner),
        _ => panic!("expected a join"),
    }
    let natural = SqlTableWithJoins {
        relation: SqlTableFactor::Table { name: name("t"), alias: None },
        joins: vec![SqlJoin {
            relation: SqlTableFactor::Table { name: name("u"), alias: None },
            join_operator: SqlJoinOperator::Inner(SqlJoinConstraint::Other("Natural".to_string())),
        }],
    };
    match binder.bind_table_ref(&natural) {
        Err(BindError::UnsupportedJoinConstraint(m)) => assert_eq!(m, "Natural"),
        _ => panic!("expected an unsupported constraint"),
    }
    let derived = SqlTableWithJoins { relation: SqlTableFactor::Other("Derived".to_string()), joins: vec![] };
    match binder.bind_table_ref(&derived) {
        Err(BindError::UnsupportedTableFactor(m)) => assert_eq!(m, "Derived"),
        _ => panic!("expected an unsupported factor"),
    }
}

#[test]
fn bind_index_columns_and_options() {
    let cat = catalog_with_t();
    let binder = Binder::new(&cat);
    let stmt = SqlCreateIndex {
        name: Some(name("idx")),
        table_name: name("t"),
        columns: vec![
            SqlIndexColumn { expr: SqlExpr::Identifier("a".to_string()), asc: Some(false) },
            SqlIndexColumn { expr: SqlExpr::CompoundIdentifier(vec!["t".to_string(), "b".to_string()]), asc: None },
            SqlIndexColumn { expr: num("3"), asc: Some(true) },
        ],
    };
    let s = binder.bind_index(stmt).unwrap();
    assert_eq!(s.index_name, "idx");
    assert_eq!(s.table.table, "t");
    assert_eq!(s.table.schema.get_column_count(), 2);
    assert_eq!(s.cols[0].col_names, vec!["a".to_string()]);
    assert_eq!(s.cols[1].col_names, vec!["t".to_string(), "b".to_string()]);
    assert!(s.cols[2].col_names.is_empty());
    assert_eq!(s.col_options, vec!["DESC".to_string(), String::new(), "ASC".to_string()]);
    let missing = SqlCreateIndex { name: None, table_name: name("nope"), columns: vec![] };
    match binder.bind_index(missing) {
        Err(BindError::TableNotFound(m)) => assert_eq!(m, "nope"),
        _ => panic!("expected a missing table"),
    }
}

#[test]
fn bind_statement_refuses_other_statements() {
    let cat = Catalog::new();
    let mut binder = Binder::new(&cat);
    match binder.bind_statement(&SqlStatement::Other("DROP TABLE t".to_string())) {
        Err(BindError::UnsupportedStatement(m)) => assert_eq!(m, "DROP TABLE t"),
        _ => panic!("expected an unsupported statement"),
    }
}

#[test]
fn binding_errors_display() {
    assert_eq!(BindError::TableNotFound("t".to_string()).to_string(), "Table not found: t");
    assert_eq!(BindError::ColumnNotFound("a.b".to_string()).to_string(), "Column not found: a.b");
    assert_eq!(BindError::AmbiguousColumnName("x".to_string()).to_string(), "Ambiguous column: x");
    assert_eq!(BindError::NotImplemented("n".to_string()).to_string(), "Not implemented: n");
    assert_eq!(BindError::Exception("boom".to_string()).to_string(), "boom");
    assert_eq!(BindError::UnsupportedExpr("e".to_string()).to_string(), "Unsupported expression: e");
    assert_eq!(BindError::UnsupportedDataType("in\"t".to_string()).to_string(), "Unsupported data type: \"in\\\"t\"");
    assert_eq!(BindError::UnsupportedTableName("s".to_string()).to_string(), "Unsupported table name: \"s\"");
}

#[test]
fn kinds_have_names() {
    assert_eq!(JoinType::Left.to_string(), "Left");
    assert_eq!(JoinType::Outer.to_string(), "Outer");
    assert_eq!(OrderByType::Asc.to_string(), "Ascending");
    assert_eq!(OrderByType::Desc.to_string(), "Descending");
    assert_eq!(WindowBoundary::CurrentRowRows.to_string(), "CURRENT ROW ROWS");
    assert_eq!(WindowBoundary::ExprFollowingRange.to_string(), "EXPR FOLLOWING RANGE");
}

#[test]
fn created_tables_are_found_by_name() {
    let mut cat = Catalog::new();
    let schema = Schema::new(vec![Column::new("a".to_string(), TypeId::Integer)]);
    assert_eq!(cat.create_table("t", &schema), Some(0));
    assert_eq!(cat.create_table("u", &schema), Some(1));
    assert_eq!(cat.create_table("t", &schema), None);
    let t = cat.get_table_by_name("u").unwrap();
    assert_eq!(t.oid, 1);
    assert_eq!(t.name, "u");
    assert_eq!(t.schema.get_column(0).get_name(), "a");
    assert!(cat.get_table_by_name("v").is_none());
}

#[test]
fn window_functions_are_found_under_operators() {
    let w = BoundWindow {
        func_name: "rank".to_string(),
        args: vec![],
        partition_by: vec![],
        order_bys: vec![],
        start_offset: None,
        end_offset: None,
        start: WindowBoundary::Invalid,
        end: WindowBoundary::Invalid,
    };
    let e = BoundExpression::BoundBinaryOp(BoundBinaryOp {
        op: BoundBinaryOperator::Plus,
        larg: Box::new(BoundExpression::BoundWindow(w)),
        rarg: Box::new(BoundExpression::BoundStar),
    });
    assert!(e.has_window_function());
    assert!(!BoundExpression::BoundStar.has_window_function());
}

#[test]
fn varchar_columns_keep_their_length() {
    let c = Column::new_with_length("v".to_string(), TypeId::Varchar, 300);
    assert_eq!(c.get_storage_size(), 300);
    let s = Schema::new(vec![Column::new("a".to_string(), TypeId::Integer), c]);
    assert_eq!(s.get_column(1).get_storage_size(), 300);
}

#[test]
fn table_indexes_are_those_created_on_the_table() {
    let mut cat = Catalog::new();
    let schema = Schema::new(vec![Column::new("a".to_string(), TypeId::Integer)]);
    cat.create_table("t", &schema);
    cat.create_table("u", &schema);
    assert!(cat.get_table_indexes("t").is_empty());
    assert_eq!(cat.create_index("i1", "t", &schema, 4, false, IndexType::BPlusTreeIndex), Some(0));
    assert_eq!(cat.create_index("j1", "u", &schema, 4, true, IndexType::BPlusTreeIndex), Some(1));
    assert_eq!(cat.create_index("i2", "t", &schema, 8, false, IndexType::BPlusTreeIndex), Some(2));
    assert_eq!(cat.create_index("i1", "t", &schema, 4, false, IndexType::BPlusTreeIndex), None);
    assert_eq!(cat.create_index("k", "v", &schema, 4, false, IndexType::BPlusTreeIndex), None);
    let t: Vec<u32> = cat.get_table_indexes("t").iter().map(|x| x.index_oid).collect();
    assert_eq!(t, vec![0, 2]);
    let u: Vec<u32> = cat.get_table_indexes("u").iter().map(|x| x.index_oid).collect();
    assert_eq!(u, vec![1]);
    assert!(cat.get_table_indexes("v").is_empty());
}
