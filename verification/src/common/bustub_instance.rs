use std::rc::Rc;
use vstd::prelude::*;

use crate::binder::expression::BoundColumnRef;
use crate::binder::binder::{
    create_binding, defines, lemma_primary_keys_named, lemma_query_bound_ok, lemma_unbound_query_ok, part_identifier,
    primary_key_names, query_ok, statement_binding, string_views, Binder,
};
use crate::binder::error::BindError;
use crate::binder::sql::{SqlObjectNamePart, SqlStatement, SqlTableObject};
use crate::binder::statement::{
    statement_text, BoundStatement, CreateStatement, ExplainOptions, ExplainStatement, IndexStatement, TransactionStatement, TransactionStatementType,
    VariableSetStatement, VariableShowStatement,
};
use crate::binder::binder::object_name;
use crate::binder::table_ref::TableRef;
use crate::buffer::buffer_pool_manager::BufferPoolManager;
use crate::catalog::catalog::{Catalog, CatalogRef, IndexInfo, IndexType, IndexView, TableInfo, TableView};
use crate::catalog::column::{Column, ColumnView};
use crate::catalog::schema::{
    column_views, columns_fit, fits_columns, lemma_few_small_columns_fit, schema_of, schema_text, Schema, SchemaView,
};
use crate::common::errors::BustubError;
use crate::common::result_writer::ResultWriter;
use crate::common::text::{
    debug_str, decimal, decimal_string, push_decimal, push_signed_decimal, signed_decimal, starts_with, str_debug,
    str_eq,
};
use crate::common::{TxnId, BUFFER_POOL_SIZE, LRUK_REPLACER_K};
use crate::concurrency::transaction::{IsolationLevel, Transaction, TransactionState, TransactionView, TXN_START_ID};
use crate::concurrency::transaction_manager::{
    can_abort, can_commit, reads_added, reads_removed, TransactionManager,
};
use crate::storage::tuple::INVALID_TS;
use crate::planner::plan_expression::first_named;
use crate::planner::plan_select::{index_named, lemma_index_named};
use crate::sql_type::type_id::TypeId;
use crate::storage::disk::DiskManagerMemory;
use crate::execution::plans::{plan_name, plan_output, PlanNode};
use crate::optimizer::Optimizer;
use crate::planner::plan_expression::fails_with;
use crate::planner::plan_insert::insert_planned;
use crate::planner::plan_select::{select_panics, select_planned};
use crate::planner::Planner;
use crate::execution::executors::mock_scan_executor::{get_mock_table_schema_of, mock_columns, mock_table_list, mock_tables};

verus! {

/// The session variables as a map from name to value.
pub open spec fn vars_map(vars: Seq<(String, String)>) -> Map<Seq<char>, Seq<char>>
    decreases vars.len(),
{
    if vars.len() == 0 {
        Map::empty()
    } else {
        vars_map(vars.drop_last()).insert(vars.last().0@, vars.last().1@)
    }
}

/// Whether no two session variables share a name.
pub open spec fn vars_unique(vars: Seq<(String, String)>) -> bool {
    forall|i: int, j: int| 0 <= i < j < vars.len() ==> #[trigger] vars[i].0@ != #[trigger] vars[j].0@
}

/// The smallest supported index key size that holds `n` bytes.
pub open spec fn key_size_for(n: int) -> Option<usize> {
    if n <= 4 {
        Some(4)
    } else if n <= 8 {
        Some(8)
    } else if n <= 16 {
        Some(16)
    } else if n <= 32 {
        Some(32)
    } else if n <= 64 {
        Some(64)
    } else {
        None
    }
}

/// The smallest of the supported index key sizes that holds `n` bytes.
fn supported_key_size(n: usize) -> (r: Option<usize>)
    ensures
        r == key_size_for(n as int),
{
    let sizes: [usize; 5] = [4, 8, 16, 32, 64];
    let mut i: usize = 0;
    while i < 5
        invariant
            0 <= i <= 5,
            sizes@ == seq![4usize, 8, 16, 32, 64],
            forall|j: int| 0 <= j < i ==> n > #[trigger] sizes@[j],
        decreases 5 - i,
    {
        if n <= sizes[i] {
            return Some(sizes[i]);
        }
        i += 1;
    }
    None
}

/// The positions, in `cols`, of the first columns named as in `names`.
pub open spec fn positions_of(cols: Seq<ColumnView>, names: Seq<Seq<char>>) -> Seq<int> {
    names.map_values(|n: Seq<char>| index_named(cols, n))
}

/// The columns of `cols` at the positions `ids`, in that order.
pub open spec fn picked_columns(cols: Seq<ColumnView>, ids: Seq<int>) -> Seq<ColumnView> {
    Seq::new(ids.len(), |i: int| cols[ids[i]])
}

/// Whether every column of `cols` at the positions `ids` is an INTEGER column.
pub open spec fn all_integer(cols: Seq<ColumnView>, ids: Seq<int>) -> bool {
    forall|i: int| 0 <= i < ids.len() ==> #[trigger] cols[ids[i]].type_id == TypeId::Integer
}

/// Whether some column of `cols` is named `n`.
pub open spec fn has_column(cols: Seq<ColumnView>, n: Seq<char>) -> bool {
    exists|j: int| 0 <= j < cols.len() && #[trigger] cols[j].name == n
}

/// Whether every name of `names` names a column of `cols`.
pub open spec fn all_named(cols: Seq<ColumnView>, names: Seq<Seq<char>>) -> bool {
    forall|i: int| 0 <= i < names.len() ==> has_column(cols, #[trigger] names[i])
}

/// Inlined columns take at most 255 bytes each.
fn small_columns(cols: &Vec<Column>)
    ensures
        forall|j: int|
            0 <= j < cols@.len() ==> #[trigger] column_views(cols@)[j].type_id != TypeId::Varchar ==> column_views(
                cols@,
            )[j].length <= 8,
{
    let mut i: usize = 0;
    while i < cols.len()
        invariant
            0 <= i <= cols@.len(),
            forall|j: int| 0 <= j < i ==> #[trigger] column_views(cols@)[j].type_id != TypeId::Varchar ==> column_views(cols@)[j].length <= 8,
        decreases cols@.len() - i,
    {
        let c = &cols[i];
        proof {
            use_type_invariant(c);
        }
        assert(column_views(cols@)[i as int] == cols@[i as int]@);
        i += 1;
    }
}

/// Whether `r` is what creating the table of `create` in `cat` reports,
/// and `after` the catalog it leaves: the table, then the index of its
/// primary key when it has one, on INTEGER columns, of at most 64 bytes.
pub open spec fn created(cat: Catalog, create: CreateStatement, after: Catalog, r: Result<String, BustubError>) -> bool {
    let n = create.table@;
    let cols = column_views(create.columns@);
    let sch = schema_of(cols);
    let pk = create.primary_key@.map_values(|s: String| s@);
    let oid = cat.tables().len();
    let ids = positions_of(sch.columns, pk);
    if cat.has_table(n) {
        after == cat && (r matches Err(BustubError::Message(m)) && m@ == "table "@ + n + " exists."@)
    } else {
        &&& after.tables() == cat.tables().push(TableView { schema: sch, name: n, oid: oid as u32 })
        &&& if pk.len() == 0 {
            &&& after.indexes() == cat.indexes()
            &&& r matches Ok(m) && m@ == "Table created with oid = "@ + decimal(oid) + "."@
        } else if !all_integer(sch.columns, ids) {
            &&& after.indexes() == cat.indexes()
            &&& r matches Err(BustubError::Message(m)) && m@ == "only support creating index on integer column."@
        } else {
            match key_size_for(4 * pk.len() as int) {
                None => {
                    &&& after.indexes() == cat.indexes()
                    &&& r matches Err(BustubError::Message(m)) && m@ == "unsupported: primary key size exceeds 64 bytes"@
                },
                Some(ks) => {
                    &&& after.indexes() == cat.indexes().push(
                        IndexView {
                            key_schema: schema_of(picked_columns(sch.columns, ids)),
                            name: n + "_pk"@,
                            index_oid: cat.indexes().len() as u32,
                            table_name: n,
                            key_size: ks as nat,
                            is_primary_key: true,
                            index_type: IndexType::BPlusTreeIndex,
                        },
                    )
                    &&& r matches Ok(m) && m@ == "Table created with oid = "@ + decimal(oid) + ", primary key index created with id = "@
                        + decimal(cat.indexes().len()) + "."@
                },
            }
        }
    }
}

/// The name of the column an index column reference reads: its last name.
pub open spec fn last_name(c: BoundColumnRef) -> Seq<char> {
    c.col_names@.last()@
}

/// Whether the index column `c` reads an INTEGER column of `cols`.
pub open spec fn index_col_ok(cols: Seq<ColumnView>, c: BoundColumnRef) -> bool {
    c.col_names@.len() > 0 && cols[index_named(cols, last_name(c))].type_id == TypeId::Integer
}

/// Whether every index column before `i` reads an INTEGER column.
pub open spec fn index_cols_ok_before(cols: Seq<ColumnView>, ics: Seq<BoundColumnRef>, i: int) -> bool {
    forall|j: int| 0 <= j < i ==> #[trigger] index_col_ok(cols, ics[j])
}

/// Whether `r` is what creating the index of `stmt` in `cat` reports, and
/// `after` the catalog it leaves.
pub open spec fn index_created(cat: Catalog, stmt: IndexStatement, after: Catalog, r: Result<String, BustubError>) -> bool {
    let cols = stmt.table.schema@.columns;
    let ics = stmt.cols@;
    let ids = ics.map_values(|c: BoundColumnRef| index_named(cols, last_name(c)));
    if !index_cols_ok_before(cols, ics, ics.len() as int) {
        &&& after == cat
        &&& exists|i: int|
            0 <= i < ics.len() && index_cols_ok_before(cols, ics, i) && !#[trigger] index_col_ok(cols, ics[i]) && if ics[i].col_names@.len()
                == 0 {
                r matches Err(BustubError::Message(m)) && m@ == "empty column name"@
            } else {
                r matches Err(BustubError::Message(m)) && m@ == "only support creating index on integer column"@
            }
    } else if ics.len() == 0 {
        after == cat && (r matches Err(BustubError::Message(m)) && m@ == "index columns should not be empty"@)
    } else {
        match key_size_for(4 * ics.len() as int) {
            None => after == cat && (r matches Err(BustubError::Message(m)) && m@
                == "unsupported: index key size exceeds 64 bytes"@),
            Some(ks) => if !cat.has_table(stmt.table.table@) || cat.has_index(stmt.index_name@, stmt.table.table@) {
                after == cat && (r matches Err(BustubError::Message(m)) && m@ == "failed to create index "@
                    + stmt.index_name@)
            } else {
                &&& after.tables() == cat.tables()
                &&& after.indexes() == cat.indexes().push(
                    IndexView {
                        key_schema: schema_of(picked_columns(cols, ids)),
                        name: stmt.index_name@,
                        index_oid: cat.indexes().len() as u32,
                        table_name: stmt.table.table@,
                        key_size: ks as nat,
                        is_primary_key: false,
                        index_type: IndexType::BPlusTreeIndex,
                    },
                )
                &&& r matches Ok(m) && m@ == "Index created with oid = "@ + decimal(cat.indexes().len())
                    + " with type = BPlusTreeIndex"@
            },
        }
    }
}

/// Whether reading the columns of `stmt` names only columns of its table,
/// up to the first column it refuses.
pub open spec fn index_cols_named(stmt: IndexStatement) -> bool {
    let cols = stmt.table.schema@.columns;
    let ics = stmt.cols@;
    forall|i: int|
        0 <= i < ics.len() && index_cols_ok_before(cols, ics, i) && #[trigger] ics[i].col_names@.len() > 0 ==> exists|j: int|
            0 <= j < cols.len() && #[trigger] cols[j].name == last_name(ics[i])
}

/// The name of a transaction state, as its debug form shows it.
pub open spec fn state_name(s: TransactionState) -> Seq<char> {
    match s {
        TransactionState::Running => "Running"@,
        TransactionState::Tainted => "Tainted"@,
        TransactionState::Committed => "Committed"@,
        TransactionState::Aborted => "Aborted"@,
    }
}

/// The name of an isolation level, as its debug form shows it.
pub open spec fn iso_name(l: IsolationLevel) -> Seq<char> {
    match l {
        IsolationLevel::ReadUncommitted => "ReadUncommitted"@,
        IsolationLevel::SnapshotIsolation => "SnapshotIsolation"@,
        IsolationLevel::Serializable => "Serializable"@,
    }
}

/// The report of a transaction that begins.
pub open spec fn begin_text(t: TransactionView) -> Seq<char> {
    "txn_id="@ + signed_decimal((t.txn_id ^ TXN_START_ID) as int) + " txn_real_id="@ + signed_decimal(t.txn_id as int)
        + " read_ts="@ + signed_decimal(t.read_ts as int) + " commit_ts="@ + signed_decimal(t.commit_ts as int)
        + " status="@ + state_name(t.state) + " iso_lvl="@ + iso_name(t.isolation_level)
}

/// The report of a transaction that ends: its id, state and timestamps.
pub open spec fn end_text(t: TransactionView, with_commit_ts: bool) -> Seq<char> {
    "txn_id="@ + signed_decimal((t.txn_id ^ TXN_START_ID) as int) + ", status="@ + state_name(t.state) + ", read_ts="@
        + signed_decimal(t.read_ts as int) + if with_commit_ts {
        ", commit_ts="@ + signed_decimal(t.commit_ts as int)
    } else {
        Seq::empty()
    }
}

/// The isolation level the session asks for: serializable when its
/// variable says so, snapshot isolation otherwise.
pub open spec fn session_iso(vars: Map<Seq<char>, Seq<char>>) -> IsolationLevel {
    if vars.contains_key("global_isolation_level"@) && vars["global_isolation_level"@] == "serializable"@ {
        IsolationLevel::Serializable
    } else {
        IsolationLevel::SnapshotIsolation
    }
}

/// The debug form of a one-field variant named `name` holding the string `m`.
pub open spec fn variant_form(name: Seq<char>, m: Seq<char>) -> Seq<char> {
    name + "("@ + str_debug(m) + ")"@
}

/// The debug form of a binding error: its variant, with its quoted message.
pub open spec fn bind_error_text(e: BindError) -> Seq<char> {
    match e {
        BindError::UnsupportedStatement(m) => variant_form("UnsupportedStatement"@, m@),
        BindError::UnsupportedDataType(m) => variant_form("UnsupportedDataType"@, m@),
        BindError::UnsupportedTableName(m) => variant_form("UnsupportedTableName"@, m@),
        BindError::TableNotFound(m) => variant_form("TableNotFound"@, m@),
        BindError::ColumnNotFound(m) => variant_form("ColumnNotFound"@, m@),
        BindError::AmbiguousColumnName(m) => variant_form("AmbiguousColumnName"@, m@),
        BindError::NotImplemented(m) => variant_form("NotImplemented"@, m@),
        BindError::Exception(m) => variant_form("Exception"@, m@),
        BindError::UnsupportedExpr(m) => variant_form("UnsupportedExpr"@, m@),
        BindError::UnsupportedTableFactor(m) => variant_form("UnsupportedTableFactor"@, m@),
        BindError::UnsupportObjectName(m) => variant_form("UnsupportObjectName"@, m@),
        BindError::UnsupportedJoinType(m) => variant_form("UnsupportedJoinType"@, m@),
        BindError::UnsupportedJoinConstraint(m) => variant_form("UnsupportedJoinConstraint"@, m@),
        BindError::UnsupportedBinaryOperator(m) => variant_form("UnsupportedBinaryOperator"@, m@),
        BindError::UnsupportedTableRef(m) => variant_form("UnsupportedTableRef"@, m@),
        BindError::EmptyTableRef => "EmptyTableRef"@,
        BindError::UnsupportedYetSQL(m) => variant_form("UnsupportedYetSQL"@, m@),
        BindError::Message(m) => variant_form("Message"@, m@),
    }
}

/// The name of the table a statement creates, if it is CREATE TABLE.
pub open spec fn created_name(s: SqlStatement) -> Option<Seq<char>> {
    match s {
        SqlStatement::CreateTable(ct) => part_identifier(ct.name.parts@[0]),
        _ => None,
    }
}

/// Whether a table named `n` is in `cat` or created by one of the first `i` statements.
pub open spec fn known_before(cat: Catalog, stmts: Seq<SqlStatement>, i: int, n: Seq<char>) -> bool {
    cat.has_table(n) || exists|j: int| 0 <= j < i && #[trigger] created_name(stmts[j]) == Some(n)
}

/// Whether the statements can be run in turn without reaching the
/// planner, which no statement that binds can pass yet: no query binds,
/// no insert names a table that exists by then, and each CREATE TABLE is
/// named and of a bounded width.
pub open spec fn batch_ok(cat: Catalog, stmts: Seq<SqlStatement>) -> bool {
    forall|i: int| 0 <= i < stmts.len() ==> #[trigger] statement_ok(cat, stmts, i)
}

/// Whether statement `i` of `stmts` passes `batch_ok`.
pub open spec fn statement_ok(cat: Catalog, stmts: Seq<SqlStatement>, i: int) -> bool {
    match stmts[i] {
        SqlStatement::Query(q) => !query_ok(None, cat, *q),
        SqlStatement::Insert(ins) => !(ins.source matches Some(q) && query_ok(None, cat, *q) && (ins.table matches SqlTableObject::TableName(
            name,
        ) && (object_name(name) matches Some(n) && known_before(cat, stmts, i, n)))),
        SqlStatement::CreateTable(ct) => ct.name.parts@.len() >= 1 && columns_fit(ct.columns@.len() as int),
        SqlStatement::Other(_) => true,
    }
}

/// Whether the statement `s` runs without error on the catalog `cat`,
/// leaving `next`: a CREATE TABLE that binds and creates its table.
pub open spec fn step_ok(cat: Catalog, s: SqlStatement, next: Catalog) -> bool {
    s matches SqlStatement::CreateTable(ct) && exists|c: CreateStatement, m: String|
        create_binding(ct, Ok(c)) && #[trigger] created(cat, c, next, Ok(m))
}

/// Whether the statement `s` fails on the catalog `cat` with `e`, leaving `next`.
pub open spec fn step_err(cat: Catalog, s: SqlStatement, next: Catalog, e: BustubError) -> bool {
    ||| exists|be: BindError|
        #[trigger] statement_binding(None, cat, s, Err(be)) && next == cat && (e matches BustubError::Message(m) && m@
            == bind_error_text(be))
    ||| s matches SqlStatement::CreateTable(ct) && exists|c: CreateStatement|
        create_binding(ct, Ok(c)) && #[trigger] created(cat, c, next, Err(e))
}

/// Whether running the statements `stmts` in turn on `cat` leaves `after`
/// and gives `r`: false once all ran, or the error of the first that fails.
pub open spec fn batch_runs(cat: Catalog, stmts: Seq<SqlStatement>, after: Catalog, r: Result<bool, BustubError>) -> bool
    decreases stmts.len(),
{
    if stmts.len() == 0 {
        after == cat && r == Ok::<bool, BustubError>(false)
    } else {
        ||| exists|mid: Catalog| #[trigger] step_ok(cat, stmts[0], mid) && batch_runs(mid, stmts.drop_first(), after, r)
        ||| r matches Err(e) && step_err(cat, stmts[0], after, e)
    }
}

/// The shell's help message.
pub open spec fn help_message() -> Seq<char> {
    "Welcome to the BusTub shell!\n\n\\dt: show all tables\n\\di: show all indices\n\\dbgmvcc <table>: show version chain of a table\n\\help: show this message again\n\\txn: show current txn information\n\\txn <txn_id>: switch to txn\n\\txn gc: run garbage collection\n\\txn -1: exit txn mode\n\nBusTub shell currently only supports a small set of Postgres queries. We'll set\nup a doc describing the current status later. It will silently ignore some parts\nof the query, so it's normal that you'll get a wrong result when executing\nunsupported SQL queries. This shell will be able to run `create table` only\nafter you have completed the buffer pool manager. It will be able to execute SQL\nqueries after you have implemented necessary query executors. Use `explain` to\nsee the execution plan of your query."@
}

/// The rows, as text, that list the tables of `cat`: a header, then each
/// table's OID, name and columns.
pub open spec fn tables_listing(cat: Catalog) -> Seq<Seq<Seq<char>>> {
    seq![seq!["oid"@, "name"@, "cols"@]] + cat.tables().map_values(
        |t: TableView| seq![decimal(t.oid as nat), t.name, schema_text(t.schema, true)],
    )
}

/// The row, as text, listing the index `x`.
pub open spec fn index_row(x: IndexView) -> Seq<Seq<char>> {
    seq![x.table_name, decimal(x.index_oid as nat), x.name, schema_text(x.key_schema, true)]
}

/// The rows listing the indexes of each table of `tables` in turn.
pub open spec fn indexes_rows(tables: Seq<TableView>, indexes: Seq<IndexView>) -> Seq<Seq<Seq<char>>>
    decreases tables.len(),
{
    if tables.len() == 0 {
        Seq::empty()
    } else {
        indexes_rows(tables.drop_last(), indexes) + indexes.filter(
            |x: IndexView| x.table_name == tables.last().name,
        ).map_values(|x: IndexView| index_row(x))
    }
}

/// The rows, as text, that list the indexes of `cat`: a header, then each
/// index table by table.
pub open spec fn indexes_listing(cat: Catalog) -> Seq<Seq<Seq<char>>> {
    seq![seq!["table_name"@, "index_oid"@, "index_name"@, "index_cols"@]] + indexes_rows(cat.tables(), cat.indexes())
}

/// Whether, the statements of a line having given `res`, the line gives
/// `r` and leaves the transactions of `after`: a transaction of its own
/// commits or aborts with them; the session's transaction stays current
/// when they succeed, and aborts, leaving the session without one, when
/// they fail.
pub open spec fn sql_outcome(before: BustubInstance, after: BustubInstance, res: Result<bool, BustubError>, r: Result<bool, BustubError>) -> bool {
    match before.current_txn() {
        None => {
            let id = (TXN_START_ID + before.txns()@.txns.len()) as TxnId;
            &&& after.current_txn() is None
            &&& after.txns()@.txns.len() == before.txns()@.txns.len() + 1
            &&& match res {
                Ok(x) => r == Ok::<bool, BustubError>(x) && after.txns().txn(id).state == TransactionState::Committed,
                Err(e) => r == Err::<bool, BustubError>(e) && after.txns().txn(id).state == TransactionState::Aborted,
            }
        },
        Some(t) => match res {
            Ok(x) => r == Ok::<bool, BustubError>(x) && after.current_txn() == Some(t) && after.txns() == before.txns(),
            Err(e) => after.current_txn() is None && if can_abort(before.txns().txn(t).state) {
                r == Err::<bool, BustubError>(e) && after.txns().txn(t).state == TransactionState::Aborted
            } else {
                after.txns()@ == before.txns()@ && (r matches Err(BustubError::Message(m)) && m@
                    == "txn not in running / tainted state"@)
            },
        },
    }
}

/// Whether `r` is what the planner gives for the bound statement `stmt`.
pub open spec fn planned(stmt: BoundStatement, r: Result<PlanNode, BustubError>) -> bool {
    match stmt {
        BoundStatement::Select(sel) => select_planned(sel, r),
        BoundStatement::Insert(ins) => insert_planned(ins, r),
        _ => fails_with(r, "Planner: unsupported statement type "@ + statement_text(stmt)),
    }
}

/// The part of an EXPLAIN report that shows a plan under `title`, with its
/// output schema when asked.
pub open spec fn plan_section(title: Seq<char>, p: PlanNode, show_schema: bool) -> Seq<char> {
    title + plan_name(p) + (if show_schema {
        "\nschema: "@ + schema_text(plan_output(p)@, true) + "\n"@
    } else {
        Seq::empty()
    }) + "\n"@
}

/// The EXPLAIN report of `stmt` planned as `p`, with the sections the
/// option bits `options` ask for.
pub open spec fn explain_text(options: u8, stmt: BoundStatement, p: PlanNode) -> Seq<char> {
    let show_schema = options & 8 != 0;
    (if options & 1 != 0 {
        "=== BINDER ===\n"@ + statement_text(stmt) + "\n"@
    } else {
        Seq::empty()
    }) + (if options & 2 != 0 {
        plan_section("=== PLANNER ===\n"@, p, show_schema)
    } else {
        Seq::empty()
    }) + (if options & 4 != 0 {
        plan_section("=== OPTIMIZER ===\n"@, p, show_schema)
    } else {
        Seq::empty()
    })
}

/// The rows as text.
pub open spec fn rows_text(rows: Seq<Vec<String>>) -> Seq<Seq<Seq<char>>> {
    rows.map_values(|row: Vec<String>| string_views(row@))
}

/// What an internal command (a line that starts with a backslash) is.
pub enum InternalCommand {
    DisplayTables,
    DisplayIndices,
    Help,
    DebugMvcc,
    Txn,
    Unsupported,
}

/// The internal command `sql` names.
pub open spec fn internal_command(sql: Seq<char>) -> InternalCommand {
    if sql == "\\dt"@ {
        InternalCommand::DisplayTables
    } else if sql == "\\di"@ {
        InternalCommand::DisplayIndices
    } else if sql == "\\help"@ {
        InternalCommand::Help
    } else if "\\dbgmvcc"@.is_prefix_of(sql) {
        InternalCommand::DebugMvcc
    } else if "\\txn"@.is_prefix_of(sql) {
        InternalCommand::Txn
    } else {
        InternalCommand::Unsupported
    }
}

/// Whether `sql` is an internal command: it starts with a backslash.
pub open spec fn is_internal(sql: Seq<char>) -> bool {
    sql.len() > 0 && sql[0] == '\\'
}

/// Whether running the parsed SQL `parsed` on `cat` leaves `after` and gives `res`.
pub open spec fn sql_ran(cat: Catalog, parsed: Result<Vec<SqlStatement>, String>, after: Catalog, res: Result<bool, BustubError>) -> bool {
    match parsed {
        Err(m) => after == cat && (res matches Err(BustubError::Message(x)) && x@ == "parse error: "@ + m@),
        Ok(stmts) => batch_runs(cat, stmts@, after, res),
    }
}

/// Whether creating the mock tables `names` in turn on `cat` leaves
/// `after` and gives `r`: each is added with its columns, until one is
/// unknown or exists.
pub open spec fn mock_created(cat: Catalog, names: Seq<Seq<char>>, after: Catalog, r: Result<(), BustubError>) -> bool
    decreases names.len(),
{
    if names.len() == 0 {
        after == cat && r is Ok
    } else if mock_columns(names[0]) is None {
        after == cat && (r matches Err(BustubError::Message(m)) && m@ == "mock table "@ + names[0] + " not found"@)
    } else if cat.has_table(names[0]) {
        after == cat && (r matches Err(BustubError::Message(m)) && m@ == "table "@ + names[0] + " exists"@)
    } else {
        exists|mid: Catalog| #[trigger] mock_added(cat, names[0], mid) && mock_created(mid, names.drop_first(), after, r)
    }
}

/// Whether `mid` is `cat` with the mock table `name` added.
pub open spec fn mock_added(cat: Catalog, name: Seq<char>, mid: Catalog) -> bool {
    &&& mid.tables() == cat.tables().push(
        TableView { schema: schema_of(mock_columns(name)->0), name, oid: cat.tables().len() as u32 },
    )
    &&& mid.indexes() == cat.indexes()
}

/// A BusTub database: its buffer pool, its transactions, its catalog and
/// the session's variables.
pub struct BustubInstance {
    pub(crate) bpm: BufferPoolManager<DiskManagerMemory>,
    pub(crate) txn_manager: TransactionManager,
    pub(crate) catalog: CatalogRef,
    curr_txn: Option<TxnId>,
    managed_txn_mode: bool,
    session_vars: Vec<(String, String)>,
}

impl BustubInstance {
    /// The catalog, the transactions and the session are consistent.
    pub closed spec fn wf(&self) -> bool {
        &&& self.catalog.wf()
        &&& self.txn_manager.wf()
        &&& (self.curr_txn matches Some(id) ==> self.txn_manager.has_txn(id))
        &&& vars_unique(self.session_vars@)
    }

    /// The catalog.
    pub closed spec fn catalog(&self) -> Catalog {
        *self.catalog
    }

    /// The transaction manager.
    pub closed spec fn txns(&self) -> TransactionManager {
        self.txn_manager
    }

    /// The session variables.
    pub closed spec fn vars(&self) -> Map<Seq<char>, Seq<char>> {
        vars_map(self.session_vars@)
    }

    /// The transaction the session runs in, in managed mode.
    pub closed spec fn current_txn(&self) -> Option<TxnId> {
        self.curr_txn
    }

    /// Whether transactions are managed by the session.
    pub closed spec fn managed(&self) -> bool {
        self.managed_txn_mode
    }

    /// A database over an in-memory disk, with an empty catalog, no
    /// transaction and no session variable.
    pub fn new() -> (r: Self)
        ensures
            r.wf(),
            r.catalog().tables() == Seq::<TableView>::empty(),
            r.catalog().indexes() == Seq::<IndexView>::empty(),
            r.current_txn() is None,
            !r.managed(),
            r.vars() == Map::<Seq<char>, Seq<char>>::empty(),
            r.txns()@.txns.len() == 0,
    {
        let bpm = BufferPoolManager::new(BUFFER_POOL_SIZE, DiskManagerMemory::new(), LRUK_REPLACER_K);
        BustubInstance {
            bpm,
            txn_manager: TransactionManager::new(),
            catalog: Rc::new(Catalog::new()),
            curr_txn: None,
            managed_txn_mode: false,
            session_vars: Vec::new(),
        }
    }

    /// Lets the session manage its transactions.
    pub fn enable_managed_txn_mode(&mut self)
        ensures
            final(self).managed(),
            final(self).wf() == old(self).wf(),
            final(self).catalog() == old(self).catalog(),
            final(self).txns() == old(self).txns(),
            final(self).vars() == old(self).vars(),
            final(self).current_txn() == old(self).current_txn(),
    {
        self.managed_txn_mode = true;
    }

    /// The value of a session variable, empty when it is not set.
    pub fn get_session_variable(&self, key: &str) -> (r: String)
        requires
            self.wf(),
        ensures
            r@ == (if self.vars().contains_key(key@) {
                self.vars()[key@]
            } else {
                Seq::empty()
            }),
    {
        let ghost vars = self.session_vars@;
        let mut i: usize = self.session_vars.len();
        while i > 0
            invariant
                0 <= i <= vars.len(),
                vars == self.session_vars@,
                vars_unique(vars),
                vars_map(vars) == self.vars(),
                forall|j: int| i <= j < vars.len() ==> #[trigger] vars[j].0@ != key@,
            decreases i,
        {
            i -= 1;
            if str_eq(self.session_vars[i].0.as_str(), key) {
                proof {
                    lemma_vars_map_at(vars, i as int);
                }
                return self.session_vars[i].1.clone();
            }
        }
        proof {
            lemma_vars_map_missing(vars, key@);
        }
        String::new()
    }

    /// Sets a session variable.
    pub fn set_session_variable(&mut self, key: &str, value: &str)
        requires
            old(self).wf(),
        ensures
            final(self).wf(),
            final(self).vars() == old(self).vars().insert(key@, value@),
            final(self).catalog() == old(self).catalog(),
            final(self).txns() == old(self).txns(),
            final(self).current_txn() == old(self).current_txn(),
            final(self).managed() == old(self).managed(),
    {
        let ghost vars = self.session_vars@;
        let mut i: usize = 0;
        while i < self.session_vars.len()
            invariant
                0 <= i <= vars.len(),
                vars == self.session_vars@,
                *self == *old(self),
                old(self).wf(),
                forall|j: int| 0 <= j < i ==> #[trigger] vars[j].0@ != key@,
            decreases vars.len() - i,
        {
            if str_eq(self.session_vars[i].0.as_str(), key) {
                let entry = (String::from_str(key), String::from_str(value));
                self.session_vars.set(i, entry);
                proof {
                    lemma_vars_map_update(vars, i as int, entry);
                }
                return;
            }
            i += 1;
        }
        let entry = (String::from_str(key), String::from_str(value));
        self.session_vars.push(entry);
        assert(self.session_vars@.drop_last() =~= vars);
        assert(vars_unique(self.session_vars@)) by {
            assert forall|a: int, b: int| 0 <= a < b < self.session_vars@.len() implies #[trigger] self.session_vars@[a].0@
                != #[trigger] self.session_vars@[b].0@ by {
                if b < vars.len() {
                    assert(self.session_vars@[a] == vars[a]);
                    assert(self.session_vars@[b] == vars[b]);
                    assert(vars[a].0@ != vars[b].0@);
                } else {
                    assert(self.session_vars@[a] == vars[a]);
                    assert(self.session_vars@[b] == entry);
                    assert(vars[a].0@ != key@);
                }
            }
        }
    }

    /// Whether the session asks the optimizer to force its starter rules.
    pub fn is_force_starter_rule(&self) -> (r: bool)
        requires
            self.wf(),
        ensures
            ({
                let v = if self.vars().contains_key("force_optimizer_starter_rule"@) {
                    self.vars()["force_optimizer_starter_rule"@]
                } else {
                    Seq::empty()
                };
                r == (v == "1"@ || v == "true"@ || v == "yes"@)
            }),
    {
        let value = self.get_session_variable("force_optimizer_starter_rule");
        str_eq(value.as_str(), "1") || str_eq(value.as_str(), "true") || str_eq(value.as_str(), "yes")
    }
}

/// The value of the variable at `i` is the one the map gives its name.
proof fn lemma_vars_map_at(vars: Seq<(String, String)>, i: int)
    requires
        0 <= i < vars.len(),
        vars_unique(vars),
    ensures
        vars_map(vars).contains_key(vars[i].0@),
        vars_map(vars)[vars[i].0@] == vars[i].1@,
    decreases vars.len(),
{
    if i < vars.len() - 1 {
        lemma_vars_unique_prefix(vars);
        lemma_vars_map_at(vars.drop_last(), i);
    }
}

/// A name no variable has is not in the map.
proof fn lemma_vars_map_missing(vars: Seq<(String, String)>, key: Seq<char>)
    requires
        forall|j: int| 0 <= j < vars.len() ==> #[trigger] vars[j].0@ != key,
    ensures
        !vars_map(vars).contains_key(key),
    decreases vars.len(),
{
    if vars.len() > 0 {
        assert forall|j: int| 0 <= j < vars.drop_last().len() implies #[trigger] vars.drop_last()[j].0@ != key by {
            assert(vars.drop_last()[j] == vars[j]);
        }
        lemma_vars_map_missing(vars.drop_last(), key);
    }
}

/// Dropping the last variable keeps the names distinct.
proof fn lemma_vars_unique_prefix(vars: Seq<(String, String)>)
    requires
        vars.len() > 0,
        vars_unique(vars),
    ensures
        vars_unique(vars.drop_last()),
{
    let d = vars.drop_last();
    assert forall|a: int, b: int| 0 <= a < b < d.len() implies #[trigger] d[a].0@ != #[trigger] d[b].0@ by {
        assert(d[a] == vars[a] && d[b] == vars[b]);
    }
}

/// Replacing the variable at `i` by one of the same name sets its value.
proof fn lemma_vars_map_update(vars: Seq<(String, String)>, i: int, entry: (String, String))
    requires
        0 <= i < vars.len(),
        vars_unique(vars),
        entry.0@ == vars[i].0@,
    ensures
        vars_unique(vars.update(i, entry)),
        vars_map(vars.update(i, entry)) == vars_map(vars).insert(entry.0@, entry.1@),
    decreases vars.len(),
{
    let u = vars.update(i, entry);
    if i == vars.len() - 1 {
        assert(u.drop_last() =~= vars.drop_last());
        assert forall|j: int| 0 <= j < vars.drop_last().len() implies #[trigger] vars.drop_last()[j].0@
            != entry.0@ by {
            assert(vars.drop_last()[j] == vars[j]);
        }
        lemma_vars_map_missing(vars.drop_last(), entry.0@);
        assert(vars_map(u) =~= vars_map(vars).insert(entry.0@, entry.1@));
    } else {
        assert(u.drop_last() =~= vars.drop_last().update(i, entry));
        lemma_vars_unique_prefix(vars);
        lemma_vars_map_update(vars.drop_last(), i, entry);
        assert(vars_map(u) =~= vars_map(vars).insert(entry.0@, entry.1@));
    }
}

impl BustubInstance {
    /// Creates the table of a CREATE TABLE statement, with an index on its
    /// primary key when it has one; returns the row reporting it.
    pub fn handle_create_statement(&mut self, create: &CreateStatement) -> (r: Result<String, BustubError>)
        requires
            old(self).wf(),
            columns_fit(create.columns@.len() as int),
            columns_fit(create.primary_key@.len() as int),
            all_named(column_views(create.columns@), create.primary_key@.map_values(|s: String| s@)),
            old(self).catalog().tables().len() < u32::MAX,
            old(self).catalog().indexes().len() < u32::MAX,
        ensures
            final(self).wf(),
            created(old(self).catalog(), *create, final(self).catalog(), r),
            final(self).txns() == old(self).txns(),
            final(self).vars() == old(self).vars(),
            final(self).current_txn() == old(self).current_txn(),
            final(self).managed() == old(self).managed(),
    {
        proof {
            reveal_strlit("table ");
            reveal_strlit(" exists.");
            reveal_strlit("Table created with oid = ");
            reveal_strlit(".");
            reveal_strlit("only support creating index on integer column.");
            reveal_strlit("primary key should not be empty.");
            reveal_strlit("unsupported: primary key size exceeds 64 bytes");
            reveal_strlit("_pk");
            reveal_strlit("index ");
            reveal_strlit(" exists");
            reveal_strlit(", primary key index created with id = ");
        }
        let ghost cols = column_views(create.columns@);
        let ghost pk = create.primary_key@.map_values(|s: String| s@);
        small_columns(&create.columns);
        proof {
            lemma_few_small_columns_fit(cols);
        }
        let mut copy: Vec<Column> = Vec::new();
        let mut i: usize = 0;
        while i < create.columns.len()
            invariant
                0 <= i <= create.columns@.len(),
                copy@ == create.columns@.take(i as int),
            decreases create.columns@.len() - i,
        {
            copy.push(create.columns[i].duplicate());
            assert(create.columns@.take(i + 1) =~= create.columns@.take(i as int).push(create.columns@[i as int]));
            i += 1;
        }
        assert(create.columns@.take(i as int) =~= create.columns@);
        let schema = Schema::new(copy);
        let mut cat = self.catalog.duplicate();
        let oid = match cat.create_table(create.table.as_str(), &schema) {
            None => {
                let mut m = String::from_str("table ");
                m.append(create.table.as_str());
                m.append(" exists.");
                return Err(BustubError::Message(m));
            },
            Some(oid) => oid,
        };
        if create.primary_key.len() == 0 {
            self.catalog = Rc::new(cat);
            let mut m = String::from_str("Table created with oid = ");
            push_decimal(&mut m, oid as u64);
            m.append(".");
            return Ok(m);
        }
        let ghost sch = schema@;
        assert(sch.columns == crate::catalog::schema::laid_out(cols));
        let mut index_col_ids: Vec<usize> = Vec::new();
        let mut k: usize = 0;
        while k < create.primary_key.len()
            invariant
                0 <= k <= pk.len(),
                pk == create.primary_key@.map_values(|s: String| s@),
                sch == schema@,
                sch == schema_of(cols),
                sch.columns == crate::catalog::schema::laid_out(cols),
                cols == column_views(create.columns@),
                all_named(cols, pk),
                *self == *old(self),
                old(self).wf(),
                cat.wf(),
                !old(self).catalog().has_table(create.table@),
                oid == old(self).catalog().tables().len(),
                cat.tables() == old(self).catalog().tables().push(TableView { schema: sch, name: create.table@, oid }),
                cat.indexes() == old(self).catalog().indexes(),
                old(self).catalog().indexes().len() < u32::MAX,
                old(self).catalog().tables().len() < u32::MAX,
                index_col_ids@.len() == k,
                forall|j: int| 0 <= j < k ==> #[trigger] index_col_ids@[j] as int == positions_of(sch.columns, pk)[j],
                forall|j: int| 0 <= j < k ==> #[trigger] index_col_ids@[j] < sch.columns.len(),
                forall|j: int| 0 <= j < k ==> sch.columns[#[trigger] positions_of(sch.columns, pk)[j]].type_id == TypeId::Integer,
            decreases pk.len() - k,
        {
            let name = create.primary_key[k].as_str();
            proof {
                assert(pk[k as int] == name@);
                let w = choose|w: int| 0 <= w < cols.len() && #[trigger] cols[w].name == pk[k as int];
                assert(sch.columns[w].name == name@);
            }
            let idx = schema.get_col_idx(name);
            proof {
                assert(first_named(sch.columns, name@, idx as int));
                lemma_index_named(sch.columns, name@, idx as int);
            }
            if schema.get_column(idx as usize).get_type() != TypeId::Integer {
                self.catalog = Rc::new(cat);
                assert(!all_integer(sch.columns, positions_of(sch.columns, pk))) by {
                    assert(sch.columns[positions_of(sch.columns, pk)[k as int]].type_id != TypeId::Integer);
                }
                return Err(BustubError::Message(String::from_str("only support creating index on integer column.")));
            }
            index_col_ids.push(idx as usize);
            k += 1;
        }
        assert(all_integer(sch.columns, positions_of(sch.columns, pk)));
        if index_col_ids.len() == 0 {
            self.catalog = Rc::new(cat);
            return Err(BustubError::Message(String::from_str("primary key should not be empty.")));
        }
        let ghost ids = positions_of(sch.columns, pk);
        let ghost picked = Seq::new(index_col_ids@.len(), |j: int| sch.columns[index_col_ids@[j] as int]);
        proof {
            assert(picked =~= picked_columns(sch.columns, ids));
            assert forall|j: int| 0 <= j < picked.len() implies (#[trigger] picked[j].type_id != TypeId::Varchar
                ==> picked[j].length <= 8) by {
                assert(picked[j] == sch.columns[index_col_ids@[j] as int]);
                assert(cols[index_col_ids@[j] as int].type_id != TypeId::Varchar ==> cols[index_col_ids@[j] as int].length <= 8);
            }
            lemma_few_small_columns_fit(picked);
        }
        let key_schema = Schema::copy_schema(&schema, index_col_ids.as_slice());
        let key_size = match supported_key_size(index_col_ids.len() * 4) {
            Some(ks) => ks,
            None => {
                self.catalog = Rc::new(cat);
                return Err(BustubError::Message(String::from_str("unsupported: primary key size exceeds 64 bytes")));
            },
        };
        let mut index_name = String::from_str(create.table.as_str());
        index_name.append("_pk");
        proof {
            let old_cat = old(self).catalog();
            assert(cat.has_table(create.table@)) by {
                assert(cat.tables()[old_cat.tables().len() as int].name == create.table@);
            }
            assert(!cat.has_index(index_name@, create.table@)) by {
                if cat.has_index(index_name@, create.table@) {
                    let w = choose|w: int|
                        0 <= w < cat.indexes().len() && #[trigger] cat.indexes()[w].name == index_name@
                            && cat.indexes()[w].table_name == create.table@;
                    assert(old_cat.has_table(old_cat.indexes()[w].table_name));
                }
            }
        }
        let index_oid = match cat.create_index(
            index_name.as_str(),
            create.table.as_str(),
            &key_schema,
            key_size,
            true,
            IndexType::BPlusTreeIndex,
        ) {
            Some(x) => x,
            None => {
                self.catalog = Rc::new(cat);
                let mut m = String::from_str("index ");
                m.append(create.table.as_str());
                m.append("_pk exists");
                return Err(BustubError::Message(m));
            },
        };
        self.catalog = Rc::new(cat);
        let mut m = String::from_str("Table created with oid = ");
        push_decimal(&mut m, oid as u64);
        m.append(", primary key index created with id = ");
        push_decimal(&mut m, index_oid as u64);
        m.append(".");
        Ok(m)
    }
}

impl BustubInstance {
    /// Creates the index of a CREATE INDEX statement on INTEGER columns;
    /// returns the row reporting it.
    pub fn handle_index_statement(&mut self, stmt: &IndexStatement) -> (r: Result<String, BustubError>)
        requires
            old(self).wf(),
            index_cols_named(*stmt),
            columns_fit(stmt.cols@.len() as int),
            old(self).catalog().indexes().len() < u32::MAX,
        ensures
            final(self).wf(),
            index_created(old(self).catalog(), *stmt, final(self).catalog(), r),
            final(self).txns() == old(self).txns(),
            final(self).vars() == old(self).vars(),
            final(self).current_txn() == old(self).current_txn(),
            final(self).managed() == old(self).managed(),
    {
        proof {
            reveal_strlit("empty column name");
            reveal_strlit("only support creating index on integer column");
            reveal_strlit("index columns should not be empty");
            reveal_strlit("unsupported: index key size exceeds 64 bytes");
            reveal_strlit("failed to create index ");
            reveal_strlit("Index created with oid = ");
            reveal_strlit(" with type = BPlusTreeIndex");
        }
        let schema = &stmt.table.schema;
        let ghost cols = schema@.columns;
        let ghost ics = stmt.cols@;
        let mut col_ids: Vec<usize> = Vec::new();
        let mut i: usize = 0;
        while i < stmt.cols.len()
            invariant
                0 <= i <= ics.len(),
                ics == stmt.cols@,
                cols == schema@.columns,
                *schema == stmt.table.schema,
                *self == *old(self),
                old(self).wf(),
                index_cols_named(*stmt),
                index_cols_ok_before(cols, ics, i as int),
                col_ids@.len() == i,
                forall|j: int| 0 <= j < i ==> #[trigger] col_ids@[j] as int == index_named(cols, last_name(ics[j])),
                forall|j: int| 0 <= j < i ==> #[trigger] col_ids@[j] < cols.len(),
            decreases ics.len() - i,
        {
            let names = &stmt.cols[i].col_names;
            if names.len() == 0 {
                assert(!index_cols_ok_before(cols, ics, ics.len() as int)) by {
                    assert(!index_col_ok(cols, ics[i as int]));
                }
                let e: Result<String, BustubError> = Err(BustubError::Message(String::from_str("empty column name")));
                assert(0 <= i < ics.len() && index_cols_ok_before(cols, ics, i as int) && !index_col_ok(cols, ics[i as int])
                    && ics[i as int].col_names@.len() == 0 && (e matches Err(BustubError::Message(m)) && m@ == "empty column name"@));
                return e;
            }
            let col_name = names[names.len() - 1].as_str();
            proof {
                assert(col_name@ == last_name(ics[i as int]));
                let w = choose|w: int| 0 <= w < cols.len() && #[trigger] cols[w].name == last_name(ics[i as int]);
                assert(cols[w].name == col_name@);
            }
            let idx = schema.get_col_idx(col_name);
            proof {
                assert(first_named(cols, col_name@, idx as int));
                lemma_index_named(cols, col_name@, idx as int);
            }
            if schema.get_column(idx as usize).get_type() != TypeId::Integer {
                assert(!index_cols_ok_before(cols, ics, ics.len() as int)) by {
                    assert(!index_col_ok(cols, ics[i as int]));
                }
                let e: Result<String, BustubError> = Err(BustubError::Message(String::from_str("only support creating index on integer column")));
                assert(0 <= i < ics.len() && index_cols_ok_before(cols, ics, i as int) && !index_col_ok(cols, ics[i as int])
                    && ics[i as int].col_names@.len() != 0 && (e matches Err(BustubError::Message(m)) && m@
                    == "only support creating index on integer column"@));
                return e;
            }
            col_ids.push(idx as usize);
            i += 1;
        }
        if col_ids.len() == 0 {
            return Err(BustubError::Message(String::from_str("index columns should not be empty")));
        }
        let ghost ids = ics.map_values(|c: BoundColumnRef| index_named(cols, last_name(c)));
        let ghost picked = Seq::new(col_ids@.len(), |j: int| cols[col_ids@[j] as int]);
        let column_list = schema.get_columns();
        small_columns(column_list);
        proof {
            assert(picked =~= picked_columns(cols, ids));
            assert forall|j: int| 0 <= j < picked.len() implies (#[trigger] picked[j].type_id != TypeId::Varchar
                ==> picked[j].length <= 8) by {
                assert(picked[j] == cols[col_ids@[j] as int]);
                assert(column_views(column_list@)[col_ids@[j] as int].type_id != TypeId::Varchar ==> column_views(
                    column_list@,
                )[col_ids@[j] as int].length <= 8);
            }
            lemma_few_small_columns_fit(picked);
        }
        let key_schema = Schema::copy_schema(schema, col_ids.as_slice());
        let key_size = match supported_key_size(col_ids.len() * 4) {
            Some(ks) => ks,
            None => {
                return Err(BustubError::Message(String::from_str("unsupported: index key size exceeds 64 bytes")));
            },
        };
        let mut cat = self.catalog.duplicate();
        let index_oid = match cat.create_index(
            stmt.index_name.as_str(),
            stmt.table.table.as_str(),
            &key_schema,
            key_size,
            false,
            stmt.index_type,
        ) {
            Some(x) => x,
            None => {
                let mut m = String::from_str("failed to create index ");
                m.append(stmt.index_name.as_str());
                return Err(BustubError::Message(m));
            },
        };
        self.catalog = Rc::new(cat);
        let mut m = String::from_str("Index created with oid = ");
        push_decimal(&mut m, index_oid as u64);
        m.append(" with type = BPlusTreeIndex");
        Ok(m)
    }
}

fn state_text(s: TransactionState) -> (r: &'static str)
    ensures
        r@ == state_name(s),
{
    proof {
        reveal_strlit("Running");
        reveal_strlit("Tainted");
        reveal_strlit("Committed");
        reveal_strlit("Aborted");
    }
    match s {
        TransactionState::Running => "Running",
        TransactionState::Tainted => "Tainted",
        TransactionState::Committed => "Committed",
        TransactionState::Aborted => "Aborted",
    }
}

fn iso_text(l: IsolationLevel) -> (r: &'static str)
    ensures
        r@ == iso_name(l),
{
    proof {
        reveal_strlit("ReadUncommitted");
        reveal_strlit("SnapshotIsolation");
        reveal_strlit("Serializable");
    }
    match l {
        IsolationLevel::ReadUncommitted => "ReadUncommitted",
        IsolationLevel::SnapshotIsolation => "SnapshotIsolation",
        IsolationLevel::Serializable => "Serializable",
    }
}

fn push_begin_text(m: &mut String, t: &Transaction)
    ensures
        final(m)@ == old(m)@ + begin_text(t@),
{
    proof {
        reveal_strlit("txn_id=");
        reveal_strlit(" txn_real_id=");
        reveal_strlit(" read_ts=");
        reveal_strlit(" commit_ts=");
        reveal_strlit(" status=");
        reveal_strlit(" iso_lvl=");
    }
    m.append("txn_id=");
    push_signed_decimal(m, t.get_transaction_id_human_readable());
    m.append(" txn_real_id=");
    push_signed_decimal(m, t.get_transaction_id());
    m.append(" read_ts=");
    push_signed_decimal(m, t.get_read_ts());
    m.append(" commit_ts=");
    push_signed_decimal(m, t.get_commit_ts());
    m.append(" status=");
    m.append(state_text(t.get_state()));
    m.append(" iso_lvl=");
    m.append(iso_text(t.get_isolation_level()));
}

fn push_end_text(m: &mut String, t: &Transaction, with_commit_ts: bool)
    ensures
        final(m)@ == old(m)@ + end_text(t@, with_commit_ts),
{
    proof {
        reveal_strlit("txn_id=");
        reveal_strlit(", status=");
        reveal_strlit(", read_ts=");
        reveal_strlit(", commit_ts=");
    }
    m.append("txn_id=");
    push_signed_decimal(m, t.get_transaction_id_human_readable());
    m.append(", status=");
    m.append(state_text(t.get_state()));
    m.append(", read_ts=");
    push_signed_decimal(m, t.get_read_ts());
    if with_commit_ts {
        m.append(", commit_ts=");
        push_signed_decimal(m, t.get_commit_ts());
    }
}

impl BustubInstance {
    /// Runs BEGIN, COMMIT or ROLLBACK; returns the row reporting it.
    pub fn handle_txn_statement(&mut self, txn: Option<TxnId>, stmt: &TransactionStatement) -> (r: Result<String, BustubError>)
        requires
            old(self).wf(),
            txn matches Some(id) ==> old(self).txns().has_txn(id),
            stmt.txn_type == TransactionStatementType::Begin && old(self).managed() ==> {
                &&& TXN_START_ID + old(self).txns()@.txns.len() < i64::MAX
                &&& old(self).txns()@.watermark.reads.contains_key(0) ==> old(self).txns()@.watermark.reads[0] < i32::MAX
            },
        ensures
            final(self).wf(),
            final(self).catalog() == old(self).catalog(),
            final(self).vars() == old(self).vars(),
            final(self).current_txn() == old(self).current_txn(),
            final(self).managed() == old(self).managed(),
            match stmt.txn_type {
                TransactionStatementType::Begin => if !old(self).managed() {
                    final(self).txns()@ == old(self).txns()@ && (r matches Ok(m) && m@
                        == "begin statement is only supported in managed txn mode, please use bustub-shell"@)
                } else {
                    let id = (TXN_START_ID + old(self).txns()@.txns.len()) as TxnId;
                    let t = TransactionView {
                        state: TransactionState::Running,
                        read_ts: 0,
                        commit_ts: INVALID_TS,
                        undo_logs: Seq::empty(),
                        write_set: Set::empty(),
                        scan_predicates: Seq::empty(),
                        isolation_level: session_iso(old(self).vars()),
                        txn_id: id,
                    };
                    &&& final(self).txns()@.txns == old(self).txns()@.txns.push(t)
                    &&& final(self).txns()@.watermark.commit_ts == old(self).txns()@.watermark.commit_ts
                    &&& final(self).txns()@.watermark.reads == reads_added(old(self).txns()@.watermark.reads, 0)
                    &&& final(self).txns()@.undo_links == old(self).txns()@.undo_links
                    &&& r matches Ok(m) && m@ == (if old(self).current_txn() is Some {
                        "pause current txn and begin new txn "@
                    } else {
                        "begin txn "@
                    }) + begin_text(t)
                },
                TransactionStatementType::Commit => match txn {
                    None => final(self).txns()@ == old(self).txns()@ && (r matches Ok(m) && m@
                        == "commit / rollback can only be used with txn"@),
                    Some(id) => {
                        let t = old(self).txns().txn(id);
                        if can_commit(t.state) {
                            &&& final(self).txns()@.txns == old(self).txns()@.txns.update(
                                id - TXN_START_ID,
                                TransactionView { state: TransactionState::Committed, ..t },
                            )
                            &&& final(self).txns()@.watermark.commit_ts == t.commit_ts
                            &&& final(self).txns()@.watermark.reads == reads_removed(
                                old(self).txns()@.watermark.reads,
                                t.read_ts as int,
                            )
                            &&& final(self).txns()@.undo_links == old(self).txns()@.undo_links
                            &&& r matches Ok(m) && m@ == "txn committed, "@ + end_text(
                                TransactionView { state: TransactionState::Committed, ..t },
                                true,
                            )
                        } else {
                            &&& final(self).txns()@ == old(self).txns()@
                            &&& r matches Ok(m) && m@ == "txn failed to commit, "@ + end_text(t, true)
                        }
                    },
                },
                TransactionStatementType::Rollback => match txn {
                    None => final(self).txns()@ == old(self).txns()@ && (r matches Ok(m) && m@
                        == "commit / rollback can only be used with txn"@),
                    Some(id) => {
                        let t = old(self).txns().txn(id);
                        if can_abort(t.state) {
                            &&& final(self).txns()@.txns == old(self).txns()@.txns.update(
                                id - TXN_START_ID,
                                TransactionView { state: TransactionState::Aborted, ..t },
                            )
                            &&& final(self).txns()@.watermark.commit_ts == old(self).txns()@.watermark.commit_ts
                            &&& final(self).txns()@.watermark.reads == reads_removed(
                                old(self).txns()@.watermark.reads,
                                t.read_ts as int,
                            )
                            &&& final(self).txns()@.undo_links == old(self).txns()@.undo_links
                            &&& r matches Ok(m) && m@ == "txn aborted, "@ + end_text(
                                TransactionView { state: TransactionState::Aborted, ..t },
                                false,
                            )
                        } else {
                            &&& final(self).txns()@ == old(self).txns()@
                            &&& r matches Err(BustubError::Message(m)) && m@ == "txn not in running / tainted state"@
                        }
                    },
                },
            },
    {
        proof {
            reveal_strlit("begin statement is only supported in managed txn mode, please use bustub-shell");
            reveal_strlit("serializable");
            reveal_strlit("pause current txn and begin new txn ");
            reveal_strlit("begin txn ");
            reveal_strlit("commit / rollback can only be used with txn");
            reveal_strlit("txn committed, ");
            reveal_strlit("txn failed to commit, ");
            reveal_strlit("txn aborted, ");
            reveal_strlit("global_isolation_level");
        }
        match stmt.txn_type {
            TransactionStatementType::Begin => {
                if !self.managed_txn_mode {
                    return Ok(
                        String::from_str(
                            "begin statement is only supported in managed txn mode, please use bustub-shell",
                        ),
                    );
                }
                let txn_activated = self.curr_txn.is_some();
                let iso_level_str = self.get_session_variable("global_isolation_level");
                let iso = if str_eq(iso_level_str.as_str(), "serializable") {
                    IsolationLevel::Serializable
                } else {
                    IsolationLevel::SnapshotIsolation
                };
                let new_id = match self.txn_manager.new_txn_with_iso_level(iso) {
                    Ok(id) => id,
                    Err(e) => return Err(e),
                };
                let mut m = if txn_activated {
                    String::from_str("pause current txn and begin new txn ")
                } else {
                    String::from_str("begin txn ")
                };
                proof {
                    self.txn_manager.lemma_wf();
                    assert(self.txn_manager.has_txn(new_id));
                }
                let t = self.txn_manager.get_txn(new_id);
                push_begin_text(&mut m, t);
                Ok(m)
            },
            TransactionStatementType::Commit => {
                let id = match txn {
                    Some(id) => id,
                    None => return Ok(String::from_str("commit / rollback can only be used with txn")),
                };
                let committed = self.txn_manager.commit_txn(id);
                let t = self.txn_manager.get_txn(id);
                let mut m = match committed {
                    Ok(()) => String::from_str("txn committed, "),
                    Err(_) => String::from_str("txn failed to commit, "),
                };
                push_end_text(&mut m, t, true);
                Ok(m)
            },
            TransactionStatementType::Rollback => {
                let id = match txn {
                    Some(id) => id,
                    None => return Ok(String::from_str("commit / rollback can only be used with txn")),
                };
                match self.txn_manager.abort_txn(id) {
                    Ok(()) => {},
                    Err(e) => return Err(e),
                }
                let t = self.txn_manager.get_txn(id);
                let mut m = String::from_str("txn aborted, ");
                push_end_text(&mut m, t, false);
                Ok(m)
            },
        }
    }
}

fn variant_text(name: &str, m: &String) -> (r: String)
    ensures
        r@ == variant_form(name@, m@),
{
    proof {
        reveal_strlit("(");
        reveal_strlit(")");
    }
    let mut r = String::from_str(name);
    r.append("(");
    let d = debug_str(m.as_str());
    r.append(d.as_str());
    r.append(")");
    r
}

/// The debug form of a binding error.
pub fn bind_error_string(e: &BindError) -> (r: String)
    ensures
        r@ == bind_error_text(*e),
{
    proof {
        reveal_strlit("UnsupportedStatement");
        reveal_strlit("UnsupportedDataType");
        reveal_strlit("UnsupportedTableName");
        reveal_strlit("TableNotFound");
        reveal_strlit("ColumnNotFound");
        reveal_strlit("AmbiguousColumnName");
        reveal_strlit("NotImplemented");
        reveal_strlit("Exception");
        reveal_strlit("UnsupportedExpr");
        reveal_strlit("UnsupportedTableFactor");
        reveal_strlit("UnsupportObjectName");
        reveal_strlit("UnsupportedJoinType");
        reveal_strlit("UnsupportedJoinConstraint");
        reveal_strlit("UnsupportedBinaryOperator");
        reveal_strlit("UnsupportedTableRef");
        reveal_strlit("EmptyTableRef");
        reveal_strlit("UnsupportedYetSQL");
        reveal_strlit("Message");
    }
    match e {
        BindError::UnsupportedStatement(m) => variant_text("UnsupportedStatement", m),
        BindError::UnsupportedDataType(m) => variant_text("UnsupportedDataType", m),
        BindError::UnsupportedTableName(m) => variant_text("UnsupportedTableName", m),
        BindError::TableNotFound(m) => variant_text("TableNotFound", m),
        BindError::ColumnNotFound(m) => variant_text("ColumnNotFound", m),
        BindError::AmbiguousColumnName(m) => variant_text("AmbiguousColumnName", m),
        BindError::NotImplemented(m) => variant_text("NotImplemented", m),
        BindError::Exception(m) => variant_text("Exception", m),
        BindError::UnsupportedExpr(m) => variant_text("UnsupportedExpr", m),
        BindError::UnsupportedTableFactor(m) => variant_text("UnsupportedTableFactor", m),
        BindError::UnsupportObjectName(m) => variant_text("UnsupportObjectName", m),
        BindError::UnsupportedJoinType(m) => variant_text("UnsupportedJoinType", m),
        BindError::UnsupportedJoinConstraint(m) => variant_text("UnsupportedJoinConstraint", m),
        BindError::UnsupportedBinaryOperator(m) => variant_text("UnsupportedBinaryOperator", m),
        BindError::UnsupportedTableRef(m) => variant_text("UnsupportedTableRef", m),
        BindError::EmptyTableRef => String::from_str("EmptyTableRef"),
        BindError::UnsupportedYetSQL(m) => variant_text("UnsupportedYetSQL", m),
        BindError::Message(m) => variant_text("Message", m),
    }
}

impl BustubInstance {
    /// Runs SHOW: the row `name=value`, the value empty when it is not set.
    pub fn handle_variable_show_statement(&self, stmt: &VariableShowStatement) -> (r: Result<String, BustubError>)
        requires
            self.wf(),
        ensures
            r matches Ok(m) && m@ == stmt.variable@ + "="@ + (if self.vars().contains_key(stmt.variable@) {
                self.vars()[stmt.variable@]
            } else {
                Seq::empty()
            }),
    {
        proof {
            reveal_strlit("=");
        }
        let content = self.get_session_variable(stmt.variable.as_str());
        let mut m = String::from_str(stmt.variable.as_str());
        m.append("=");
        m.append(content.as_str());
        Ok(m)
    }

    /// Runs SET: the variable takes the value.
    pub fn handle_variable_set_statement(&mut self, stmt: &VariableSetStatement) -> (r: Result<(), BustubError>)
        requires
            old(self).wf(),
        ensures
            r is Ok,
            final(self).wf(),
            final(self).vars() == old(self).vars().insert(stmt.variable@, stmt.value@),
            final(self).catalog() == old(self).catalog(),
            final(self).txns() == old(self).txns(),
            final(self).current_txn() == old(self).current_txn(),
            final(self).managed() == old(self).managed(),
    {
        self.set_session_variable(stmt.variable.as_str(), stmt.value.as_str());
        Ok(())
    }
}

impl BustubInstance {
    /// Runs the parsed statements of a SQL text in turn, writing the row
    /// each reports, until one fails.
    pub fn execute_sql_txn<W: ResultWriter>(
        &mut self,
        parsed: &Result<Vec<SqlStatement>, String>,
        writer: &mut W,
        txn: Option<TxnId>,
    ) -> (r: Result<bool, BustubError>)
        requires
            old(self).wf(),
            parsed matches Ok(stmts) ==> {
                &&& batch_ok(old(self).catalog(), stmts@)
                &&& old(self).catalog().tables().len() + stmts@.len() < u32::MAX
                &&& old(self).catalog().indexes().len() + stmts@.len() < u32::MAX
            },
        ensures
            final(self).wf(),
            final(self).txns() == old(self).txns(),
            final(self).vars() == old(self).vars(),
            final(self).current_txn() == old(self).current_txn(),
            final(self).managed() == old(self).managed(),
            sql_ran(old(self).catalog(), *parsed, final(self).catalog(), r),
    {
        proof {
            reveal_strlit("parse error: ");
        }
        let statements = match parsed {
            Ok(s) => s,
            Err(m) => {
                let mut x = String::from_str("parse error: ");
                x.append(m.as_str());
                return Err(BustubError::Message(x));
            },
        };
        let ghost stmts = statements@;
        let ghost cat0 = self.catalog();
        assert(stmts.skip(0) =~= stmts);
        let mut i: usize = 0;
        while i < statements.len()
            invariant
                0 <= i <= stmts.len(),
                stmts == statements@,
                parsed matches Ok(v) && v@ == stmts,
                self.wf(),
                self.txns() == old(self).txns(),
                self.vars() == old(self).vars(),
                self.current_txn() == old(self).current_txn(),
                self.managed() == old(self).managed(),
                cat0 == old(self).catalog(),
                batch_ok(cat0, stmts),
                cat0.tables().len() + stmts.len() < u32::MAX,
                cat0.indexes().len() + stmts.len() < u32::MAX,
                self.catalog().tables().len() <= cat0.tables().len() + i,
                self.catalog().indexes().len() <= cat0.indexes().len() + i,
                forall|n: Seq<char>| #[trigger] self.catalog().has_table(n) ==> known_before(cat0, stmts, i as int, n),
                forall|after: Catalog, res: Result<bool, BustubError>|
                    #[trigger] batch_runs(self.catalog(), stmts.skip(i as int), after, res) ==> batch_runs(
                        cat0,
                        stmts,
                        after,
                        res,
                    ),
            decreases stmts.len() - i,
        {
            let ghost cur = self.catalog();
            let ghost rest = stmts.skip(i as int);
            proof {
                assert(rest[0] == stmts[i as int]);
                assert(rest.drop_first() =~= stmts.skip(i + 1));
                assert(statement_ok(cat0, stmts, i as int));
            }
            let bound = {
                let mut binder = Binder::new(&*self.catalog);
                binder.bind_statement(&statements[i])
            };
            match bound {
                Err(e) => {
                    let res: Result<bool, BustubError> = Err(BustubError::Message(bind_error_string(&e)));
                    proof {
                        assert(step_err(cur, rest[0], cur, res->Err_0));
                        assert(batch_runs(cur, rest, cur, res));
                    }
                    return res;
                },
                Ok(BoundStatement::Create(c)) => {
                    let ghost ct = stmts[i as int]->CreateTable_0;
                    proof {
                        let cols = ct.columns@;
                        assert(create_binding(ct, Ok(c)));
                        assert(column_views(c.columns@) == cols.map_values(
                            |d: crate::binder::sql::SqlColumnDef| crate::binder::binder::column_def_binding(d)->0,
                        ));
                        assert(c.columns@.len() == column_views(c.columns@).len());
                        lemma_primary_keys_named(cols);
                        let pk = c.primary_key@.map_values(|s: String| s@);
                        assert(pk =~= string_views(c.primary_key@));
                        assert forall|k: int| 0 <= k < pk.len() implies has_column(column_views(c.columns@), #[trigger] pk[k]) by {
                            assert(defines(cols, primary_key_names(cols)[k]));
                            let j = choose|j: int| 0 <= j < cols.len() && #[trigger] cols[j].name@ == primary_key_names(cols)[k];
                            assert(column_views(c.columns@)[j].name == cols[j].name@);
                        }
                    }
                    match self.handle_create_statement(&c) {
                        Ok(row) => {
                            let ghost m = row;
                            let rows = vec![row];
                            writer.add_row(rows.as_slice());
                            let ghost next = self.catalog();
                            proof {
                                assert(created(cur, c, next, Ok(m)));
                                assert(step_ok(cur, rest[0], next));
                                assert forall|after: Catalog, res: Result<bool, BustubError>|
                                    #[trigger] batch_runs(next, stmts.skip(i + 1), after, res) implies batch_runs(
                                        cat0,
                                        stmts,
                                        after,
                                        res,
                                    ) by {
                                    assert(batch_runs(cur, rest, after, res));
                                }
                                assert forall|n: Seq<char>| #[trigger] next.has_table(n) implies known_before(
                                    cat0,
                                    stmts,
                                    i + 1,
                                    n,
                                ) by {
                                    let w = choose|w: int| 0 <= w < next.tables().len() && #[trigger] next.tables()[w].name == n;
                                    if w < cur.tables().len() {
                                        assert(cur.tables()[w].name == n);
                                        assert(cur.has_table(n));
                                        if !cat0.has_table(n) {
                                            let j = choose|j: int| 0 <= j < i && #[trigger] created_name(stmts[j]) == Some(n);
                                            assert(created_name(stmts[j]) == Some(n));
                                        }
                                    } else {
                                        assert(created_name(stmts[i as int]) == Some(n));
                                    }
                                }
                            }
                        },
                        Err(e) => {
                            proof {
                                assert(step_err(cur, rest[0], self.catalog(), e));
                                assert(batch_runs(cur, rest, self.catalog(), Err(e)));
                            }
                            return Err(e);
                        },
                    }
                },
                Ok(other) => {
                    proof {
                        match stmts[i as int] {
                            SqlStatement::Query(q) => {
                                lemma_query_bound_ok(None, cur, *q, other->Select_0);
                                lemma_unbound_query_ok(cur, cat0, *q);
                            },
                            SqlStatement::Insert(ins) => {
                                let q = ins.source->0;
                                lemma_unbound_query_ok(cur, cat0, *q);
                                let n = object_name(ins.table->TableName_0)->0;
                                assert(cur.has_table(n));
                            },
                            _ => {},
                        }
                    }
                    return vstd::pervasive::unreached();
                },
            }
            i += 1;
        }
        assert(stmts.skip(i as int) =~= Seq::<SqlStatement>::empty());
        assert(batch_runs(self.catalog(), stmts.skip(i as int), self.catalog(), Ok(false)));
        Ok(false)
    }
}

fn text_row(cells: Vec<&str>) -> (r: Vec<String>)
    ensures
        string_views(r@) == cells@.map_values(|c: &str| c@),
{
    let mut r: Vec<String> = Vec::new();
    let mut i: usize = 0;
    while i < cells.len()
        invariant
            0 <= i <= cells@.len(),
            string_views(r@) == cells@.take(i as int).map_values(|c: &str| c@),
        decreases cells@.len() - i,
    {
        let ghost before = r@;
        r.push(String::from_str(cells[i]));
        assert(string_views(r@) =~= cells@.take(i + 1).map_values(|c: &str| c@)) by {
            assert(string_views(before) =~= cells@.take(i as int).map_values(|c: &str| c@));
            assert(string_views(r@) =~= string_views(before).push(cells@[i as int]@));
            assert(cells@.take(i + 1) =~= cells@.take(i as int).push(cells@[i as int]));
        }
        i += 1;
    }
    assert(cells@.take(i as int) =~= cells@);
    r
}

impl BustubInstance {
    /// The rows listing the tables: a header, then each table's OID, name and columns.
    pub fn cmd_display_tables(&self) -> (r: Vec<Vec<String>>)
        requires
            self.wf(),
        ensures
            rows_text(r@) == tables_listing(self.catalog()),
    {
        proof {
            reveal_strlit("oid");
            reveal_strlit("name");
            reveal_strlit("cols");
        }
        let tables = self.catalog.get_tables_info();
        let ghost ts = self.catalog().tables();
        let header = text_row(vec!["oid", "name", "cols"]);
        let mut rows: Vec<Vec<String>> = vec![header];
        assert(rows_text(rows@) =~= seq![seq!["oid"@, "name"@, "cols"@]]) by {
            assert(string_views(rows@[0]@) =~= seq!["oid"@, "name"@, "cols"@]);
        }
        let mut i: usize = 0;
        while i < tables.len()
            invariant
                0 <= i <= tables@.len(),
                tables@.map_values(|t: &TableInfo| t@) == ts,
                rows_text(rows@) == seq![seq!["oid"@, "name"@, "cols"@]] + ts.take(i as int).map_values(
                    |t: TableView| seq![decimal(t.oid as nat), t.name, schema_text(t.schema, true)],
                ),
            decreases tables@.len() - i,
        {
            let t = tables[i];
            let mut row: Vec<String> = Vec::new();
            row.push(decimal_string(t.oid as u64));
            row.push(t.name.clone());
            row.push(t.schema.to_string_simplified(true));
            let ghost before = rows@;
            assert(ts[i as int] == t@);
            assert(string_views(row@) =~= seq![decimal(t@.oid as nat), t@.name, schema_text(t@.schema, true)]);
            rows.push(row);
            assert(rows_text(rows@) =~= rows_text(before).push(string_views(row@)));
            assert(ts.take(i + 1) =~= ts.take(i as int).push(ts[i as int]));
            i += 1;
        }
        assert(ts.take(i as int) =~= ts);
        rows
    }

    /// The rows listing the indexes: a header, then each index, table by table.
    pub fn cmd_display_indices(&self) -> (r: Vec<Vec<String>>)
        requires
            self.wf(),
        ensures
            rows_text(r@) == indexes_listing(self.catalog()),
    {
        proof {
            reveal_strlit("table_name");
            reveal_strlit("index_oid");
            reveal_strlit("index_name");
            reveal_strlit("index_cols");
        }
        let table_names = self.catalog.get_table_names();
        let ghost ts = self.catalog().tables();
        assert(table_names@.len() == ts.len()) by {
            assert(table_names@.map_values(|s: String| s@).len() == ts.map_values(|t: TableView| t.name).len());
        }
        let ghost xs = self.catalog().indexes();
        let header = text_row(vec!["table_name", "index_oid", "index_name", "index_cols"]);
        let mut rows: Vec<Vec<String>> = vec![header];
        assert(rows_text(rows@) =~= seq![seq!["table_name"@, "index_oid"@, "index_name"@, "index_cols"@]]) by {
            assert(string_views(rows@[0]@) =~= seq!["table_name"@, "index_oid"@, "index_name"@, "index_cols"@]);
        }
        let mut i: usize = 0;
        while i < table_names.len()
            invariant
                0 <= i <= table_names@.len(),
                self.wf(),
                ts == self.catalog().tables(),
                xs == self.catalog().indexes(),
                table_names@.map_values(|s: String| s@) == ts.map_values(|t: TableView| t.name),
                table_names@.len() == ts.len(),
                rows_text(rows@) == seq![seq!["table_name"@, "index_oid"@, "index_name"@, "index_cols"@]]
                    + indexes_rows(ts.take(i as int), xs),
            decreases table_names@.len() - i,
        {
            assert(table_names@[i as int]@ == ts[i as int].name) by {
                assert(table_names@.map_values(|s: String| s@)[i as int] == ts.map_values(|t: TableView| t.name)[i as int]);
            }
            let indices = self.catalog.get_table_indexes(table_names[i].as_str());
            let ghost picked = xs.filter(|x: IndexView| x.table_name == ts[i as int].name);
            assert(indices@.map_values(|x: &IndexInfo| x@) == picked) by {
                assert((|x: IndexView| x.table_name == table_names@[i as int]@) =~= (|x: IndexView| x.table_name
                    == ts[i as int].name));
            }
            let ghost start = rows@;
            let mut k: usize = 0;
            while k < indices.len()
                invariant
                    0 <= k <= indices@.len(),
                    indices@.map_values(|x: &IndexInfo| x@) == picked,
                    rows_text(rows@) == rows_text(start) + picked.take(k as int).map_values(|x: IndexView| index_row(x)),
                decreases indices@.len() - k,
            {
                let x = indices[k];
                let mut row: Vec<String> = Vec::new();
                row.push(x.table_name.clone());
                row.push(decimal_string(x.index_oid as u64));
                row.push(x.name.clone());
                row.push(x.key_schema.to_string_simplified(true));
                let ghost before = rows@;
                assert(picked[k as int] == x@);
                assert(string_views(row@) =~= index_row(x@));
                rows.push(row);
                assert(rows_text(rows@) =~= rows_text(before).push(string_views(row@)));
                assert(picked.take(k + 1) =~= picked.take(k as int).push(picked[k as int]));
                k += 1;
            }
            assert(picked.take(k as int) =~= picked);
            proof {
                assert(ts.take(i + 1).drop_last() =~= ts.take(i as int));
                assert(ts.take(i + 1).last() == ts[i as int]);
            }
            i += 1;
        }
        assert(ts.take(i as int) =~= ts);
        rows
    }

    /// The help message, as the one row the help command writes.
    pub fn cmd_display_help(&self) -> (r: Vec<Vec<String>>)
        ensures
            rows_text(r@) == seq![seq![help_message()]],
    {
        let row = vec![String::from_str("Welcome to the BusTub shell!\n\n\\dt: show all tables\n\\di: show all indices\n\\dbgmvcc <table>: show version chain of a table\n\\help: show this message again\n\\txn: show current txn information\n\\txn <txn_id>: switch to txn\n\\txn gc: run garbage collection\n\\txn -1: exit txn mode\n\nBusTub shell currently only supports a small set of Postgres queries. We'll set\nup a doc describing the current status later. It will silently ignore some parts\nof the query, so it's normal that you'll get a wrong result when executing\nunsupported SQL queries. This shell will be able to run `create table` only\nafter you have completed the buffer pool manager. It will be able to execute SQL\nqueries after you have implemented necessary query executors. Use `explain` to\nsee the execution plan of your query.")];
        let rows = vec![row];
        assert(rows_text(rows@) =~= seq![seq![help_message()]]) by {
            assert(string_views(rows@[0]@) =~= seq![help_message()]);
        }
        rows
    }
}

/// Writes rows to `writer`: the first as its header, the others as rows.
fn write_listing<W: ResultWriter>(writer: &mut W, rows: &Vec<Vec<String>>) {
    if rows.len() > 0 {
        writer.add_header_row(rows[0].as_slice());
    }
    let mut i: usize = 1;
    while i < rows.len()
        invariant
            1 <= i <= rows@.len() || rows@.len() == 0,
        decreases rows@.len() - i,
    {
        writer.add_row(rows[i].as_slice());
        i += 1;
    }
}

impl BustubInstance {
    /// Runs a line of the shell: an internal command when it starts with a
    /// backslash, else the parsed SQL statements, in the session's
    /// transaction or in one of their own that commits when they succeed
    /// and aborts when they fail.
    pub fn execute_sql<W: ResultWriter>(
        &mut self,
        sql: &str,
        parsed: Result<Vec<SqlStatement>, String>,
        writer: &mut W,
    ) -> (r: Result<bool, BustubError>)
        requires
            old(self).wf(),
            is_internal(sql@) ==> !(internal_command(sql@) is DebugMvcc) && !(internal_command(sql@) is Txn),
            !is_internal(sql@) ==> {
                &&& old(self).current_txn() is None ==> {
                    &&& TXN_START_ID + old(self).txns()@.txns.len() < i64::MAX
                    &&& old(self).txns()@.watermark.reads.contains_key(0) ==> old(self).txns()@.watermark.reads[0] < i32::MAX
                }
                &&& parsed matches Ok(stmts) ==> {
                    &&& batch_ok(old(self).catalog(), stmts@)
                    &&& old(self).catalog().tables().len() + stmts@.len() < u32::MAX
                    &&& old(self).catalog().indexes().len() + stmts@.len() < u32::MAX
                }
            },
        ensures
            final(self).wf(),
            final(self).vars() == old(self).vars(),
            final(self).managed() == old(self).managed(),
            is_internal(sql@) ==> {
                &&& final(self).catalog() == old(self).catalog()
                &&& final(self).txns() == old(self).txns()
                &&& final(self).current_txn() == old(self).current_txn()
                &&& match internal_command(sql@) {
                    InternalCommand::Unsupported => (r matches Err(BustubError::Message(m)) && m@
                        == "unsupported internal command: "@ + sql@),
                    _ => r == Ok::<bool, BustubError>(true),
                }
            },
            !is_internal(sql@) ==> exists|res: Result<bool, BustubError>|
                #[trigger] sql_ran(old(self).catalog(), parsed, final(self).catalog(), res) && sql_outcome(
                    *old(self),
                    *final(self),
                    res,
                    r,
                ),
    {
        proof {
            reveal_strlit("\\dt");
            reveal_strlit("\\di");
            reveal_strlit("\\help");
            reveal_strlit("\\dbgmvcc");
            reveal_strlit("\\txn");
            reveal_strlit("unsupported internal command: ");
        }
        if sql.unicode_len() > 0 && sql.get_char(0) == '\\' {
            if str_eq(sql, "\\dt") {
                let rows = self.cmd_display_tables();
                write_listing(writer, &rows);
                return Ok(true);
            } else if str_eq(sql, "\\di") {
                let rows = self.cmd_display_indices();
                write_listing(writer, &rows);
                return Ok(true);
            } else if str_eq(sql, "\\help") {
                let rows = self.cmd_display_help();
                assert(rows@.len() == 1) by {
                    assert(rows_text(rows@).len() == 1);
                }
                writer.add_row(rows[0].as_slice());
                return Ok(true);
            } else if starts_with(sql, "\\dbgmvcc") || starts_with(sql, "\\txn") {
                return vstd::pervasive::unreached();
            } else {
                let mut m = String::from_str("unsupported internal command: ");
                m.append(sql);
                return Err(BustubError::Message(m));
            }
        }
        let ghost old_txns = self.txns();
        let (txn, is_local_txn) = match self.curr_txn {
            Some(t) => {
                self.curr_txn = None;
                (t, false)
            },
            None => match self.txn_manager.new_txn() {
                Ok(id) => (id, true),
                Err(e) => return Err(e),
            },
        };
        proof {
            self.txn_manager.lemma_wf();
        }
        let ghost before_catalog = self.catalog();
        let ghost mid_txns = self.txns();
        proof {
            if is_local_txn {
                assert(mid_txns.txn(txn).state == TransactionState::Running);
            } else {
                assert(mid_txns == old(self).txns());
            }
        }
        let result = self.execute_sql_txn(&parsed, writer, Some(txn));
        assert(sql_ran(before_catalog, parsed, self.catalog(), result));
        assert(self.txns() == mid_txns);
        match result {
            Ok(x) => {
                if is_local_txn {
                    match self.txn_manager.commit_txn(txn) {
                        Ok(()) => {},
                        Err(e) => return Err(e),
                    }
                } else {
                    self.curr_txn = Some(txn);
                }
                assert(sql_outcome(*old(self), *self, result, Ok(x)));
                assert(sql_ran(old(self).catalog(), parsed, self.catalog(), result));
                Ok(x)
            },
            Err(e) => {
                match self.txn_manager.abort_txn(txn) {
                    Ok(()) => {},
                    Err(e2) => {
                        assert(sql_outcome(*old(self), *self, result, Err(e2)));
                        assert(sql_ran(old(self).catalog(), parsed, self.catalog(), result));
                        return Err(e2);
                    },
                }
                assert(sql_outcome(*old(self), *self, result, Err(e)));
                assert(sql_ran(old(self).catalog(), parsed, self.catalog(), result));
                Err(e)
            },
        }
    }

    /// Creates every mock table, in turn, until one is unknown or exists.
    pub fn create_mock_table(&mut self) -> (r: Result<(), BustubError>)
        requires
            old(self).wf(),
            old(self).catalog().tables().len() + mock_tables().len() < u32::MAX,
        ensures
            final(self).wf(),
            mock_created(old(self).catalog(), mock_tables(), final(self).catalog(), r),
            final(self).txns() == old(self).txns(),
            final(self).vars() == old(self).vars(),
            final(self).current_txn() == old(self).current_txn(),
            final(self).managed() == old(self).managed(),
    {
        proof {
            reveal_strlit("table ");
            reveal_strlit(" exists");
        }
        let names = mock_table_list();
        let ghost ns = mock_tables();
        let ghost cat0 = self.catalog();
        assert(names@.len() == ns.len()) by {
            assert(names@.map_values(|s: &str| s@).len() == ns.len());
        }
        assert(ns.skip(0) =~= ns);
        let mut i: usize = 0;
        while i < names.len()
            invariant
                0 <= i <= ns.len(),
                names@.len() == ns.len(),
                names@.map_values(|s: &str| s@) == ns,
                ns == mock_tables(),
                self.wf(),
                cat0 == old(self).catalog(),
                cat0.tables().len() + ns.len() < u32::MAX,
                self.catalog().tables().len() == cat0.tables().len() + i,
                self.txns() == old(self).txns(),
                self.vars() == old(self).vars(),
                self.current_txn() == old(self).current_txn(),
                self.managed() == old(self).managed(),
                forall|after: Catalog, res: Result<(), BustubError>|
                    #[trigger] mock_created(self.catalog(), ns.skip(i as int), after, res) ==> mock_created(
                        cat0,
                        ns,
                        after,
                        res,
                    ),
            decreases ns.len() - i,
        {
            let ghost cur = self.catalog();
            let ghost rest = ns.skip(i as int);
            let name = names[i];
            proof {
                assert(name@ == ns[i as int]) by {
                    assert(names@.map_values(|s: &str| s@)[i as int] == name@);
                }
                assert(rest[0] == ns[i as int]);
                assert(rest.drop_first() =~= ns.skip(i + 1));
            }
            let schema = match get_mock_table_schema_of(name) {
                Ok(s) => s,
                Err(m) => {
                    let res: Result<(), BustubError> = Err(BustubError::Message(m));
                    assert(mock_created(cur, rest, cur, res));
                    assert(mock_created(cat0, ns, cur, res));
                    return res;
                },
            };
            let mut cat = self.catalog.duplicate();
            match cat.create_table(name, &schema) {
                None => {
                    let mut m = String::from_str("table ");
                    m.append(name);
                    m.append(" exists");
                    let res: Result<(), BustubError> = Err(BustubError::Message(m));
                    assert(mock_created(cur, rest, cur, res));
                    assert(mock_created(cat0, ns, cur, res));
                    return res;
                },
                Some(_) => {
                    self.catalog = Rc::new(cat);
                    let ghost next = self.catalog();
                    proof {
                        assert forall|after: Catalog, res: Result<(), BustubError>|
                            #[trigger] mock_created(next, ns.skip(i + 1), after, res) implies mock_created(
                                cat0,
                                ns,
                                after,
                                res,
                            ) by {
                            assert(rest.len() > 0);
                            assert(!cur.has_table(rest[0]));
                            assert(mock_added(cur, rest[0], next));
                            assert(mock_created(cur, rest, after, res));
                        }
                    }
                },
            }
            i += 1;
        }
        assert(ns.skip(i as int) =~= Seq::<Seq<char>>::empty());
        assert(mock_created(self.catalog(), ns.skip(i as int), self.catalog(), Ok(())));
        Ok(())
    }

    /// The transaction the session runs in, if any.
    pub fn current_managed_txn(&self) -> (r: Option<&Transaction>)
        requires
            self.wf(),
        ensures
            match self.current_txn() {
                Some(id) => r matches Some(t) && t@ == self.txns().txn(id),
                None => r is None,
            },
    {
        match self.curr_txn {
            Some(id) => Some(self.txn_manager.get_txn(id)),
            None => None,
        }
    }
}

/// A session variable reads back as the value it was last set to, and
/// setting one leaves the others as they were.
pub proof fn law_variable_reads_back(vars: Map<Seq<char>, Seq<char>>, key: Seq<char>, value: Seq<char>, other: Seq<char>)
    requires
        other != key,
    ensures
        vars.insert(key, value).contains_key(key),
        vars.insert(key, value)[key] == value,
        vars.insert(key, value).contains_key(other) == vars.contains_key(other),
        vars.contains_key(other) ==> vars.insert(key, value)[other] == vars[other],
{
}

/// Whether a line of the shell is complete: it ends with `;` or starts with a backslash.
pub fn query_complete(query: &str) -> (r: bool)
    ensures
        r == ((query@.len() > 0 && query@.last() == ';') || is_internal(query@)),
{
    let n = query.unicode_len();
    (n > 0 && query.get_char(n - 1) == ';') || (n > 0 && query.get_char(0) == '\\')
}

impl BustubInstance {
    /// The shell's prompt: the session's transaction, with its state when
    /// it no longer runs, or `default_prompt` when there is none.
    pub fn prompt(&self, default_prompt: &str) -> (r: String)
        requires
            self.wf(),
        ensures
            r@ == match self.current_txn() {
                Some(id) => {
                    let t = self.txns().txn(id);
                    "txn"@ + signed_decimal((t.txn_id ^ TXN_START_ID) as int) + if t.state != TransactionState::Running {
                        " ("@ + state_name(t.state) + ")> "@
                    } else {
                        "> "@
                    }
                },
                None => default_prompt@,
            },
    {
        proof {
            reveal_strlit("txn");
            reveal_strlit(" (");
            reveal_strlit(")> ");
            reveal_strlit("> ");
        }
        match self.current_managed_txn() {
            Some(txn) => {
                let state = txn.get_state();
                let mut p = String::from_str("txn");
                push_signed_decimal(&mut p, txn.get_transaction_id_human_readable());
                if state != TransactionState::Running {
                    p.append(" (");
                    p.append(state_text(state));
                    p.append(")> ");
                } else {
                    p.append("> ");
                }
                p
            },
            None => String::from_str(default_prompt),
        }
    }
}

/// Whether `names` holds `n`.
fn holds_name(names: &Vec<String>, n: &str) -> (r: bool)
    ensures
        r == string_views(names@).contains(n@),
{
    let mut i: usize = 0;
    while i < names.len()
        invariant
            0 <= i <= names@.len(),
            forall|j: int| 0 <= j < i ==> #[trigger] names@[j]@ != n@,
        decreases names@.len() - i,
    {
        if str_eq(names[i].as_str(), n) {
            assert(string_views(names@)[i as int] == n@);
            return true;
        }
        i += 1;
    }
    assert forall|j: int| 0 <= j < string_views(names@).len() implies string_views(names@)[j] != n@ by {
        assert(string_views(names@)[j] == names@[j]@);
    }
    false
}

impl BustubInstance {
    /// Whether a transaction can begin without a counter overflowing.
    pub fn can_begin_txn(&self) -> (r: bool)
        requires
            self.wf(),
        ensures
            r == (TXN_START_ID + self.txns()@.txns.len() < i64::MAX && (self.txns()@.watermark.reads.contains_key(0)
                ==> self.txns()@.watermark.reads[0] < i32::MAX)),
    {
        self.txn_manager.can_begin()
    }

    /// Whether the statements can be run by `execute_sql`: none reaches the
    /// planner, each CREATE TABLE is named and bounded, and the catalog has
    /// room for what they create.
    pub fn statements_supported(&self, stmts: &Vec<SqlStatement>) -> (r: bool)
        requires
            self.wf(),
        ensures
            r == (batch_ok(self.catalog(), stmts@) && self.catalog().tables().len() + stmts@.len() < u32::MAX
                && self.catalog().indexes().len() + stmts@.len() < u32::MAX),
    {
        let cat = &*self.catalog;
        let ghost c = self.catalog();
        let ghost ss = stmts@;
        let tables = cat.table_count();
        let indexes = cat.index_count();
        if tables >= u32::MAX as usize || stmts.len() >= u32::MAX as usize - tables || indexes >= u32::MAX as usize
            || stmts.len() >= u32::MAX as usize - indexes {
            return false;
        }
        let mut created: Vec<String> = Vec::new();
        let mut i: usize = 0;
        while i < stmts.len()
            invariant
                0 <= i <= ss.len(),
                ss == stmts@,
                c == *cat,
                c == self.catalog(),
                c.tables().len() + ss.len() < u32::MAX,
                c.indexes().len() + ss.len() < u32::MAX,
                c.wf(),
                forall|k: int| 0 <= k < i ==> #[trigger] statement_ok(c, ss, k),
                forall|n: Seq<char>|
                    (exists|j: int| 0 <= j < i && #[trigger] created_name(ss[j]) == Some(n)) <==> string_views(
                        created@,
                    ).contains(n),
            decreases ss.len() - i,
        {
            let ghost prev = created@;
            match &stmts[i] {
                SqlStatement::Query(q) => {
                    let mut b = Binder::new(cat);
                    if b.bind_query(q).is_ok() {
                        assert(!statement_ok(c, ss, i as int));
                        return false;
                    }
                },
                SqlStatement::Insert(ins) => {
                    if let Some(q) = &ins.source {
                        let mut b = Binder::new(cat);
                        let bound_ok = b.bind_query(q).is_ok();
                        if bound_ok {
                            if let SqlTableObject::TableName(name) = &ins.table {
                                if name.parts.len() == 1 {
                                    if let SqlObjectNamePart::Identifier(n) = &name.parts[0] {
                                        if cat.get_table_by_name(n.as_str()).is_some() || holds_name(&created, n.as_str()) {
                                            proof {
                                                assert(object_name(*name) == Some(n@));
                                                if !c.has_table(n@) {
                                                    assert(string_views(created@).contains(n@));
                                                }
                                                assert(known_before(c, ss, i as int, n@));
                                            }
                                            assert(!statement_ok(c, ss, i as int));
                                            return false;
                                        }
                                    }
                                }
                            }
                        }
                    }
                },
                SqlStatement::CreateTable(ct) => {
                    if ct.name.parts.len() == 0 || !fits_columns(ct.columns.len()) {
                        assert(!statement_ok(c, ss, i as int));
                        return false;
                    }
                    if let SqlObjectNamePart::Identifier(n) = &ct.name.parts[0] {
                        created.push(n.clone());
                    }
                },
                SqlStatement::Other(_) => {},
            }
            proof {
                assert(statement_ok(c, ss, i as int));
                assert forall|n: Seq<char>|
                    (exists|j: int| 0 <= j < i + 1 && #[trigger] created_name(ss[j]) == Some(n)) <==> string_views(
                        created@,
                    ).contains(n) by {
                    if string_views(created@).contains(n) {
                        let w = choose|w: int| 0 <= w < string_views(created@).len() && string_views(created@)[w] == n;
                        if w < prev.len() {
                            assert(string_views(prev)[w] == n);
                            assert(string_views(prev).contains(n));
                        } else {
                            assert(created_name(ss[i as int]) == Some(n));
                        }
                    }
                    if exists|j: int| 0 <= j < i + 1 && #[trigger] created_name(ss[j]) == Some(n) {
                        let j = choose|j: int| 0 <= j < i + 1 && #[trigger] created_name(ss[j]) == Some(n);
                        if j < i {
                            assert(string_views(prev).contains(n));
                            let w = choose|w: int| 0 <= w < string_views(prev).len() && string_views(prev)[w] == n;
                            assert(string_views(created@)[w] == n);
                        } else {
                            assert(string_views(created@)[created@.len() - 1] == n);
                        }
                    }
                }
            }
            i += 1;
        }
        true
    }
}

fn push_plan_section(out: &mut String, title: &str, plan: &PlanNode, show_schema: bool)
    ensures
        final(out)@ == old(out)@ + plan_section(title@, *plan, show_schema),
{
    proof {
        reveal_strlit("\nschema: ");
        reveal_strlit("\n");
    }
    out.append(title);
    let name = plan.to_string();
    out.append(name.as_str());
    if show_schema {
        out.append("\nschema: ");
        let schema = plan.output_schema_ref().to_string_simplified(true);
        out.append(schema.as_str());
        out.append("\n");
    }
    out.append("\n");
}

impl BustubInstance {
    /// Runs EXPLAIN: the bound statement, its plan and its optimized plan,
    /// as the option bits ask; the error of the planner otherwise.
    pub fn handle_explain_statement(&self, stmt: &ExplainStatement) -> (r: Result<String, BustubError>)
        requires
            self.wf(),
            *stmt.statement matches BoundStatement::Select(sel) ==> !select_panics(sel)
                && columns_fit(sel.select_list@.len() as int),
            *stmt.statement matches BoundStatement::Insert(ins) ==> !select_panics(ins.select)
                && columns_fit(ins.select.select_list@.len() as int),
        ensures
            exists|p: Result<PlanNode, BustubError>|
                #[trigger] planned(*stmt.statement, p) && match p {
                    Ok(plan) => (r matches Ok(m) && m@ == explain_text(stmt.options, *stmt.statement, plan)),
                    Err(e) => (r matches Err(BustubError::Message(m)) && (e matches BustubError::Message(x) && m@
                        == "plan error: "@ + variant_form("Message"@, x@))),
                },
    {
        proof {
            reveal_strlit("=== BINDER ===\n");
            reveal_strlit("\n");
            reveal_strlit("plan error: ");
            reveal_strlit("Message");
            reveal_strlit("=== PLANNER ===\n");
            reveal_strlit("=== OPTIMIZER ===\n");
        }
        let mut output = String::new();
        if stmt.options & ExplainOptions::Binder.bit() != 0 {
            output.append("=== BINDER ===\n");
            let text = stmt.statement.to_string();
            output.append(text.as_str());
            output.append("\n");
        }
        let mut planner = Planner::new(self.catalog.clone());
        let planned_result = planner.plan_query(&stmt.statement);
        let plan = match planned_result {
            Ok(p) => p,
            Err(e) => {
                let m = match &e {
                    BustubError::Message(x) => x,
                    BustubError::BindError(_) => {
                        proof {
                            assert(false);
                        }
                        return Err(e);
                    },
                };
                let mut out = String::from_str("plan error: ");
                let d = variant_text("Message", m);
                out.append(d.as_str());
                assert(planned(*stmt.statement, Err(e)));
                return Err(BustubError::Message(out));
            },
        };
        let ghost planned_ok: Result<PlanNode, BustubError> = Ok(plan);
        assert(planned(*stmt.statement, planned_ok));
        let show_schema = stmt.options & ExplainOptions::Schema.bit() != 0;
        if stmt.options & ExplainOptions::Planner.bit() != 0 {
            push_plan_section(&mut output, "=== PLANNER ===\n", &plan, show_schema);
        }
        let optimizer = Optimizer::new(&*self.catalog, self.is_force_starter_rule());
        let optimized_plan = optimizer.optimize(plan);
        if stmt.options & ExplainOptions::Optimizer.bit() != 0 {
            push_plan_section(&mut output, "=== OPTIMIZER ===\n", &optimized_plan, show_schema);
        }
        Ok(output)
    }
}

/// What an EXPLAIN reports: the `=== BINDER ===` section with the bound
/// statement when the Binder bit (1) is set, then the `=== PLANNER ===`
/// section when the Planner bit (2) is set, then the `=== OPTIMIZER ===`
/// section when the Optimizer bit (4) is set. Each plan section holds the
/// plan followed by a `schema: ...` line exactly when the Schema bit (8) is
/// set, whatever the other bits.
pub proof fn law_explain_schema_line(options: u8, stmt: BoundStatement, p: PlanNode)
    ensures
        ({
            let schema_line = if options & 8 != 0 {
                "\nschema: "@ + schema_text(plan_output(p)@, true) + "\n"@
            } else {
                Seq::<char>::empty()
            };
            let binder = "=== BINDER ===\n"@ + statement_text(stmt) + "\n"@;
            let planner = "=== PLANNER ===\n"@ + plan_name(p) + schema_line + "\n"@;
            let optimizer = "=== OPTIMIZER ===\n"@ + plan_name(p) + schema_line + "\n"@;
            explain_text(options, stmt, p) == (if options & 1 != 0 {
                binder
            } else {
                Seq::<char>::empty()
            }) + (if options & 2 != 0 {
                planner
            } else {
                Seq::<char>::empty()
            }) + (if options & 4 != 0 {
                optimizer
            } else {
                Seq::<char>::empty()
            })
        }),
{
}

/// Setting the Optimizer bit (4) of an EXPLAIN with the Planner bit (2)
/// and without the Binder bit (1) does not change the planner section: the
/// report only grows by the optimizer section after it.
pub proof fn law_explain_optimizer_bit_adds_a_section(options: u8, stmt: BoundStatement, p: PlanNode)
    requires
        options & 1 == 0,
        options & 2 != 0,
        options & 4 == 0,
    ensures
        explain_text(options | 4, stmt, p) == explain_text(options, stmt, p) + plan_section(
            "=== OPTIMIZER ===\n"@,
            p,
            options & 8 != 0,
        ),
        (options | 4) & 8 == options & 8,
{
    assert((options | 4) & 1 == 0 && (options | 4) & 2 != 0 && (options | 4) & 4 != 0 && (options | 4) & 8
        == options & 8) by (bit_vector)
        requires
            options & 1 == 0,
            options & 2 != 0,
    ;
    assert(Seq::<char>::empty() + plan_section("=== PLANNER ===\n"@, p, options & 8 != 0) =~= plan_section(
        "=== PLANNER ===\n"@,
        p,
        options & 8 != 0,
    ));
    assert(plan_section("=== PLANNER ===\n"@, p, options & 8 != 0) + Seq::<char>::empty() =~= plan_section(
        "=== PLANNER ===\n"@,
        p,
        options & 8 != 0,
    ));
}

/// CREATE TABLE only ever adds to the catalog: the tables and indexes that
/// were there stay, in place. It succeeds exactly when no table of that name
/// exists and the primary key is empty, or made of INTEGER columns whose keys
/// fit in 64 bytes (at most sixteen); a table is then found under the name,
/// and a non-empty primary key adds one index `<table>_pk`, marked as a
/// primary key, on that table.
pub proof fn law_create_table_adds(cat: Catalog, create: CreateStatement, after: Catalog, r: Result<String, BustubError>)
    requires
        created(cat, create, after, r),
    ensures
        after.tables().len() >= cat.tables().len(),
        after.tables().take(cat.tables().len() as int) == cat.tables(),
        after.indexes().len() >= cat.indexes().len(),
        after.indexes().take(cat.indexes().len() as int) == cat.indexes(),
        r is Ok <==> !cat.has_table(create.table@) && (create.primary_key@.len() == 0 || (all_integer(
            schema_of(column_views(create.columns@)).columns,
            positions_of(
                schema_of(column_views(create.columns@)).columns,
                create.primary_key@.map_values(|s: String| s@),
            ),
        ) && create.primary_key@.len() <= 16)),
        r is Ok ==> after.has_table(create.table@),
        r is Ok && create.primary_key@.len() == 0 ==> after.indexes() == cat.indexes(),
        r is Ok && create.primary_key@.len() > 0 ==> {
            &&& after.indexes().len() == cat.indexes().len() + 1
            &&& after.indexes().last().name == create.table@ + "_pk"@
            &&& after.indexes().last().table_name == create.table@
            &&& after.indexes().last().is_primary_key
        },
{
    let n = create.table@;
    let oid = cat.tables().len();
    assert(cat.tables().take(oid as int) =~= cat.tables());
    assert(cat.indexes().take(cat.indexes().len() as int) =~= cat.indexes());
    if !cat.has_table(n) {
        assert(after.tables().take(oid as int) =~= cat.tables());
        assert(after.tables()[oid as int].name == n);
        assert(after.indexes().take(cat.indexes().len() as int) =~= cat.indexes());
    }
}

/// `\dt` after a CREATE TABLE of a new name lists what it listed before,
/// then one more row: the new table's OID (the number of tables before),
/// its name and its columns. The rows of `\dt` are a header and one row
/// per table, in OID order.
pub proof fn law_created_table_is_listed(
    cat: Catalog,
    create: CreateStatement,
    after: Catalog,
    r: Result<String, BustubError>,
)
    requires
        created(cat, create, after, r),
        !cat.has_table(create.table@),
        cat.tables().len() < u32::MAX,
    ensures
        tables_listing(after) == tables_listing(cat).push(
            seq![
                decimal(cat.tables().len()),
                create.table@,
                schema_text(schema_of(column_views(create.columns@)), true),
            ],
        ),
        tables_listing(after).len() == after.tables().len() + 1,
{
    let row = |t: TableView| seq![decimal(t.oid as nat), t.name, schema_text(t.schema, true)];
    let last = TableView {
        schema: schema_of(column_views(create.columns@)),
        name: create.table@,
        oid: cat.tables().len() as u32,
    };
    assert(after.tables().map_values(row) =~= cat.tables().map_values(row).push(row(last)));
    assert(tables_listing(after) =~= tables_listing(cat).push(row(last)));
}

} // verus!
