use vstd::prelude::*;

use crate::binder::error::BindError;
use crate::binder::expression::{BoundColumnRef, BoundExpression};
use crate::binder::expression::{
    binary_operator_of, dotted, has_agg, has_window, BoundBinaryOp, BoundBinaryOperator, BoundConstant,
};
use crate::binder::sql::{
    SqlBinaryOperator, SqlExpr, SqlJoin, SqlJoinConstraint, SqlJoinOperator, SqlObjectName, SqlObjectNamePart,
    SqlInsert, SqlQuery, SqlSelectItem, SqlSetExpr, SqlStatement, SqlTableFactor, SqlTableObject, SqlTableWithJoins,
    SqlValue,
};
use crate::common::text::{i32_literal, parse_i32, str_eq};
use crate::sql_type::type_id::TypeId;
use crate::sql_type::value::{Datum, Value, ValueView};
use crate::binder::table_ref::{
    table_ref_text, visible_name, BaseTableRef, CrossProductRef, ExpressionListRef, JoinRef, JoinType, TableRef,
};
use crate::binder::sql::{SqlColumnDef, SqlColumnOption, SqlCreateIndex, SqlCreateTable, SqlDataType, SqlIndexColumn};
use crate::binder::statement::{BoundStatement, CreateStatement, IndexStatement, InsertStatement, SelectStatement};
use crate::catalog::catalog::{Catalog, IndexType, TableView};
use crate::catalog::column::{type_size, Column, ColumnView};
use crate::catalog::schema::{column_views, lemma_column_views_push, schema_of, Schema};

verus! {

/// The lower-case form of a character, as Rust's `char::to_lowercase` gives it.
pub uninterp spec fn char_lowercase(c: char) -> Seq<char>;

/// `char::to_lowercase`: the characters of the lower-case form of `c`,
/// named by `char_lowercase`.
#[verifier::external_body]
fn char_to_lowercase(c: char) -> (r: Vec<char>)
    ensures
        r@ == char_lowercase(c),
{
    c.to_lowercase().collect()
}

/// The lower-case form of each character of `s`, one after another.
pub open spec fn lower_chars(s: Seq<char>) -> Seq<char>
    decreases s.len(),
{
    if s.len() == 0 {
        Seq::empty()
    } else {
        lower_chars(s.drop_last()) + char_lowercase(s.last())
    }
}

/// The characters of the lower-case form of `s`.
fn lowered(s: &str) -> (r: Vec<char>)
    ensures
        r@ == lower_chars(s@),
{
    let n = s.unicode_len();
    let mut out: Vec<char> = Vec::new();
    let mut i: usize = 0;
    while i < n
        invariant
            n == s@.len(),
            0 <= i <= n,
            out@ == lower_chars(s@.take(i as int)),
        decreases n - i,
    {
        let mut l = char_to_lowercase(s.get_char(i));
        let ghost before = out@;
        out.append(&mut l);
        proof {
            assert(s@.take(i + 1).drop_last() =~= s@.take(i as int));
            assert(s@.take(i + 1).last() == s@[i as int]);
        }
        i += 1;
    }
    assert(s@.take(n as int) =~= s@);
    out
}

/// Whether two strings are equal when both are lower-cased character by character.
pub fn eq_ignore_case(a: &str, b: &str) -> (r: bool)
    ensures
        r == (lower_chars(a@) == lower_chars(b@)),
{
    let la = lowered(a);
    let lb = lowered(b);
    if la.len() != lb.len() {
        assert(la@.len() != lb@.len());
        return false;
    }
    let mut i: usize = 0;
    while i < la.len()
        invariant
            la@ == lower_chars(a@),
            lb@ == lower_chars(b@),
            la@.len() == lb@.len(),
            0 <= i <= la@.len(),
            forall|j: int| 0 <= j < i ==> la@[j] == lb@[j],
        decreases la@.len() - i,
    {
        if la[i] != lb[i] {
            assert(la@[i as int] != lb@[i as int]);
            return false;
        }
        i += 1;
    }
    assert(la@ =~= lb@);
    true
}

/// Whether column `i` of `cols` is named `name`, ignoring case.
pub open spec fn ci_named(cols: Seq<ColumnView>, i: int, name: Seq<char>) -> bool {
    lower_chars(name) == lower_chars(cols[i].name)
}

/// Whether some column of `cols` is named `name`, ignoring case.
pub open spec fn ci_occurs(cols: Seq<ColumnView>, name: Seq<char>) -> bool {
    exists|i: int| 0 <= i < cols.len() && #[trigger] ci_named(cols, i, name)
}

/// Whether two columns of `cols` are named `name`, ignoring case.
pub open spec fn ci_occurs_twice(cols: Seq<ColumnView>, name: Seq<char>) -> bool {
    exists|i: int, j: int|
        0 <= i < j < cols.len() && #[trigger] ci_named(cols, i, name) && #[trigger] ci_named(
            cols,
            j,
            name,
        )
}

/// The name an object name stands for: its single identifier, if it is one.
pub open spec fn object_name(name: SqlObjectName) -> Option<Seq<char>> {
    if name.parts@.len() == 1 {
        match name.parts@[0] {
            SqlObjectNamePart::Identifier(s) => Some(s@),
            _ => None,
        }
    } else {
        None
    }
}

/// What resolving a column name in a table reference gives.
pub enum Resolution {
    /// The column, as the names of its reference.
    Found(Seq<Seq<char>>),
    /// No column of that name.
    Missing,
    /// Two columns of that name in one table.
    Ambiguous(Seq<char>),
    /// A table reference that names cannot be resolved in.
    Unsupported(Seq<char>),
}

/// Resolving `names` in the base table `b`: a one-part name, or a two-part
/// name whose first part is the table's visible name, looked up in its
/// columns ignoring case.
pub open spec fn base_resolution(b: BaseTableRef, names: Seq<Seq<char>>) -> Resolution {
    let table = visible_name(b);
    if names.len() != 1 && names[0] != table {
        Resolution::Missing
    } else {
        let col = if names.len() == 1 {
            names[0]
        } else {
            names[1]
        };
        let cols = b.schema@.columns;
        if ci_occurs_twice(cols, col) {
            Resolution::Ambiguous(col)
        } else if ci_occurs(cols, col) {
            Resolution::Found(seq![table, col])
        } else {
            Resolution::Missing
        }
    }
}

/// Resolving `names` in the table reference `t`: in a base table, or in
/// the left side of a cross product or join, then its right side.
pub open spec fn resolution(t: TableRef, names: Seq<Seq<char>>) -> Resolution
    decreases t,
{
    match t {
        TableRef::BaseTableRef(b) => base_resolution(b, names),
        TableRef::CrossProductRef(c) => match resolution(*c.left, names) {
            Resolution::Missing => resolution(*c.right, names),
            r => r,
        },
        TableRef::JoinRef(j) => match resolution(*j.left, names) {
            Resolution::Missing => resolution(*j.right, names),
            r => r,
        },
        _ => Resolution::Unsupported(table_ref_text(t)),
    }
}

/// The names of the column references that SELECT * expands to in `t`, or
/// `None` for a table reference it cannot expand.
pub open spec fn all_columns(t: TableRef) -> Option<Seq<Seq<Seq<char>>>>
    decreases t,
{
    match t {
        TableRef::BaseTableRef(b) => Some(
            b.schema@.columns.map_values(|c: ColumnView| seq![b.table@, c.name]),
        ),
        TableRef::CrossProductRef(c) => match (all_columns(*c.left), all_columns(*c.right)) {
            (Some(l), Some(r)) => Some(l + r),
            (None, _) => None,
            (_, None) => None,
        },
        TableRef::JoinRef(j) => match (all_columns(*j.left), all_columns(*j.right)) {
            (Some(l), Some(r)) => Some(l + r),
            (None, _) => None,
            (_, None) => None,
        },
        _ => None,
    }
}

/// The first failing table reference met when expanding SELECT * in `t`.
pub open spec fn all_columns_error(t: TableRef) -> Seq<char>
    decreases t,
{
    match t {
        TableRef::CrossProductRef(c) => if all_columns(*c.left) is None {
            all_columns_error(*c.left)
        } else {
            all_columns_error(*c.right)
        },
        TableRef::JoinRef(j) => if all_columns(*j.left) is None {
            all_columns_error(*j.left)
        } else {
            all_columns_error(*j.right)
        },
        _ => "select * cannot be used with table ref "@ + table_ref_text(t),
    }
}

/// Whether `e` is a column reference with the names `names`.
pub open spec fn is_column_ref(e: BoundExpression, names: Seq<Seq<char>>) -> bool {
    e matches BoundExpression::BoundColumnRef(c) && c.names() == names
}

/// Whether `r` is what resolving a column name gives when the resolution is `res`.
pub open spec fn resolved_as(res: Resolution, r: Result<Option<BoundExpression>, BindError>) -> bool {
    match res {
        Resolution::Found(n) => (r matches Ok(Some(e)) && is_column_ref(e, n)),
        Resolution::Missing => r matches Ok(None),
        Resolution::Ambiguous(c) => (r matches Err(BindError::AmbiguousColumnName(m)) && m@ == c),
        Resolution::Unsupported(t) => (r matches Err(BindError::UnsupportedTableRef(m)) && m@ == t),
    }
}

/// The names of a list of strings, as plain strings.
pub open spec fn string_views(s: Seq<String>) -> Seq<Seq<char>> {
    s.map_values(|x: String| x@)
}

/// What a literal binds to: its value, or the message of the error.
pub open spec fn value_binding(v: SqlValue) -> Result<ValueView, Seq<char>> {
    match v {
        SqlValue::Number(s, long) => if long {
            Err("unsupported value: "@ + s@ + "L"@)
        } else {
            match i32_literal(s@) {
                Some(n) => Ok(ValueView { type_id: TypeId::Integer, datum: Datum::Int(n) }),
                None => Err("invalid number literal: "@ + s@),
            }
        },
        SqlValue::SingleQuotedString(s) => Ok(ValueView { type_id: TypeId::Varchar, datum: Datum::Str(s@) }),
        SqlValue::Null => Ok(ValueView { type_id: TypeId::Integer, datum: Datum::Null }),
        SqlValue::Other(t) => Err("unsupported value: "@ + t@),
    }
}

/// Whether `r` is what binding a column name `names` gives when the
/// binder's table reference is `t`.
pub open spec fn column_binding(t: Option<TableRef>, names: Seq<Seq<char>>, r: Result<BoundExpression, BindError>) -> bool {
    match t {
        None => r matches Err(BindError::EmptyTableRef),
        Some(t) => match resolution(t, names) {
            Resolution::Found(n) => (r matches Ok(e) && is_column_ref(e, n)),
            Resolution::Missing => (r matches Err(BindError::ColumnNotFound(m)) && m@ == dotted(names)),
            Resolution::Ambiguous(c) => (r matches Err(BindError::AmbiguousColumnName(m)) && m@ == c),
            Resolution::Unsupported(x) => (r matches Err(BindError::UnsupportedTableRef(m)) && m@ == x),
        },
    }
}

/// Whether every compound identifier in `e` has at least one part.
pub open spec fn sql_expr_wf(e: SqlExpr) -> bool
    decreases e,
{
    match e {
        SqlExpr::CompoundIdentifier(v) => v@.len() >= 1,
        SqlExpr::BinaryOp { left, op, right } => sql_expr_wf(*left) && sql_expr_wf(*right),
        _ => true,
    }
}

/// Whether `e` binds without error when the binder's table reference is `t`.
pub open spec fn bind_ok(t: Option<TableRef>, e: SqlExpr) -> bool
    decreases e,
{
    match e {
        SqlExpr::Identifier(s) => t is Some && resolution(t->0, seq![s@]) is Found,
        SqlExpr::CompoundIdentifier(v) => t is Some && resolution(t->0, string_views(v@)) is Found,
        SqlExpr::BinaryOp { left, op, right } => bind_ok(t, *left) && bind_ok(t, *right)
            && binary_operator_of(op) is Some,
        SqlExpr::Value(v) => value_binding(v) is Ok,
        SqlExpr::Other(_) => false,
    }
}

/// Whether `r` is what binding `e` gives when the binder's table reference
/// is `t`: column names resolved in `t`, operands bound left then right,
/// literals turned into values; the first error met otherwise.
pub open spec fn binds(t: Option<TableRef>, e: SqlExpr, r: Result<BoundExpression, BindError>) -> bool
    decreases e,
{
    match e {
        SqlExpr::Identifier(s) => column_binding(t, seq![s@], r),
        SqlExpr::CompoundIdentifier(v) => column_binding(t, string_views(v@), r),
        SqlExpr::BinaryOp { left, op, right } => match r {
            Ok(BoundExpression::BoundBinaryOp(b)) => binds(t, *left, Ok(*b.larg)) && binds(t, *right, Ok(*b.rarg))
                && binary_operator_of(op) == Some(b.op),
            Ok(_) => false,
            Err(err) => if !bind_ok(t, *left) {
                binds(t, *left, Err(err))
            } else if !bind_ok(t, *right) {
                binds(t, *right, Err(err))
            } else {
                binary_operator_of(op) is None && (op matches SqlBinaryOperator::Other(x) && (err matches BindError::UnsupportedBinaryOperator(m) && m@ == x@))
            },
        },
        SqlExpr::Value(v) => match value_binding(v) {
            Ok(val) => (r matches Ok(BoundExpression::BoundConstant(c)) && c.val@ == val),
            Err(m) => (r matches Err(BindError::Message(x)) && x@ == m),
        },
        SqlExpr::Other(d) => (r matches Err(BindError::UnsupportedExpr(m)) && m@ == d@),
    }
}

/// A fixed-size column of type `t` named `name`, as a fresh column has it.
pub open spec fn fixed_column(name: Seq<char>, t: TypeId) -> ColumnView {
    ColumnView { name, type_id: t, length: type_size(t, 0), offset: 0 }
}

/// The declared length of a character type: the given number, 128 when none is given.
pub open spec fn char_length(l: Option<u64>) -> nat {
    match l {
        Some(n) => n as nat,
        None => 128,
    }
}

/// The column a column definition binds to, if its type is supported:
/// VARCHAR keeps its length as a 32-bit number.
pub open spec fn column_def_binding(d: SqlColumnDef) -> Option<ColumnView> {
    let n = d.name@;
    match d.data_type {
        SqlDataType::Bool | SqlDataType::Boolean => Some(fixed_column(n, TypeId::Boolean)),
        SqlDataType::TinyInt | SqlDataType::TinyIntUnsigned | SqlDataType::UTinyInt => Some(
            fixed_column(n, TypeId::TinyInt),
        ),
        SqlDataType::SmallInt | SqlDataType::SmallIntUnsigned | SqlDataType::USmallInt | SqlDataType::Int2
        | SqlDataType::Int2Unsigned => Some(fixed_column(n, TypeId::SmallInt)),
        SqlDataType::Int | SqlDataType::Integer | SqlDataType::Int4 | SqlDataType::IntUnsigned
        | SqlDataType::Int4Unsigned | SqlDataType::IntegerUnsigned | SqlDataType::Int32 | SqlDataType::Signed
        | SqlDataType::SignedInteger => Some(fixed_column(n, TypeId::Integer)),
        SqlDataType::BigInt | SqlDataType::BigIntUnsigned | SqlDataType::UBigInt | SqlDataType::Int8
        | SqlDataType::Int8Unsigned | SqlDataType::Int64 => Some(fixed_column(n, TypeId::BigInt)),
        SqlDataType::Decimal | SqlDataType::Dec | SqlDataType::Numeric | SqlDataType::Float | SqlDataType::Float4
        | SqlDataType::Float8 | SqlDataType::Float32 | SqlDataType::Float64 | SqlDataType::Real
        | SqlDataType::Double | SqlDataType::DoublePrecision => Some(fixed_column(n, TypeId::Decimal)),
        SqlDataType::Varchar(l) | SqlDataType::Char(l) | SqlDataType::Character(l)
        | SqlDataType::CharacterVarying(l) | SqlDataType::CharVarying(l) | SqlDataType::Nvarchar(l) => Some(
            ColumnView { name: n, type_id: TypeId::Varchar, length: char_length(l) % 0x1_0000_0000, offset: 0 },
        ),
        SqlDataType::Timestamp | SqlDataType::Date | SqlDataType::Datetime => Some(
            fixed_column(n, TypeId::Timestamp),
        ),
        SqlDataType::Other(_) => None,
    }
}

/// Whether one of the column's options is PRIMARY KEY.
pub open spec fn is_primary_key(d: SqlColumnDef) -> bool {
    exists|i: int| 0 <= i < d.options@.len() && d.options@[i] is PrimaryKey
}

/// Whether one of the column's options is PRIMARY KEY.
fn has_primary_key(d: &SqlColumnDef) -> (r: bool)
    ensures
        r == is_primary_key(*d),
{
    let mut i: usize = 0;
    while i < d.options.len()
        invariant
            0 <= i <= d.options@.len(),
            forall|j: int| 0 <= j < i ==> !(d.options@[j] is PrimaryKey),
        decreases d.options@.len() - i,
    {
        if let SqlColumnOption::PrimaryKey = d.options[i] {
            return true;
        }
        i += 1;
    }
    false
}

pub open spec fn primary_key_names(cols: Seq<SqlColumnDef>) -> Seq<Seq<char>>
    decreases cols.len(),
{
    if cols.len() == 0 {
        Seq::empty()
    } else {
        primary_key_names(cols.drop_last()) + if is_primary_key(cols.last()) {
            seq![cols.last().name@]
        } else {
            Seq::empty()
        }
    }
}

/// The identifier of a name part, if it is one.
pub open spec fn part_identifier(p: SqlObjectNamePart) -> Option<Seq<char>> {
    match p {
        SqlObjectNamePart::Identifier(s) => Some(s@),
        SqlObjectNamePart::Other(_) => None,
    }
}

/// The text of a name part.
pub open spec fn part_text(p: SqlObjectNamePart) -> Seq<char> {
    match p {
        SqlObjectNamePart::Identifier(s) => s@,
        SqlObjectNamePart::Other(t) => t@,
    }
}

/// The column names an index column gives: those of a plain or compound
/// identifier, none for another expression.
pub open spec fn index_col_names(e: SqlExpr) -> Seq<Seq<char>> {
    match e {
        SqlExpr::Identifier(s) => seq![s@],
        SqlExpr::CompoundIdentifier(v) => string_views(v@),
        _ => Seq::empty(),
    }
}

/// The sort option text of an index column.
pub open spec fn asc_text(asc: Option<bool>) -> Seq<char> {
    match asc {
        Some(true) => "ASC"@,
        Some(false) => "DESC"@,
        None => Seq::empty(),
    }
}

/// Whether `s` is what CREATE INDEX `stmt` binds to over `cat`: its name
/// (empty when none is given), the table it names with that table's
/// columns laid out afresh, the column names and sort options of its
/// columns, and a B+ tree index type.
pub open spec fn index_bound(cat: Catalog, stmt: SqlCreateIndex, s: IndexStatement) -> bool {
    let tname = part_text(stmt.table_name.parts@[0]);
    &&& s.index_name@ == match stmt.name {
        Some(n) => part_text(n.parts@[0]),
        None => Seq::empty(),
    }
    &&& s.table.table@ == tname
    &&& s.table.alias is None
    &&& s.table.oid < cat.tables().len()
    &&& cat.tables()[s.table.oid as int].name == tname
    &&& s.table.schema@ == schema_of(cat.tables()[s.table.oid as int].schema.columns)
    &&& s.cols@.len() == stmt.columns@.len()
    &&& forall|i: int| 0 <= i < s.cols@.len() ==> #[trigger] s.cols@[i].names() == index_col_names(stmt.columns@[i].expr)
    &&& string_views(s.col_options@) == stmt.columns@.map_values(|c: SqlIndexColumn| asc_text(c.asc))
    &&& s.index_type == IndexType::BPlusTreeIndex
    &&& s.options@.len() == 0
}

/// Whether the table factor `f` names a table of `cat` by one identifier.
pub open spec fn factor_ok(cat: Catalog, f: SqlTableFactor) -> bool {
    f matches SqlTableFactor::Table { name, alias } && object_name(name) is Some && cat.has_table(
        object_name(name)->0,
    )
}

/// The error binding the table factor `f` gives when it does not name a table.
pub open spec fn factor_error(cat: Catalog, f: SqlTableFactor, e: BindError) -> bool {
    match f {
        SqlTableFactor::Other(t) => (e matches BindError::UnsupportedTableFactor(m) && m@ == t@),
        SqlTableFactor::Table { name, alias } => match object_name(name) {
            None => (e matches BindError::UnsupportObjectName(m) && m@ == name.debug@),
            Some(n) => (e matches BindError::TableNotFound(m) && m@ == n),
        },
    }
}

/// Whether `b` is the reference to the table that the factor `f` names in `cat`.
pub open spec fn factor_base(cat: Catalog, f: SqlTableFactor, b: BaseTableRef) -> bool {
    f matches SqlTableFactor::Table { name, alias } && object_name(name) == Some(b.table@) && b.alias == alias
        && b.oid < cat.tables().len() && cat.tables()[b.oid as int] == (TableView {
        schema: b.schema@,
        name: b.table@,
        oid: b.oid,
    })
}

/// The join type and condition of a join operator the binder supports.
pub open spec fn join_kind(op: SqlJoinOperator) -> Option<(JoinType, SqlJoinConstraint)> {
    match op {
        SqlJoinOperator::Left(c) => Some((JoinType::Left, c)),
        SqlJoinOperator::Right(c) => Some((JoinType::Right, c)),
        SqlJoinOperator::Inner(c) => Some((JoinType::Inner, c)),
        SqlJoinOperator::Join(c) => Some((JoinType::Inner, c)),
        SqlJoinOperator::FullOuter(c) => Some((JoinType::Outer, c)),
        SqlJoinOperator::Other(_) => None,
    }
}

/// Whether the join `j` binds without error.
pub open spec fn join_ok(t: Option<TableRef>, cat: Catalog, j: SqlJoin) -> bool {
    &&& factor_ok(cat, j.relation)
    &&& join_kind(j.join_operator) matches Some((_, c))
    &&& c matches SqlJoinConstraint::On(e)
    &&& bind_ok(t, e)
}

/// The error binding the join `j` gives: that of its table, its operator,
/// its constraint, or its condition, whichever comes first.
pub open spec fn join_error(t: Option<TableRef>, cat: Catalog, j: SqlJoin, e: BindError) -> bool {
    if !factor_ok(cat, j.relation) {
        factor_error(cat, j.relation, e)
    } else {
        match join_kind(j.join_operator) {
            None => (j.join_operator matches SqlJoinOperator::Other(x) && (e matches BindError::UnsupportedJoinType(m)
                && m@ == x@)),
            Some((_, SqlJoinConstraint::Other(x))) => (e matches BindError::UnsupportedJoinConstraint(m) && m@ == x@),
            Some((_, SqlJoinConstraint::On(c))) => binds(t, c, Err(e)),
        }
    }
}

/// Whether `r` is the join of `l` with the table of `j`, on `j`'s bound condition.
pub open spec fn join_result(t: Option<TableRef>, cat: Catalog, l: TableRef, j: SqlJoin, r: TableRef) -> bool {
    &&& r matches TableRef::JoinRef(jr)
    &&& *jr.left == l
    &&& *jr.right matches TableRef::BaseTableRef(b)
    &&& factor_base(cat, j.relation, b)
    &&& join_kind(j.join_operator) matches Some((ty, c))
    &&& ty == jr.join_type
    &&& c matches SqlJoinConstraint::On(e)
    &&& binds(t, e, Ok(jr.condition))
}

/// Whether `r` is the table of `f` joined in turn with each of `joins`.
pub open spec fn joined(t: Option<TableRef>, cat: Catalog, f: SqlTableFactor, joins: Seq<SqlJoin>, r: TableRef) -> bool
    decreases joins.len(),
{
    if joins.len() == 0 {
        r matches TableRef::BaseTableRef(b) && factor_base(cat, f, b)
    } else {
        r matches TableRef::JoinRef(jr) && joined(t, cat, f, joins.drop_last(), *jr.left) && join_result(
            t,
            cat,
            *jr.left,
            joins.last(),
            r,
        )
    }
}

/// Whether the table with its joins `tw` binds without error.
pub open spec fn table_ok(t: Option<TableRef>, cat: Catalog, tw: SqlTableWithJoins) -> bool {
    factor_ok(cat, tw.relation) && forall|i: int| 0 <= i < tw.joins@.len() ==> #[trigger] join_ok(t, cat, tw.joins@[i])
}

/// The error binding `tw` gives: that of its table, else of its first failing join.
pub open spec fn table_error(t: Option<TableRef>, cat: Catalog, tw: SqlTableWithJoins, e: BindError) -> bool {
    if !factor_ok(cat, tw.relation) {
        factor_error(cat, tw.relation, e)
    } else {
        exists|i: int|
            0 <= i < tw.joins@.len() && !#[trigger] join_ok(t, cat, tw.joins@[i]) && (forall|k: int|
                0 <= k < i ==> #[trigger] join_ok(t, cat, tw.joins@[k])) && join_error(t, cat, tw.joins@[i], e)
    }
}

/// Whether the tables `ts` bound in order give `r`: one table alone, more
/// as a left-deep cross product.
pub open spec fn crossed(t: Option<TableRef>, cat: Catalog, ts: Seq<SqlTableWithJoins>, r: TableRef) -> bool
    decreases ts.len(),
{
    if ts.len() <= 1 {
        ts.len() == 1 && joined(t, cat, ts[0].relation, ts[0].joins@, r)
    } else {
        r matches TableRef::CrossProductRef(c) && crossed(t, cat, ts.drop_last(), *c.left) && joined(
            t,
            cat,
            ts.last().relation,
            ts.last().joins@,
            *c.right,
        )
    }
}

/// Whether the condition of the join `j`, if it has one, has well-formed names.
pub open spec fn join_exprs_wf(j: SqlJoin) -> bool {
    match join_kind(j.join_operator) {
        Some((_, SqlJoinConstraint::On(e))) => sql_expr_wf(e),
        _ => true,
    }
}

/// Whether every expression of `rows` before row `i`, column `j` binds.
pub open spec fn rows_ok_before(t: Option<TableRef>, rows: Seq<Vec<SqlExpr>>, i: int, j: int) -> bool {
    forall|a: int, b: int|
        0 <= a < rows.len() && 0 <= b < rows[a]@.len() && (a < i || (a == i && b < j)) ==> bind_ok(
            t,
            #[trigger] rows[a]@[b],
        )
}

/// Whether every expression of `rows` has well-formed names.
pub open spec fn rows_wf(rows: Seq<Vec<SqlExpr>>) -> bool {
    forall|a: int, b: int| 0 <= a < rows.len() && 0 <= b < rows[a]@.len() ==> sql_expr_wf(#[trigger] rows[a]@[b])
}

/// Whether `r` is what binding the VALUES rows `rows` gives: an error
/// when there is none, else each expression bound in row order, or the
/// first error met.
pub open spec fn values_result(t: Option<TableRef>, rows: Seq<Vec<SqlExpr>>, r: Result<TableRef, BindError>) -> bool {
    if rows.len() == 0 {
        r matches Err(BindError::Message(m)) && m@ == "at least one row of values should be provided"@
    } else if rows_ok_before(t, rows, rows.len() as int, 0) {
        &&& r matches Ok(TableRef::ExpressionListRef(el))
        &&& el.identifier@ == "<unamed>"@
        &&& el.values@.len() == rows.len()
        &&& forall|a: int| 0 <= a < rows.len() ==> #[trigger] el.values@[a]@.len() == rows[a]@.len()
        &&& forall|a: int, b: int|
            0 <= a < rows.len() && 0 <= b < rows[a]@.len() ==> binds(t, rows[a]@[b], Ok(#[trigger] el.values@[a]@[b]))
    } else {
        exists|i: int, j: int|
            0 <= i < rows.len() && 0 <= j < rows[i]@.len() && rows_ok_before(t, rows, i, j) && !bind_ok(
                t,
                #[trigger] rows[i]@[j],
            ) && (r matches Err(e) && binds(t, rows[i]@[j], Err(e)))
    }
}

/// Why binding a SELECT list fails.
pub enum ProjectionError {
    /// Binding this expression fails.
    Bind(SqlExpr),
    /// An error with this message.
    Message(Seq<char>),
    /// An item the binder does not support, by its text.
    Unsupported(Seq<char>),
}

/// Binding one SELECT item after the state `s`: how many expressions are
/// listed and whether the list came from `*`.
pub open spec fn projection_step(t: TableRef, s: (nat, bool), item: SqlSelectItem) -> Result<(nat, bool), ProjectionError> {
    match item {
        SqlSelectItem::UnnamedExpr(e) => if !bind_ok(Some(t), e) {
            Err(ProjectionError::Bind(e))
        } else if s.1 {
            Err(ProjectionError::Message("select * cannot have other expressions in list"@))
        } else {
            Ok((s.0 + 1, false))
        },
        SqlSelectItem::Wildcard => if s.0 > 0 {
            Err(ProjectionError::Message("select * cannot have other expressions in list"@))
        } else {
            match all_columns(t) {
                None => Err(ProjectionError::Message(all_columns_error(t))),
                Some(cs) => Ok((cs.len(), true)),
            }
        },
        SqlSelectItem::Other(x) => Err(ProjectionError::Unsupported(x@)),
    }
}

/// The state after binding the SELECT items `items` in order, or why it fails.
pub open spec fn projection_state(t: TableRef, items: Seq<SqlSelectItem>) -> Result<(nat, bool), ProjectionError>
    decreases items.len(),
{
    if items.len() == 0 {
        Ok((0, false))
    } else {
        match projection_state(t, items.drop_last()) {
            Err(pe) => Err(pe),
            Ok(s) => projection_step(t, s, items.last()),
        }
    }
}

/// Whether `e` is the error that `pe` describes.
pub open spec fn projection_error(t: TableRef, pe: ProjectionError, e: BindError) -> bool {
    match pe {
        ProjectionError::Bind(x) => binds(Some(t), x, Err(e)),
        ProjectionError::Message(m) => (e matches BindError::Message(x) && x@ == m),
        ProjectionError::Unsupported(m) => (e matches BindError::UnsupportedExpr(x) && x@ == m),
    }
}

/// Whether `v` is the list that SELECT items `items` bind to: the columns
/// of `t` when it came from `*`, else each item bound in turn.
pub open spec fn projection_list(t: TableRef, items: Seq<SqlSelectItem>, star: bool, v: Seq<BoundExpression>) -> bool {
    if star {
        all_columns(t) matches Some(cs) && v.len() == cs.len() && forall|i: int|
            0 <= i < cs.len() ==> #[trigger] is_column_ref(v[i], cs[i])
    } else {
        v.len() == items.len() && forall|i: int|
            0 <= i < items.len() ==> (#[trigger] items[i] matches SqlSelectItem::UnnamedExpr(e) && binds(
                Some(t),
                e,
                Ok(v[i]),
            ))
    }
}

/// Whether the SELECT items `items` bind without error.
pub open spec fn projection_ok(t: Option<TableRef>, items: Seq<SqlSelectItem>) -> bool {
    t is Some && projection_state(t->0, items) is Ok
}

/// Whether `r` is what binding the SELECT items `items` gives when the
/// binder's table reference is `t`.
pub open spec fn projection_result(t: Option<TableRef>, items: Seq<SqlSelectItem>, r: Result<Vec<BoundExpression>, BindError>) -> bool {
    match t {
        None => (r matches Err(BindError::Message(m)) && m@ == "Empty table ref"@),
        Some(t) => match projection_state(t, items) {
            Ok(s) => (r matches Ok(v) && projection_list(t, items, s.1, v@)),
            Err(pe) => (r matches Err(e) && projection_error(t, pe, e)),
        },
    }
}

/// Whether the expressions of the SELECT items `items` have well-formed names.
pub open spec fn items_wf(items: Seq<SqlSelectItem>) -> bool {
    forall|i: int| 0 <= i < items.len() ==> (#[trigger] items[i] matches SqlSelectItem::UnnamedExpr(e) ==> sql_expr_wf(e))
}

/// A failure met while binding a prefix of the SELECT items stays the failure of all of them.
proof fn lemma_projection_error_stays(t: TableRef, items: Seq<SqlSelectItem>, k: int)
    requires
        0 <= k <= items.len(),
        projection_state(t, items.take(k)) is Err,
    ensures
        projection_state(t, items) == projection_state(t, items.take(k)),
    decreases items.len() - k,
{
    if k < items.len() {
        assert(items.take(k + 1).drop_last() =~= items.take(k));
        lemma_projection_error_stays(t, items, k + 1);
    } else {
        assert(items.take(k) =~= items);
    }
}

/// A bound expression holds no aggregate and no window function.
proof fn lemma_bound_plain(t: Option<TableRef>, e: SqlExpr, x: BoundExpression)
    requires
        binds(t, e, Ok(x)),
    ensures
        !has_agg(x),
        !has_window(x),
    decreases e,
{
    match e {
        SqlExpr::BinaryOp { left, op, right } => {
            let b = x->BoundBinaryOp_0;
            lemma_bound_plain(t, *left, *b.larg);
            lemma_bound_plain(t, *right, *b.rarg);
        },
        _ => {},
    }
}

/// Whether `r` is what binding CREATE TABLE `stmt` gives: its name, the
/// column each definition declares and the primary key column names, or
/// the error of its name or of its first unsupported column type.
pub open spec fn create_binding(stmt: SqlCreateTable, r: Result<CreateStatement, BindError>) -> bool {
    match stmt.name.parts@[0] {
        SqlObjectNamePart::Other(x) => (r matches Err(BindError::UnsupportedTableName(m)) && m@ == x@),
        SqlObjectNamePart::Identifier(n) => {
            let cols = stmt.columns@;
            if forall|i: int| 0 <= i < cols.len() ==> #[trigger] column_def_binding(cols[i]) is Some {
                r matches Ok(c) && c.table@ == n@ && string_views(c.primary_key@)
                    == primary_key_names(cols) && column_views(c.columns@) == cols.map_values(
                    |d: SqlColumnDef| column_def_binding(d)->0,
                )
            } else {
                exists|i: int|
                    0 <= i < cols.len() && #[trigger] column_def_binding(cols[i]) is None && (forall|j: int|
                        0 <= j < i ==> #[trigger] column_def_binding(cols[j]) is Some) && (cols[i].data_type matches SqlDataType::Other(
                        t,
                    ) && (r matches Err(BindError::UnsupportedDataType(m)) && m@ == t@))
            }
        },
    }
}

/// Whether every table of FROM binds without error.
pub open spec fn from_ok(t: Option<TableRef>, cat: Catalog, ts: Seq<SqlTableWithJoins>) -> bool {
    forall|i: int| 0 <= i < ts.len() ==> #[trigger] table_ok(t, cat, ts[i])
}

/// Whether `r` is what binding the tables of FROM `ts` gives: the empty
/// reference for none, else their cross product in order, or the error of
/// the first table that fails.
pub open spec fn from_result(t: Option<TableRef>, cat: Catalog, ts: Seq<SqlTableWithJoins>, r: Result<TableRef, BindError>) -> bool {
    match r {
        Ok(tr) => from_ok(t, cat, ts) && if ts.len() == 0 {
            tr == TableRef::Empty
        } else {
            crossed(t, cat, ts, tr)
        },
        Err(e) => exists|i: int|
            0 <= i < ts.len() && !#[trigger] table_ok(t, cat, ts[i]) && (forall|k: int|
                0 <= k < i ==> #[trigger] table_ok(t, cat, ts[k])) && table_error(t, cat, ts[i], e),
    }
}

/// Whether a SELECT has nothing bound but its table and list.
pub open spec fn plain_select(s: SelectStatement) -> bool {
    &&& s.where_clause is None
    &&& s.group_by@.len() == 0
    &&& s.having is None
    &&& s.limit_count is None
    &&& s.limit_offset is None
    &&& s.sort@.len() == 0
    &&& s.ctes@.len() == 0
    &&& !s.is_distinct
}

/// Whether the VALUES rows `rows` bind without error.
pub open spec fn values_ok(t: Option<TableRef>, rows: Seq<Vec<SqlExpr>>) -> bool {
    rows.len() > 0 && rows_ok_before(t, rows, rows.len() as int, 0)
}

/// Whether the names in the expressions of `q` are well-formed.
pub open spec fn query_wf(q: SqlQuery) -> bool {
    match q.body {
        SqlSetExpr::Select(sel) => items_wf(sel.projection@) && forall|i: int, k: int|
            0 <= i < sel.from@.len() && 0 <= k < sel.from@[i].joins@.len() ==> join_exprs_wf(
                #[trigger] sel.from@[i].joins@[k],
            ),
        SqlSetExpr::Values(rows) => rows_wf(rows@),
        SqlSetExpr::Other(_) => true,
    }
}

/// Whether the query `q` binds without error.
pub open spec fn query_ok(t: Option<TableRef>, cat: Catalog, q: SqlQuery) -> bool {
    &&& !q.has_with
    &&& !q.has_order_by
    &&& !q.has_limit
    &&& match q.body {
        SqlSetExpr::Select(sel) => from_ok(t, cat, sel.from@) && projection_ok(t, sel.projection@),
        SqlSetExpr::Values(rows) => values_ok(t, rows@),
        SqlSetExpr::Other(_) => false,
    }
}

/// Whether `r` is what binding the query `q` gives: WITH, ORDER BY and
/// LIMIT are refused; a SELECT binds its FROM, then its list; VALUES binds
/// its rows with an empty list.
pub open spec fn query_binding(t: Option<TableRef>, cat: Catalog, q: SqlQuery, r: Result<SelectStatement, BindError>) -> bool {
    if q.has_with {
        r matches Err(BindError::UnsupportedYetSQL(m)) && m@ == "Query with WITH is not supported yet"@
    } else if q.has_order_by {
        r matches Err(BindError::UnsupportedYetSQL(m)) && m@ == "Select with ORDER BY is not supported yet."@
    } else if q.has_limit {
        r matches Err(BindError::UnsupportedYetSQL(m)) && m@ == "Select with LIMIT is not supported yet."@
    } else {
        match q.body {
            SqlSetExpr::Select(sel) => match r {
                Ok(st) => from_result(t, cat, sel.from@, Ok(*st.table)) && projection_result(
                    t,
                    sel.projection@,
                    Ok(st.select_list),
                ) && plain_select(st),
                Err(e) => if !from_ok(t, cat, sel.from@) {
                    from_result(t, cat, sel.from@, Err(e))
                } else {
                    projection_result(t, sel.projection@, Err(e))
                },
            },
            SqlSetExpr::Values(rows) => match r {
                Ok(st) => values_result(t, rows@, Ok(*st.table)) && st.select_list@.len() == 0 && plain_select(st),
                Err(e) => values_result(t, rows@, Err(e)),
            },
            SqlSetExpr::Other(d) => (r matches Err(BindError::UnsupportedYetSQL(m)) && m@ == "unsupoorted query body: "@
                + d@),
        }
    }
}

/// Whether `b` is the reference, without alias, to the table named `n` in `cat`.
pub open spec fn table_ref_named(cat: Catalog, n: Seq<char>, b: BaseTableRef) -> bool {
    &&& b.table@ == n
    &&& b.alias is None
    &&& b.oid < cat.tables().len()
    &&& cat.tables()[b.oid as int] == (TableView { schema: b.schema@, name: n, oid: b.oid })
}

/// Whether `r` is what binding INSERT `ins` gives: its table's name, then
/// its source query, then the table it names.
pub open spec fn insert_binding(t: Option<TableRef>, cat: Catalog, ins: SqlInsert, r: Result<InsertStatement, BindError>) -> bool {
    match ins.table {
        SqlTableObject::Other(x) => (r matches Err(BindError::UnsupportedJoinType(m)) && m@ == x@),
        SqlTableObject::TableName(name) => match object_name(name) {
            None => (r matches Err(BindError::UnsupportObjectName(m)) && m@ == name.debug@),
            Some(n) => match ins.source {
                None => (r matches Err(BindError::Message(m)) && m@ == "insert should provide values"@),
                Some(q) => if !query_ok(t, cat, *q) {
                    r matches Err(e) && query_binding(t, cat, *q, Err(e))
                } else if !cat.has_table(n) {
                    r matches Err(BindError::TableNotFound(m)) && m@ == n
                } else {
                    r matches Ok(st) && query_binding(t, cat, *q, Ok(st.select)) && table_ref_named(cat, n, st.table)
                },
            },
        },
    }
}

/// Whether the statement `stmt` can be bound without a panic.
pub open spec fn statement_wf(t: Option<TableRef>, stmt: SqlStatement) -> bool {
    match stmt {
        SqlStatement::Query(q) => t is Some ==> query_wf(*q),
        SqlStatement::CreateTable(ct) => ct.name.parts@.len() >= 1,
        SqlStatement::Insert(ins) => t is Some ==> match ins.source {
            Some(q) => query_wf(*q),
            None => true,
        },
        SqlStatement::Other(_) => true,
    }
}

/// Whether `r` is what binding the statement `stmt` gives.
pub open spec fn statement_binding(t: Option<TableRef>, cat: Catalog, stmt: SqlStatement, r: Result<BoundStatement, BindError>) -> bool {
    match stmt {
        SqlStatement::Query(q) => match r {
            Ok(BoundStatement::Select(s)) => query_binding(t, cat, *q, Ok(s)),
            Ok(_) => false,
            Err(e) => query_binding(t, cat, *q, Err(e)),
        },
        SqlStatement::CreateTable(ct) => match r {
            Ok(BoundStatement::Create(c)) => create_binding(ct, Ok(c)),
            Ok(_) => false,
            Err(e) => create_binding(ct, Err(e)),
        },
        SqlStatement::Insert(ins) => match r {
            Ok(BoundStatement::Insert(i)) => insert_binding(t, cat, ins, Ok(i)),
            Ok(_) => false,
            Err(e) => insert_binding(t, cat, ins, Err(e)),
        },
        SqlStatement::Other(x) => (r matches Err(BindError::UnsupportedStatement(m)) && m@ == x@),
    }
}

/// The binder turns the parsed SQL AST into a binder tree which the planner
/// can read unambiguously.
pub struct Binder<'cat> {
    /// Catalog reference used during the binding process.
    catalog: &'cat Catalog,
    /// Universal ID counter for generating unique names for unnamed items.
    universal_id: u64,
    bound_table_ref: Option<TableRef>,
    all_table_ref: Vec<TableRef>,
}

impl<'cat> Binder<'cat> {
    /// The binder reads a consistent catalog.
    #[verifier::type_invariant]
    pub closed spec fn inv(self) -> bool {
        &&& self.catalog.wf()
        &&& self.bound_table_ref is None ==> self.all_table_ref@.len() == 0
    }

    /// The stack of table references: the outer ones, then the bound one on top.
    pub closed spec fn table_stack(&self) -> Seq<TableRef> {
        match self.bound_table_ref {
            Some(t) => self.all_table_ref@.push(t),
            None => Seq::empty(),
        }
    }

    /// The identifier the binder hands out next.
    pub closed spec fn next_universal_id(&self) -> u64 {
        self.universal_id
    }

    /// The catalog the binder reads.
    pub closed spec fn catalog(&self) -> Catalog {
        *self.catalog
    }

    /// The table reference names are resolved in, if any.
    pub closed spec fn bound_table(&self) -> Option<TableRef> {
        self.bound_table_ref
    }

    /// A binder over `catalog`, with no table reference bound.
    pub fn new(catalog: &'cat Catalog) -> (r: Self)
        requires
            catalog.wf(),
        ensures
            r.catalog() == *catalog,
            r.bound_table() is None,
            r.table_stack() == Seq::<TableRef>::empty(),
            r.next_universal_id() == 0,
    {
        Binder { catalog, universal_id: 0, bound_table_ref: None, all_table_ref: Vec::new() }
    }

    /// The reference to the table named `table_name` in the catalog, under
    /// the alias `table_alias`.
    pub fn bind_base_table_ref(&self, table_name: String, table_alias: Option<String>) -> (r: Result<
        BaseTableRef,
        BindError,
    >)
        ensures
            match r {
                Ok(b) => {
                    &&& self.catalog().has_table(table_name@)
                    &&& b.table == table_name
                    &&& b.alias == table_alias
                    &&& b.oid < self.catalog().tables().len()
                    &&& self.catalog().tables()[b.oid as int] == (TableView {
                        schema: b.schema@,
                        name: table_name@,
                        oid: b.oid,
                    })
                },
                Err(e) => !self.catalog().has_table(table_name@) && (e matches BindError::TableNotFound(
                    n,
                ) && n == table_name),
            },
    {
        proof {
            use_type_invariant(self);
        }
        match self.catalog.get_table_by_name(table_name.as_str()) {
            None => Err(BindError::TableNotFound(table_name)),
            Some(table_info) => Ok(
                BaseTableRef {
                    table: table_name,
                    oid: table_info.oid,
                    alias: table_alias,
                    schema: table_info.schema.duplicate(),
                },
            ),
        }
    }

    /// Whether `col_name` names a column of `schema`, ignoring case; an
    /// error when it names two.
    fn resolve_column_name_from_schema(schema: &Schema, col_name: &str) -> (r: Result<bool, BindError>)
        ensures
            match r {
                Err(e) => ci_occurs_twice(schema@.columns, col_name@) && (e matches BindError::AmbiguousColumnName(
                    n,
                ) && n@ == col_name@),
                Ok(found) => !ci_occurs_twice(schema@.columns, col_name@) && found == ci_occurs(
                    schema@.columns,
                    col_name@,
                ),
            },
    {
        let columns = schema.get_columns();
        let ghost cols = schema@.columns;
        let mut found: Option<usize> = None;
        let mut i: usize = 0;
        while i < columns.len()
            invariant
                0 <= i <= columns@.len(),
                cols == column_views(columns@),
                cols == schema@.columns,
                !ci_occurs_twice(cols.take(i as int), col_name@),
                match found {
                    None => forall|j: int| 0 <= j < i ==> !#[trigger] ci_named(cols, j, col_name@),
                    Some(k) => k < i && ci_named(cols, k as int, col_name@),
                },
            decreases columns@.len() - i,
        {
            assert(column_views(columns@)[i as int] == columns@[i as int]@);
            let ghost found_before = found;
            let hit = eq_ignore_case(col_name, columns[i].get_name());
            if hit {
                if found.is_some() {
                    proof {
                        let k = found.unwrap() as int;
                        assert(ci_named(cols, k, col_name@) && ci_named(cols, i as int, col_name@));
                    }
                    return Err(BindError::AmbiguousColumnName(String::from_str(col_name)));
                }
                found = Some(i);
            }
            proof {
                assert(hit == ci_named(cols, i as int, col_name@));
                assert forall|a: int, b: int|
                    0 <= a < b < i + 1 && #[trigger] ci_named(cols.take(i + 1), a, col_name@)
                        && #[trigger] ci_named(cols.take(i + 1), b, col_name@) implies false by {
                    assert(cols.take(i + 1)[a] == cols[a]);
                    assert(cols.take(i + 1)[b] == cols[b]);
                    if b < i {
                        assert(cols.take(i as int)[a] == cols[a]);
                        assert(cols.take(i as int)[b] == cols[b]);
                        assert(ci_named(cols.take(i as int), a, col_name@));
                        assert(ci_named(cols.take(i as int), b, col_name@));
                    } else {
                        assert(found_before is None);
                        assert(!ci_named(cols, a, col_name@));
                    }
                }
            }
            i += 1;
        }
        assert(cols.take(i as int) =~= cols);
        match found {
            Some(k) => {
                assert(ci_named(cols, k as int, col_name@));
                Ok(true)
            },
            None => Ok(false),
        }
    }
}

impl<'cat> Binder<'cat> {
    /// The single identifier of an object name.
    fn extract_object_name(name: &SqlObjectName) -> (r: Result<String, BindError>)
        ensures
            match r {
                Ok(s) => object_name(*name) == Some(s@),
                Err(e) => object_name(*name) is None && (e matches BindError::UnsupportObjectName(m)
                    && m@ == name.debug@),
            },
    {
        if name.parts.len() != 1 {
            return Err(BindError::UnsupportObjectName(name.debug.clone()));
        }
        match &name.parts[0] {
            SqlObjectNamePart::Identifier(id) => Ok(id.clone()),
            _ => Err(BindError::UnsupportObjectName(name.debug.clone())),
        }
    }

    /// The table name and alias of a named table in FROM.
    fn extract_table_fac(table_fac: &SqlTableFactor) -> (r: Result<(String, Option<String>), BindError>)
        ensures
            match *table_fac {
                SqlTableFactor::Table { name, alias } => match r {
                    Ok((n, a)) => object_name(name) == Some(n@) && a == alias,
                    Err(e) => object_name(name) is None && (e matches BindError::UnsupportObjectName(m)
                        && m@ == name.debug@),
                },
                SqlTableFactor::Other(t) => (r matches Err(BindError::UnsupportedTableFactor(m)) && m@ == t@),
            },
    {
        match table_fac {
            SqlTableFactor::Table { name, alias } => {
                let n = match Self::extract_object_name(name) {
                    Ok(n) => n,
                    Err(e) => return Err(e),
                };
                let a = match alias {
                    Some(a) => Some(a.clone()),
                    None => None,
                };
                Ok((n, a))
            },
            SqlTableFactor::Other(t) => Err(BindError::UnsupportedTableFactor(t.clone())),
        }
    }

    /// Resolves the column named by `col_names` in the base table `table_ref`.
    fn resolve_column_ref_from_base_table_ref(table_ref: &BaseTableRef, col_names: &[String]) -> (r: Result<
        Option<BoundColumnRef>,
        BindError,
    >)
        requires
            col_names@.len() >= 1,
        ensures
            match base_resolution(*table_ref, string_views(col_names@)) {
                Resolution::Found(n) => (r matches Ok(Some(c)) && c.names() == n),
                Resolution::Missing => r matches Ok(None),
                Resolution::Ambiguous(c) => (r matches Err(BindError::AmbiguousColumnName(m)) && m@ == c),
                Resolution::Unsupported(_) => false,
            },
    {
        let ghost names = string_views(col_names@);
        let table_name = table_ref.get_table_name();
        let col_name: &str = if col_names.len() == 1 {
            col_names[0].as_str()
        } else {
            if str_eq(col_names[0].as_str(), table_name) {
                col_names[1].as_str()
            } else {
                return Ok(None);
            }
        };
        assert(col_name@ == (if names.len() == 1 { names[0] } else { names[1] }));
        match Self::resolve_column_name_from_schema(&table_ref.schema, col_name) {
            Err(e) => Err(e),
            Ok(true) => {
                let c = BoundColumnRef {
                    col_names: vec![String::from_str(table_name), String::from_str(col_name)],
                };
                assert(c.names() =~= seq![visible_name(*table_ref), col_name@]);
                Ok(Some(c))
            },
            Ok(false) => Ok(None),
        }
    }

    /// Resolves the column named by `col_name` in `table_ref`: in a base
    /// table, or in the left then the right side of a cross product or join.
    fn resolve_column(table_ref: &TableRef, col_name: &[String]) -> (r: Result<Option<BoundExpression>, BindError>)
        requires
            col_name@.len() >= 1,
        ensures
            resolved_as(resolution(*table_ref, string_views(col_name@)), r),
        decreases table_ref,
    {
        match table_ref {
            TableRef::BaseTableRef(b) => match Self::resolve_column_ref_from_base_table_ref(b, col_name) {
                Ok(Some(c)) => Ok(Some(BoundExpression::BoundColumnRef(c))),
                Ok(None) => Ok(None),
                Err(e) => Err(e),
            },
            TableRef::CrossProductRef(c) => match Self::resolve_column(&c.left, col_name) {
                Ok(None) => Self::resolve_column(&c.right, col_name),
                other => other,
            },
            TableRef::JoinRef(j) => match Self::resolve_column(&j.left, col_name) {
                Ok(None) => Self::resolve_column(&j.right, col_name),
                other => other,
            },
            _ => Err(BindError::UnsupportedTableRef(table_ref.to_string())),
        }
    }

    /// The column references that SELECT * expands to in `table_ref`.
    fn get_all_columns(table_ref: &TableRef) -> (r: Result<Vec<BoundExpression>, BindError>)
        ensures
            match all_columns(*table_ref) {
                Some(ns) => (r matches Ok(v) && v@.len() == ns.len() && forall|i: int|
                    0 <= i < ns.len() ==> #[trigger] is_column_ref(v@[i], ns[i])),
                None => (r matches Err(BindError::Message(m)) && m@ == all_columns_error(*table_ref)),
            },
        decreases table_ref,
    {
        match table_ref {
            TableRef::BaseTableRef(tr) => {
                let columns = tr.schema.get_columns();
                let ghost ns = all_columns(*table_ref)->0;
                let mut out: Vec<BoundExpression> = Vec::new();
                let mut i: usize = 0;
                while i < columns.len()
                    invariant
                        0 <= i <= columns@.len(),
                        column_views(columns@) == tr.schema@.columns,
                        ns == tr.schema@.columns.map_values(|c: ColumnView| seq![tr.table@, c.name]),
                        out@.len() == i,
                        forall|k: int| 0 <= k < i ==> #[trigger] is_column_ref(out@[k], ns[k]),
                    decreases columns@.len() - i,
                {
                    assert(column_views(columns@)[i as int] == columns@[i as int]@);
                    let c = BoundColumnRef {
                        col_names: vec![tr.table.clone(), String::from_str(columns[i].get_name())],
                    };
                    assert(c.names() =~= ns[i as int]);
                    out.push(BoundExpression::BoundColumnRef(c));
                    i += 1;
                }
                Ok(out)
            },
            TableRef::CrossProductRef(cr) => {
                let mut columns = match Self::get_all_columns(&cr.left) {
                    Ok(v) => v,
                    Err(e) => return Err(e),
                };
                let mut append_columns = match Self::get_all_columns(&cr.right) {
                    Ok(v) => v,
                    Err(e) => return Err(e),
                };
                let ghost l = columns@;
                columns.append(&mut append_columns);
                proof {
                    let ns = all_columns(*table_ref)->0;
                    let nl = all_columns(*cr.left)->0;
                    assert forall|i: int| 0 <= i < ns.len() implies #[trigger] is_column_ref(columns@[i], ns[i]) by {
                        if i < nl.len() {
                            assert(columns@[i] == l[i]);
                        } else {
                            assert(is_column_ref(columns@[i], all_columns(*cr.right)->0[i - nl.len()]));
                        }
                    }
                }
                Ok(columns)
            },
            TableRef::JoinRef(jr) => {
                let mut columns = match Self::get_all_columns(&jr.left) {
                    Ok(v) => v,
                    Err(e) => return Err(e),
                };
                let mut append_columns = match Self::get_all_columns(&jr.right) {
                    Ok(v) => v,
                    Err(e) => return Err(e),
                };
                let ghost l = columns@;
                columns.append(&mut append_columns);
                proof {
                    let ns = all_columns(*table_ref)->0;
                    let nl = all_columns(*jr.left)->0;
                    assert forall|i: int| 0 <= i < ns.len() implies #[trigger] is_column_ref(columns@[i], ns[i]) by {
                        if i < nl.len() {
                            assert(columns@[i] == l[i]);
                        } else {
                            assert(is_column_ref(columns@[i], all_columns(*jr.right)->0[i - nl.len()]));
                        }
                    }
                }
                Ok(columns)
            },
            _ => {
                proof {
                    reveal_strlit("select * cannot be used with table ref ");
                }
                let mut m = String::from_str("select * cannot be used with table ref ");
                let t = table_ref.to_string();
                m.append(t.as_str());
                Err(BindError::Message(m))
            },
        }
    }
}

impl<'cat> Binder<'cat> {
    /// The value of a literal.
    pub fn bind_value(&self, value: &SqlValue) -> (r: Result<BoundConstant, BindError>)
        ensures
            match value_binding(*value) {
                Ok(v) => (r matches Ok(c) && c.val@ == v),
                Err(m) => (r matches Err(BindError::Message(x)) && x@ == m),
            },
    {
        proof {
            reveal_strlit("unsupported value: ");
            reveal_strlit("L");
            reveal_strlit("invalid number literal: ");
        }
        match value {
            SqlValue::Number(num_str, long) => {
                if *long {
                    let mut m = String::from_str("unsupported value: ");
                    m.append(num_str.as_str());
                    m.append("L");
                    return Err(BindError::Message(m));
                }
                match parse_i32(num_str.as_str()) {
                    Some(num) => Ok(BoundConstant { val: Value::from_i32(num) }),
                    None => {
                        let mut m = String::from_str("invalid number literal: ");
                        m.append(num_str.as_str());
                        Err(BindError::Message(m))
                    },
                }
            },
            SqlValue::SingleQuotedString(s) => Ok(BoundConstant { val: Value::from_str(s.as_str()) }),
            SqlValue::Null => Ok(BoundConstant { val: Value::null(TypeId::Integer) }),
            SqlValue::Other(t) => {
                let mut m = String::from_str("unsupported value: ");
                m.append(t.as_str());
                Err(BindError::Message(m))
            },
        }
    }

    /// Binds a column name in the binder's table reference.
    fn bind_column_name(&self, col_names: &[String]) -> (r: Result<BoundExpression, BindError>)
        requires
            col_names@.len() >= 1,
        ensures
            column_binding(self.bound_table(), string_views(col_names@), r),
    {
        let table_ref = match self.bound_table_ref.as_ref() {
            None => return Err(BindError::EmptyTableRef),
            Some(t) => t,
        };
        match Self::resolve_column(table_ref, col_names) {
            Ok(Some(e)) => Ok(e),
            Ok(None) => {
                let mut names: Vec<String> = Vec::new();
                let mut i: usize = 0;
                while i < col_names.len()
                    invariant
                        0 <= i <= col_names@.len(),
                        names@ == col_names@.take(i as int),
                    decreases col_names@.len() - i,
                {
                    names.push(col_names[i].clone());
                    assert(col_names@.take(i + 1) =~= col_names@.take(i as int).push(col_names@[i as int]));
                    i += 1;
                }
                assert(col_names@.take(i as int) =~= col_names@);
                let c = BoundColumnRef { col_names: names };
                assert(c.names() =~= string_views(col_names@));
                Err(BindError::ColumnNotFound(c.to_string()))
            },
            Err(e) => Err(e),
        }
    }

    /// Binds an expression: column names are resolved in the binder's table
    /// reference, operands are bound left then right, literals become values.
    pub fn bind_expression(&self, expr: &SqlExpr) -> (r: Result<BoundExpression, BindError>)
        requires
            self.bound_table() is Some ==> sql_expr_wf(*expr),
        ensures
            binds(self.bound_table(), *expr, r),
            r is Ok <==> bind_ok(self.bound_table(), *expr),
        decreases expr,
    {
        match expr {
            SqlExpr::Identifier(ident) => {
                let names = vec![ident.clone()];
                assert(string_views(names@) =~= seq![ident@]);
                self.bind_column_name(names.as_slice())
            },
            SqlExpr::CompoundIdentifier(idents) => {
                if self.bound_table_ref.is_none() {
                    return Err(BindError::EmptyTableRef);
                }
                self.bind_column_name(idents.as_slice())
            },
            SqlExpr::BinaryOp { left, op, right } => {
                let larg = match self.bind_expression(left) {
                    Ok(l) => l,
                    Err(e) => return Err(e),
                };
                let rarg = match self.bind_expression(right) {
                    Ok(r) => r,
                    Err(e) => return Err(e),
                };
                let op = match BoundBinaryOperator::from(op) {
                    Ok(o) => o,
                    Err(e) => return Err(e),
                };
                Ok(BoundExpression::BoundBinaryOp(BoundBinaryOp { larg: Box::new(larg), op, rarg: Box::new(rarg) }))
            },
            SqlExpr::Value(v) => match self.bind_value(v) {
                Ok(c) => Ok(BoundExpression::BoundConstant(c)),
                Err(e) => Err(e),
            },
            SqlExpr::Other(d) => Err(BindError::UnsupportedExpr(d.clone())),
        }
    }
}

impl<'cat> Binder<'cat> {
    /// The column a column definition declares.
    fn bind_column_def(&self, col_def: &SqlColumnDef) -> (r: Result<Column, BindError>)
        ensures
            match column_def_binding(*col_def) {
                Some(v) => (r matches Ok(c) && c@ == v),
                None => (col_def.data_type matches SqlDataType::Other(t) && (r matches Err(
                    BindError::UnsupportedDataType(m),
                ) && m@ == t@)),
            },
    {
        let name = col_def.name.clone();
        match &col_def.data_type {
            SqlDataType::Bool | SqlDataType::Boolean => Ok(Column::new(name, TypeId::Boolean)),
            SqlDataType::TinyInt | SqlDataType::TinyIntUnsigned | SqlDataType::UTinyInt => Ok(
                Column::new(name, TypeId::TinyInt),
            ),
            SqlDataType::SmallInt | SqlDataType::SmallIntUnsigned | SqlDataType::USmallInt | SqlDataType::Int2
            | SqlDataType::Int2Unsigned => Ok(Column::new(name, TypeId::SmallInt)),
            SqlDataType::Int | SqlDataType::Integer | SqlDataType::Int4 | SqlDataType::IntUnsigned
            | SqlDataType::Int4Unsigned | SqlDataType::IntegerUnsigned | SqlDataType::Int32 | SqlDataType::Signed
            | SqlDataType::SignedInteger => Ok(Column::new(name, TypeId::Integer)),
            SqlDataType::BigInt | SqlDataType::BigIntUnsigned | SqlDataType::UBigInt | SqlDataType::Int8
            | SqlDataType::Int8Unsigned | SqlDataType::Int64 => Ok(Column::new(name, TypeId::BigInt)),
            SqlDataType::Decimal | SqlDataType::Dec | SqlDataType::Numeric | SqlDataType::Float
            | SqlDataType::Float4 | SqlDataType::Float8 | SqlDataType::Float32 | SqlDataType::Float64
            | SqlDataType::Real | SqlDataType::Double | SqlDataType::DoublePrecision => Ok(
                Column::new(name, TypeId::Decimal),
            ),
            SqlDataType::Varchar(l) | SqlDataType::Char(l) | SqlDataType::Character(l)
            | SqlDataType::CharacterVarying(l) | SqlDataType::CharVarying(l) | SqlDataType::Nvarchar(l) => {
                let length: u64 = match l {
                    Some(n) => *n,
                    None => 128,
                };
                let short = length as u32;
                assert(short == length % 0x1_0000_0000) by (bit_vector)
                    requires
                        short == length as u32,
                ;
                Ok(Column::new_with_length(name, TypeId::Varchar, short))
            },
            SqlDataType::Timestamp | SqlDataType::Date | SqlDataType::Datetime => Ok(
                Column::new(name, TypeId::Timestamp),
            ),
            SqlDataType::Other(t) => Err(BindError::UnsupportedDataType(t.clone())),
        }
    }

    /// Binds CREATE TABLE: the table's name, its columns and its primary key
    /// column names.
    pub fn bind_create(&self, stmt: &SqlCreateTable) -> (r: Result<CreateStatement, BindError>)
        requires
            stmt.name.parts@.len() >= 1,
        ensures
            create_binding(*stmt, r),
    {
        let table_name = match &stmt.name.parts[0] {
            SqlObjectNamePart::Identifier(id) => id.clone(),
            SqlObjectNamePart::Other(x) => return Err(BindError::UnsupportedTableName(x.clone())),
        };
        let ghost cols = stmt.columns@;
        let mut primary_key: Vec<String> = Vec::new();
        let mut i: usize = 0;
        while i < stmt.columns.len()
            invariant
                0 <= i <= cols.len(),
                cols == stmt.columns@,
                string_views(primary_key@) == primary_key_names(cols.take(i as int)),
            decreases cols.len() - i,
        {
            proof {
                assert(cols.take(i + 1).drop_last() =~= cols.take(i as int));
            }
            if has_primary_key(&stmt.columns[i]) {
                let ghost before = primary_key@;
                primary_key.push(stmt.columns[i].name.clone());
                assert(string_views(primary_key@) =~= string_views(before) + seq![cols[i as int].name@]);
            } else {
                assert(primary_key_names(cols.take(i + 1)) =~= primary_key_names(cols.take(i as int)));
            }
            i += 1;
        }
        assert(cols.take(i as int) =~= cols);
        let mut columns: Vec<Column> = Vec::new();
        let mut k: usize = 0;
        while k < stmt.columns.len()
            invariant
                0 <= k <= cols.len(),
                cols == stmt.columns@,
                stmt.name.parts@.len() >= 1,
                stmt.name.parts@[0] is Identifier,
                forall|j: int| 0 <= j < k ==> #[trigger] column_def_binding(cols[j]) is Some,
                column_views(columns@) == cols.take(k as int).map_values(|d: SqlColumnDef| column_def_binding(d)->0),
            decreases cols.len() - k,
        {
            match self.bind_column_def(&stmt.columns[k]) {
                Ok(c) => {
                    proof {
                        lemma_column_views_push(columns@, c);
                        assert(cols.take(k + 1).map_values(|d: SqlColumnDef| column_def_binding(d)->0)
                            =~= cols.take(k as int).map_values(|d: SqlColumnDef| column_def_binding(d)->0).push(
                            c@,
                        ));
                    }
                    columns.push(c);
                },
                Err(e) => {
                    assert(column_def_binding(cols[k as int]) is None);
                    assert(stmt.columns@[k as int] == cols[k as int]);
                    assert(0 <= k < cols.len() && column_def_binding(cols[k as int]) is None && (forall|j: int|
                        0 <= j < k ==> #[trigger] column_def_binding(cols[j]) is Some));
                    return Err(e);
                },
            }
            k += 1;
        }
        assert(cols.take(k as int) =~= cols);
        Ok(CreateStatement { table: table_name, columns, primary_key })
    }
}

/// A copy of a list of strings.
pub(crate) fn clone_strings(v: &[String]) -> (r: Vec<String>)
    ensures
        r@ == v@,
{
    let mut out: Vec<String> = Vec::new();
    let mut i: usize = 0;
    while i < v.len()
        invariant
            0 <= i <= v@.len(),
            out@ == v@.take(i as int),
        decreases v@.len() - i,
    {
        out.push(v[i].clone());
        assert(v@.take(i + 1) =~= v@.take(i as int).push(v@[i as int]));
        i += 1;
    }
    assert(v@.take(i as int) =~= v@);
    out
}

impl<'cat> Binder<'cat> {
    /// Binds CREATE INDEX: the index's name, the table it is on, and the
    /// names and sort options of its columns.
    pub fn bind_index(&self, stmt: SqlCreateIndex) -> (r: Result<IndexStatement, BindError>)
        requires
            stmt.name matches Some(n) ==> n.parts@.len() >= 1,
            stmt.table_name.parts@.len() >= 1,
        ensures
            match stmt.name {
                Some(n) if n.parts@[0] is Other => (r matches Err(BindError::UnsupportedTableName(m)) && m@
                    == part_text(n.parts@[0])),
                _ => match stmt.table_name.parts@[0] {
                    SqlObjectNamePart::Other(x) => (r matches Err(BindError::UnsupportedTableName(m)) && m@ == x@),
                    SqlObjectNamePart::Identifier(t) => if self.catalog().has_table(t@) {
                        r matches Ok(s) && index_bound(self.catalog(), stmt, s)
                    } else {
                        r matches Err(BindError::TableNotFound(m)) && m@ == t@
                    },
                },
            },
    {
        proof {
            use_type_invariant(self);
        }
        let index_name = match &stmt.name {
            Some(name) => match &name.parts[0] {
                SqlObjectNamePart::Identifier(id) => id.clone(),
                SqlObjectNamePart::Other(x) => return Err(BindError::UnsupportedTableName(x.clone())),
            },
            None => String::new(),
        };
        let table_name = match &stmt.table_name.parts[0] {
            SqlObjectNamePart::Identifier(id) => id.clone(),
            SqlObjectNamePart::Other(x) => return Err(BindError::UnsupportedTableName(x.clone())),
        };
        let table_info = match self.catalog.get_table_by_name(table_name.as_str()) {
            None => return Err(BindError::TableNotFound(table_name)),
            Some(t) => t,
        };
        let sch = &table_info.schema;
        proof {
            use_type_invariant(sch);
        }
        let src = sch.get_columns();
        let mut copy: Vec<Column> = Vec::new();
        let mut i: usize = 0;
        while i < src.len()
            invariant
                0 <= i <= src@.len(),
                copy@ == src@.take(i as int),
            decreases src@.len() - i,
        {
            copy.push(src[i].duplicate());
            assert(src@.take(i + 1) =~= src@.take(i as int).push(src@[i as int]));
            i += 1;
        }
        assert(src@.take(i as int) =~= src@);
        let schema = Schema::new(copy);
        let table = BaseTableRef { table: table_name, oid: table_info.oid, alias: None, schema };
        let mut cols: Vec<BoundColumnRef> = Vec::new();
        let mut col_options: Vec<String> = Vec::new();
        let ghost ics = stmt.columns@;
        let mut k: usize = 0;
        while k < stmt.columns.len()
            invariant
                0 <= k <= ics.len(),
                ics == stmt.columns@,
                cols@.len() == k,
                forall|j: int| 0 <= j < k ==> #[trigger] cols@[j].names() == index_col_names(ics[j].expr),
                string_views(col_options@) == ics.take(k as int).map_values(|c: SqlIndexColumn| asc_text(c.asc)),
            decreases ics.len() - k,
        {
            let col_names: Vec<String> = match &stmt.columns[k].expr {
                SqlExpr::Identifier(id) => vec![id.clone()],
                SqlExpr::CompoundIdentifier(ids) => clone_strings(ids.as_slice()),
                _ => Vec::new(),
            };
            let c = BoundColumnRef { col_names };
            assert(c.names() =~= index_col_names(ics[k as int].expr));
            cols.push(c);
            proof {
                reveal_strlit("ASC");
                reveal_strlit("DESC");
            }
            let option = match stmt.columns[k].asc {
                Some(true) => String::from_str("ASC"),
                Some(false) => String::from_str("DESC"),
                None => String::new(),
            };
            assert(option@ == asc_text(ics[k as int].asc));
            let ghost before = col_options@;
            col_options.push(option);
            assert(string_views(col_options@) =~= ics.take(k + 1).map_values(|c: SqlIndexColumn| asc_text(c.asc))) by {
                assert(string_views(col_options@) =~= string_views(before).push(option@));
                assert(ics.take(k + 1).map_values(|c: SqlIndexColumn| asc_text(c.asc)) =~= ics.take(
                    k as int,
                ).map_values(|c: SqlIndexColumn| asc_text(c.asc)).push(asc_text(ics[k as int].asc)));
            }
            k += 1;
        }
        assert(ics.take(k as int) =~= ics);
        Ok(IndexStatement {
            index_name,
            table,
            cols,
            index_type: IndexType::BPlusTreeIndex,
            col_options,
            options: Vec::new(),
        })
    }
}

impl<'cat> Binder<'cat> {
    /// The reference to the table a table factor names.
    fn bind_factor(&self, f: &SqlTableFactor) -> (r: Result<BaseTableRef, BindError>)
        ensures
            match r {
                Ok(b) => factor_ok(self.catalog(), *f) && factor_base(self.catalog(), *f, b),
                Err(e) => !factor_ok(self.catalog(), *f) && factor_error(self.catalog(), *f, e),
            },
    {
        let (name, alias) = match Self::extract_table_fac(f) {
            Ok(p) => p,
            Err(e) => return Err(e),
        };
        self.bind_base_table_ref(name, alias)
    }

    /// Joins `l_table` with the table of `join`, on its bound condition.
    fn bind_table_join(&self, l_table: TableRef, join: &SqlJoin) -> (r: Result<TableRef, BindError>)
        requires
            self.bound_table() is Some ==> join_exprs_wf(*join),
        ensures
            match r {
                Ok(j) => join_ok(self.bound_table(), self.catalog(), *join) && join_result(
                    self.bound_table(),
                    self.catalog(),
                    l_table,
                    *join,
                    j,
                ),
                Err(e) => !join_ok(self.bound_table(), self.catalog(), *join) && join_error(
                    self.bound_table(),
                    self.catalog(),
                    *join,
                    e,
                ),
            },
    {
        let r_table = match self.bind_factor(&join.relation) {
            Ok(b) => b,
            Err(e) => return Err(e),
        };
        let (join_type, constraint) = match &join.join_operator {
            SqlJoinOperator::Left(c) => (JoinType::Left, c),
            SqlJoinOperator::Right(c) => (JoinType::Right, c),
            SqlJoinOperator::Inner(c) => (JoinType::Inner, c),
            SqlJoinOperator::Join(c) => (JoinType::Inner, c),
            SqlJoinOperator::FullOuter(c) => (JoinType::Outer, c),
            SqlJoinOperator::Other(x) => return Err(BindError::UnsupportedJoinType(x.clone())),
        };
        let condition = match constraint {
            SqlJoinConstraint::On(expr) => match self.bind_expression(expr) {
                Ok(c) => c,
                Err(e) => return Err(e),
            },
            SqlJoinConstraint::Other(x) => return Err(BindError::UnsupportedJoinConstraint(x.clone())),
        };
        Ok(
            TableRef::JoinRef(
                JoinRef {
                    left: Box::new(l_table),
                    right: Box::new(TableRef::BaseTableRef(r_table)),
                    join_type,
                    condition,
                },
            ),
        )
    }

    /// Binds a table of FROM with its joins, joined left to right.
    pub fn bind_table_ref(&self, table_with_joins: &SqlTableWithJoins) -> (r: Result<TableRef, BindError>)
        requires
            self.bound_table() is Some ==> forall|i: int|
                0 <= i < table_with_joins.joins@.len() ==> join_exprs_wf(#[trigger] table_with_joins.joins@[i]),
        ensures
            match r {
                Ok(tr) => table_ok(self.bound_table(), self.catalog(), *table_with_joins) && joined(
                    self.bound_table(),
                    self.catalog(),
                    table_with_joins.relation,
                    table_with_joins.joins@,
                    tr,
                ),
                Err(e) => !table_ok(self.bound_table(), self.catalog(), *table_with_joins) && table_error(
                    self.bound_table(),
                    self.catalog(),
                    *table_with_joins,
                    e,
                ),
            },
    {
        let ghost t = self.bound_table();
        let ghost cat = self.catalog();
        let ghost tw = *table_with_joins;
        let ghost joins = table_with_joins.joins@;
        let base = match self.bind_factor(&table_with_joins.relation) {
            Ok(b) => b,
            Err(e) => return Err(e),
        };
        let mut result = TableRef::BaseTableRef(base);
        let mut i: usize = 0;
        while i < table_with_joins.joins.len()
            invariant
                0 <= i <= joins.len(),
                joins == table_with_joins.joins@,
                t == self.bound_table(),
                cat == self.catalog(),
                tw == *table_with_joins,
                factor_ok(cat, tw.relation),
                t is Some ==> forall|k: int| 0 <= k < joins.len() ==> join_exprs_wf(#[trigger] joins[k]),
                forall|k: int| 0 <= k < i ==> #[trigger] join_ok(t, cat, joins[k]),
                joined(t, cat, tw.relation, joins.take(i as int), result),
            decreases joins.len() - i,
        {
            let ghost prev = result;
            proof {
                assert(join_exprs_wf(joins[i as int]) || t is None);
            }
            match self.bind_table_join(result, &table_with_joins.joins[i]) {
                Ok(j) => {
                    result = j;
                    proof {
                        assert(joins.take(i + 1).drop_last() =~= joins.take(i as int));
                        assert(joins.take(i + 1).last() == joins[i as int]);
                    }
                },
                Err(e) => {
                    assert(!join_ok(t, cat, joins[i as int]));
                    assert(!table_ok(t, cat, tw));
                    return Err(e);
                },
            }
            i += 1;
        }
        assert(joins.take(i as int) =~= joins);
        Ok(result)
    }

    /// Binds the tables of FROM: none is the empty reference, one its own
    /// reference, more a left-deep cross product in order.
    pub fn bind_from(&self, tables: &Vec<SqlTableWithJoins>) -> (r: Result<TableRef, BindError>)
        requires
            self.bound_table() is Some ==> forall|i: int, k: int|
                0 <= i < tables@.len() && 0 <= k < tables@[i].joins@.len() ==> join_exprs_wf(
                    #[trigger] tables@[i].joins@[k],
                ),
        ensures
            from_result(self.bound_table(), self.catalog(), tables@, r),
    {
        let ghost t = self.bound_table();
        let ghost cat = self.catalog();
        let ghost ts = tables@;
        if tables.len() == 0 {
            return Ok(TableRef::Empty);
        }
        let mut result = match self.bind_table_ref(&tables[0]) {
            Ok(tr) => tr,
            Err(e) => return Err(e),
        };
        assert(crossed(t, cat, ts.take(1), result));
        let mut i: usize = 1;
        while i < tables.len()
            invariant
                1 <= i <= ts.len(),
                ts == tables@,
                t == self.bound_table(),
                cat == self.catalog(),
                t is Some ==> forall|a: int, k: int|
                    0 <= a < ts.len() && 0 <= k < ts[a].joins@.len() ==> join_exprs_wf(#[trigger] ts[a].joins@[k]),
                forall|k: int| 0 <= k < i ==> #[trigger] table_ok(t, cat, ts[k]),
                crossed(t, cat, ts.take(i as int), result),
            decreases ts.len() - i,
        {
            let right = match self.bind_table_ref(&tables[i]) {
                Ok(tr) => tr,
                Err(e) => return Err(e),
            };
            let ghost prev = result;
            result = TableRef::CrossProductRef(CrossProductRef { left: Box::new(result), right: Box::new(right) });
            proof {
                assert(ts.take(i + 1).drop_last() =~= ts.take(i as int));
                assert(ts.take(i + 1).last() == ts[i as int]);
            }
            i += 1;
        }
        assert(ts.take(i as int) =~= ts);
        Ok(result)
    }
}

impl<'cat> Binder<'cat> {
    /// Binds the rows of VALUES, each expression in row order.
    pub fn bind_values_list(&self, rows: &Vec<Vec<SqlExpr>>) -> (r: Result<TableRef, BindError>)
        requires
            self.bound_table() is Some ==> rows_wf(rows@),
        ensures
            values_result(self.bound_table(), rows@, r),
    {
        let ghost t = self.bound_table();
        let ghost rs = rows@;
        proof {
            reveal_strlit("at least one row of values should be provided");
            reveal_strlit("<unamed>");
        }
        if rows.len() == 0 {
            return Err(BindError::Message(String::from_str("at least one row of values should be provided")));
        }
        let mut values: Vec<Vec<BoundExpression>> = Vec::new();
        let mut i: usize = 0;
        while i < rows.len()
            invariant
                0 <= i <= rs.len(),
                rs == rows@,
                t == self.bound_table(),
                t is Some ==> rows_wf(rs),
                rows_ok_before(t, rs, i as int, 0),
                values@.len() == i,
                forall|a: int| 0 <= a < i ==> #[trigger] values@[a]@.len() == rs[a]@.len(),
                forall|a: int, b: int| 0 <= a < i && 0 <= b < rs[a]@.len() ==> binds(t, rs[a]@[b], Ok(#[trigger] values@[a]@[b])),
            decreases rs.len() - i,
        {
            let row = &rows[i];
            let mut row_values: Vec<BoundExpression> = Vec::new();
            let mut j: usize = 0;
            while j < row.len()
                invariant
                    0 <= i < rs.len(),
                    0 <= j <= row@.len(),
                    rs == rows@,
                    row@ == rs[i as int]@,
                    t == self.bound_table(),
                    t is Some ==> rows_wf(rs),
                    rows_ok_before(t, rs, i as int, j as int),
                    row_values@.len() == j,
                    forall|b: int| 0 <= b < j ==> binds(t, rs[i as int]@[b], Ok(#[trigger] row_values@[b])),
                decreases row@.len() - j,
            {
                proof {
                    assert(t is Some ==> sql_expr_wf(rs[i as int]@[j as int]));
                }
                match self.bind_expression(&row[j]) {
                    Ok(x) => {
                        row_values.push(x);
                    },
                    Err(e) => {
                        assert(!rows_ok_before(t, rs, rs.len() as int, 0));
                        return Err(e);
                    },
                }
                j += 1;
            }
            values.push(row_values);
            i += 1;
        }
        Ok(TableRef::ExpressionListRef(ExpressionListRef {
            values,
            identifier: String::from_str("<unamed>"),
        }))
    }

    /// Binds the SELECT list in the binder's table reference: expressions
    /// in turn, or `*` alone for all of its columns.
    fn bind_select_projection(&self, projection: &Vec<SqlSelectItem>) -> (r: Result<Vec<BoundExpression>, BindError>)
        requires
            self.bound_table() is Some ==> items_wf(projection@),
        ensures
            projection_result(self.bound_table(), projection@, r),
    {
        proof {
            reveal_strlit("Empty table ref");
            reveal_strlit("select * cannot have other expressions in list");
            reveal_strlit("cannot have both normal agg and window agg in same query");
        }
        let table_ref = match self.bound_table_ref.as_ref() {
            Some(t) => t,
            None => return Err(BindError::Message(String::from_str("Empty table ref"))),
        };
        let ghost t = *table_ref;
        let ghost items = projection@;
        let mut select_list: Vec<BoundExpression> = Vec::new();
        let mut is_select_star = false;
        let mut has_agg_flag = false;
        let mut has_window_flag = false;
        let mut i: usize = 0;
        while i < projection.len()
            invariant
                0 <= i <= items.len(),
                items == projection@,
                self.bound_table() == Some(t),
                *table_ref == t,
                items_wf(items),
                !has_agg_flag && !has_window_flag,
                projection_state(t, items.take(i as int)) == Ok::<(nat, bool), ProjectionError>((select_list@.len(), is_select_star)),
                projection_list(t, items.take(i as int), is_select_star, select_list@),
            decreases items.len() - i,
        {
            proof {
                assert(items.take(i + 1).drop_last() =~= items.take(i as int));
                assert(items.take(i + 1).last() == items[i as int]);
            }
            match &projection[i] {
                SqlSelectItem::UnnamedExpr(e) => {
                    assert(items[i as int] matches SqlSelectItem::UnnamedExpr(x) ==> sql_expr_wf(x));
                    let x = match self.bind_expression(e) {
                        Ok(x) => x,
                        Err(err) => {
                            proof {
                                lemma_projection_error_stays(t, items, i + 1);
                            }
                            return Err(err);
                        },
                    };
                    if is_select_star {
                        proof {
                            lemma_projection_error_stays(t, items, i + 1);
                        }
                        return Err(BindError::Message(String::from_str("select * cannot have other expressions in list")));
                    }
                    proof {
                        lemma_bound_plain(Some(t), *e, x);
                    }
                    if x.has_aggregation() {
                        has_agg_flag = true;
                    }
                    if x.has_window_function() {
                        has_window_flag = true;
                    }
                    let ghost before = select_list@;
                    select_list.push(x);
                    proof {
                        let it = items.take(i + 1);
                        assert forall|k: int| 0 <= k < it.len() implies (#[trigger] it[k] matches SqlSelectItem::UnnamedExpr(y)
                            && binds(Some(t), y, Ok(select_list@[k]))) by {
                            if k < i {
                                assert(it[k] == items.take(i as int)[k]);
                                assert(select_list@[k] == before[k]);
                            }
                        }
                    }
                },
                SqlSelectItem::Wildcard => {
                    if select_list.len() > 0 {
                        proof {
                            lemma_projection_error_stays(t, items, i + 1);
                        }
                        return Err(BindError::Message(String::from_str("select * cannot have other expressions in list")));
                    }
                    select_list = match Self::get_all_columns(table_ref) {
                        Ok(v) => v,
                        Err(err) => {
                            proof {
                                lemma_projection_error_stays(t, items, i + 1);
                            }
                            return Err(err);
                        },
                    };
                    is_select_star = true;
                },
                SqlSelectItem::Other(x) => {
                    proof {
                        lemma_projection_error_stays(t, items, i + 1);
                    }
                    return Err(BindError::UnsupportedExpr(x.clone()));
                },
            }
            i += 1;
        }
        assert(items.take(i as int) =~= items);
        if has_window_flag && has_agg_flag {
            return Err(BindError::Message(String::from_str("cannot have both normal agg and window agg in same query")));
        }
        Ok(select_list)
    }
}

impl<'cat> Binder<'cat> {
    /// Binds a query: a SELECT's FROM and list, or VALUES rows.
    pub fn bind_query(&mut self, query: &SqlQuery) -> (r: Result<SelectStatement, BindError>)
        requires
            old(self).bound_table() is Some ==> query_wf(*query),
        ensures
            *final(self) == *old(self),
            query_binding(old(self).bound_table(), old(self).catalog(), *query, r),
            r is Ok <==> query_ok(old(self).bound_table(), old(self).catalog(), *query),
    {
        proof {
            reveal_strlit("Query with WITH is not supported yet");
            reveal_strlit("Select with ORDER BY is not supported yet.");
            reveal_strlit("Select with LIMIT is not supported yet.");
            reveal_strlit("unsupoorted query body: ");
        }
        if query.has_with {
            return Err(BindError::UnsupportedYetSQL(String::from_str("Query with WITH is not supported yet")));
        }
        if query.has_order_by {
            return Err(BindError::UnsupportedYetSQL(String::from_str("Select with ORDER BY is not supported yet.")));
        }
        if query.has_limit {
            return Err(BindError::UnsupportedYetSQL(String::from_str("Select with LIMIT is not supported yet.")));
        }
        let (table, select_list) = match &query.body {
            SqlSetExpr::Select(sel) => {
                let table = match self.bind_from(&sel.from) {
                    Ok(t) => t,
                    Err(e) => return Err(e),
                };
                let list = match self.bind_select_projection(&sel.projection) {
                    Ok(l) => l,
                    Err(e) => return Err(e),
                };
                (table, list)
            },
            SqlSetExpr::Values(values) => {
                let table = match self.bind_values_list(values) {
                    Ok(t) => t,
                    Err(e) => return Err(e),
                };
                (table, Vec::new())
            },
            SqlSetExpr::Other(d) => {
                let mut m = String::from_str("unsupoorted query body: ");
                m.append(d.as_str());
                return Err(BindError::UnsupportedYetSQL(m));
            },
        };
        Ok(SelectStatement {
            table: Box::new(table),
            select_list,
            where_clause: None,
            group_by: Vec::new(),
            having: None,
            limit_count: None,
            limit_offset: None,
            sort: Vec::new(),
            ctes: Vec::new(),
            is_distinct: false,
        })
    }

    /// Binds INSERT: the table it names and the query giving its rows.
    pub fn bind_insert(&mut self, insert: &SqlInsert) -> (r: Result<InsertStatement, BindError>)
        requires
            old(self).bound_table() is Some ==> match insert.source {
                Some(q) => query_wf(*q),
                None => true,
            },
        ensures
            *final(self) == *old(self),
            insert_binding(old(self).bound_table(), old(self).catalog(), *insert, r),
    {
        proof {
            reveal_strlit("insert should provide values");
        }
        let table_name = match &insert.table {
            SqlTableObject::TableName(name) => match Self::extract_object_name(name) {
                Ok(n) => n,
                Err(e) => return Err(e),
            },
            SqlTableObject::Other(x) => return Err(BindError::UnsupportedJoinType(x.clone())),
        };
        let source = match &insert.source {
            Some(q) => q,
            None => return Err(BindError::Message(String::from_str("insert should provide values"))),
        };
        let select = match self.bind_query(source) {
            Ok(s) => s,
            Err(e) => return Err(e),
        };
        let table = match self.bind_base_table_ref(table_name, None) {
            Ok(b) => b,
            Err(e) => return Err(e),
        };
        Ok(InsertStatement { table, select })
    }

    /// Binds a parsed statement: a query, CREATE TABLE or INSERT.
    pub fn bind_statement(&mut self, stmt: &SqlStatement) -> (r: Result<BoundStatement, BindError>)
        requires
            statement_wf(old(self).bound_table(), *stmt),
        ensures
            *final(self) == *old(self),
            statement_binding(old(self).bound_table(), old(self).catalog(), *stmt, r),
    {
        match stmt {
            SqlStatement::Query(query) => match self.bind_query(query) {
                Ok(s) => Ok(BoundStatement::Select(s)),
                Err(e) => Err(e),
            },
            SqlStatement::CreateTable(ct) => match self.bind_create(ct) {
                Ok(c) => Ok(BoundStatement::Create(c)),
                Err(e) => Err(e),
            },
            SqlStatement::Insert(insert) => match self.bind_insert(insert) {
                Ok(i) => Ok(BoundStatement::Insert(i)),
                Err(e) => Err(e),
            },
            SqlStatement::Other(x) => Err(BindError::UnsupportedStatement(x.clone())),
        }
    }
}

impl<'cat> Binder<'cat> {
    /// A fresh identifier for an unnamed item.
    fn next_id(&mut self) -> (r: u64)
        requires
            old(self).next_universal_id() < u64::MAX,
        ensures
            r == old(self).next_universal_id(),
            final(self).next_universal_id() == r + 1,
            final(self).catalog() == old(self).catalog(),
            final(self).table_stack() == old(self).table_stack(),
    {
        proof {
            use_type_invariant(&*self);
        }
        let id = self.universal_id;
        self.universal_id = id + 1;
        id
    }

    /// Makes `table_ref` the bound table reference, keeping the previous one below it.
    fn push_table_ref(&mut self, table_ref: TableRef)
        ensures
            final(self).table_stack() == old(self).table_stack().push(table_ref),
            final(self).catalog() == old(self).catalog(),
            final(self).next_universal_id() == old(self).next_universal_id(),
    {
        proof {
            use_type_invariant(&*self);
        }
        let mut slot = Some(table_ref);
        core::mem::swap(&mut slot, &mut self.bound_table_ref);
        if let Some(t) = slot {
            let mut all: Vec<TableRef> = Vec::new();
            core::mem::swap(&mut all, &mut self.all_table_ref);
            all.push(t);
            core::mem::swap(&mut all, &mut self.all_table_ref);
        }
    }

    /// Removes the bound table reference, making the one below it bound.
    fn pop_table_ref(&mut self) -> (r: Option<TableRef>)
        ensures
            old(self).table_stack().len() == 0 ==> r is None && final(self).table_stack() == old(self).table_stack(),
            old(self).table_stack().len() > 0 ==> r == Some(old(self).table_stack().last())
                && final(self).table_stack() == old(self).table_stack().drop_last(),
            final(self).catalog() == old(self).catalog(),
            final(self).next_universal_id() == old(self).next_universal_id(),
    {
        proof {
            use_type_invariant(&*self);
        }
        if self.bound_table_ref.is_none() {
            return None;
        }
        let mut all: Vec<TableRef> = Vec::new();
        core::mem::swap(&mut all, &mut self.all_table_ref);
        let mut next = all.pop();
        core::mem::swap(&mut all, &mut self.all_table_ref);
        core::mem::swap(&mut next, &mut self.bound_table_ref);
        proof {
            assert(self.table_stack() =~= old(self).table_stack().drop_last());
        }
        next
    }
}

/// Whether some column definition of `cols` is named `n`.
pub open spec fn defines(cols: Seq<SqlColumnDef>, n: Seq<char>) -> bool {
    exists|j: int| 0 <= j < cols.len() && #[trigger] cols[j].name@ == n
}

/// Every primary key name is the name of a column definition, and there
/// are no more of them than definitions.
pub proof fn lemma_primary_keys_named(cols: Seq<SqlColumnDef>)
    ensures
        primary_key_names(cols).len() <= cols.len(),
        forall|k: int| 0 <= k < primary_key_names(cols).len() ==> defines(cols, #[trigger] primary_key_names(cols)[k]),
    decreases cols.len(),
{
    if cols.len() > 0 {
        let rest = cols.drop_last();
        lemma_primary_keys_named(rest);
        let p = primary_key_names(cols);
        assert forall|k: int| 0 <= k < p.len() implies defines(cols, #[trigger] p[k]) by {
            if k < primary_key_names(rest).len() {
                assert(defines(rest, primary_key_names(rest)[k]));
                let j = choose|j: int| 0 <= j < rest.len() && #[trigger] rest[j].name@ == primary_key_names(rest)[k];
                assert(cols[j] == rest[j]);
            } else {
                assert(cols[cols.len() - 1].name@ == p[k]);
            }
        }
    }
}

/// With no table reference bound, whether a query binds does not depend on the catalog.
pub proof fn lemma_unbound_query_ok(a: Catalog, b: Catalog, q: SqlQuery)
    ensures
        query_ok(None, a, q) == query_ok(None, b, q),
{
}

/// A query that binds is one that binds without error.
pub proof fn lemma_query_bound_ok(t: Option<TableRef>, cat: Catalog, q: SqlQuery, s: SelectStatement)
    requires
        query_binding(t, cat, q, Ok(s)),
    ensures
        query_ok(t, cat, q),
{
}

/// Each SQL integer type binds to the BusTub integer type of its own width,
/// and booleans, decimals and timestamps to theirs: `BIGINT` (and its
/// spellings `INT8`, `INT64`, unsigned ones) to an 8-byte BIGINT; `INT`,
/// `INTEGER` (`INT4`, `INT32`, `SIGNED`, ...) to a 4-byte INTEGER; `SMALLINT`
/// (`INT2`, ...) to a 2-byte SMALLINT; `TINYINT` to a 1-byte TINYINT; so SQL
/// types of different widths never bind to the same type.
pub proof fn law_types_keep_their_width(d: SqlColumnDef)
    ensures
        (d.data_type is BigInt || d.data_type is BigIntUnsigned || d.data_type is UBigInt || d.data_type is Int8
            || d.data_type is Int8Unsigned || d.data_type is Int64) ==> column_def_binding(d) == Some(
            ColumnView { name: d.name@, type_id: TypeId::BigInt, length: 8, offset: 0 },
        ),
        (d.data_type is Int || d.data_type is Integer || d.data_type is Int4 || d.data_type is IntUnsigned
            || d.data_type is Int4Unsigned || d.data_type is IntegerUnsigned || d.data_type is Int32
            || d.data_type is Signed || d.data_type is SignedInteger) ==> column_def_binding(d) == Some(
            ColumnView { name: d.name@, type_id: TypeId::Integer, length: 4, offset: 0 },
        ),
        (d.data_type is SmallInt || d.data_type is SmallIntUnsigned || d.data_type is USmallInt
            || d.data_type is Int2 || d.data_type is Int2Unsigned) ==> column_def_binding(d) == Some(
            ColumnView { name: d.name@, type_id: TypeId::SmallInt, length: 2, offset: 0 },
        ),
        (d.data_type is TinyInt || d.data_type is TinyIntUnsigned || d.data_type is UTinyInt)
            ==> column_def_binding(d) == Some(ColumnView { name: d.name@, type_id: TypeId::TinyInt, length: 1, offset: 0 }),
        (d.data_type is Bool || d.data_type is Boolean) ==> column_def_binding(d) == Some(
            ColumnView { name: d.name@, type_id: TypeId::Boolean, length: 1, offset: 0 },
        ),
        (d.data_type is Timestamp || d.data_type is Date || d.data_type is Datetime) ==> column_def_binding(d)
            == Some(ColumnView { name: d.name@, type_id: TypeId::Timestamp, length: 8, offset: 0 }),
        (d.data_type is Decimal || d.data_type is Dec || d.data_type is Numeric || d.data_type is Float
            || d.data_type is Float4 || d.data_type is Float8 || d.data_type is Float32 || d.data_type is Float64
            || d.data_type is Real || d.data_type is Double || d.data_type is DoublePrecision)
            ==> column_def_binding(d) == Some(
            ColumnView { name: d.name@, type_id: TypeId::Decimal, length: 8, offset: 0 },
        ),
        d.data_type is Other <==> column_def_binding(d) is None,
{
}

/// A character column (`VARCHAR(n)`, `CHAR(n)`, `CHARACTER VARYING(n)`,
/// `NVARCHAR(n)`, ...) binds to a VARCHAR of length `n`, and of length 128
/// when no length is given.
pub proof fn law_character_types_keep_their_length(d: SqlColumnDef, l: Option<u64>)
    requires
        d.data_type == SqlDataType::Varchar(l) || d.data_type == SqlDataType::Char(l) || d.data_type
            == SqlDataType::Character(l) || d.data_type == SqlDataType::CharacterVarying(l) || d.data_type
            == SqlDataType::CharVarying(l) || d.data_type == SqlDataType::Nvarchar(l),
        l matches Some(n) ==> n <= u32::MAX,
    ensures
        column_def_binding(d) == Some(
            ColumnView {
                name: d.name@,
                type_id: TypeId::Varchar,
                length: match l {
                    Some(n) => n as nat,
                    None => 128,
                },
                offset: 0,
            },
        ),
{
}

/// A bound CREATE TABLE keeps each column's SQL width: a `BIGINT` (`INT8`,
/// `INT64`, ...) column becomes an 8-byte BIGINT, an `INT` (`INTEGER`, ...)
/// column a 4-byte INTEGER, a `SMALLINT` one a 2-byte SMALLINT and a
/// `TINYINT` one a 1-byte TINYINT, under the name it was declared with.
pub proof fn law_created_columns_keep_their_width(stmt: SqlCreateTable, c: CreateStatement, i: int)
    requires
        create_binding(stmt, Ok(c)),
        0 <= i < stmt.columns@.len(),
    ensures
        c.columns@.len() == stmt.columns@.len(),
        c.columns@[i]@.name == stmt.columns@[i].name@,
        (stmt.columns@[i].data_type is BigInt || stmt.columns@[i].data_type is Int8
            || stmt.columns@[i].data_type is Int64) ==> c.columns@[i]@.type_id == TypeId::BigInt
            && c.columns@[i]@.length == 8,
        (stmt.columns@[i].data_type is Int || stmt.columns@[i].data_type is Integer
            || stmt.columns@[i].data_type is Int4 || stmt.columns@[i].data_type is Int32)
            ==> c.columns@[i]@.type_id == TypeId::Integer && c.columns@[i]@.length == 4,
        (stmt.columns@[i].data_type is SmallInt || stmt.columns@[i].data_type is Int2)
            ==> c.columns@[i]@.type_id == TypeId::SmallInt && c.columns@[i]@.length == 2,
        stmt.columns@[i].data_type is TinyInt ==> c.columns@[i]@.type_id == TypeId::TinyInt
            && c.columns@[i]@.length == 1,
{
    let cols = stmt.columns@;
    assert(column_views(c.columns@).len() == c.columns@.len());
    assert(column_views(c.columns@)[i] == c.columns@[i]@);
    law_types_keep_their_width(cols[i]);
}

} // verus!
