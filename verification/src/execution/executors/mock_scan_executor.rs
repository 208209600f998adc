use rand::seq::SliceRandom;
use vstd::prelude::*;

use crate::catalog::column::{Column, ColumnView};
use crate::catalog::schema::{column_views, lemma_few_small_columns_fit, schema_of, Schema};
use crate::common::text::{decimal, push_decimal, str_eq};
use crate::common::rid::{packed_rid, RID};
use crate::execution::executor_context::ExecutorContext;
use crate::execution::plans::MockScanPlanNode;
use crate::sql_type::type_id::TypeId;
use crate::sql_type::value::{Datum, Value, ValueView};
use crate::storage::tuple::Tuple;

verus! {

/// The TAs of 2022.
pub open spec fn ta_list_2022() -> Seq<Seq<char>> {
    seq!["amstqq"@, "durovo"@, "joyceliaoo"@, "karthik-ramanathan-3006"@, "kush789"@, "lmwnshn"@, "mkpjnx"@, "skyzh"@, "thepinetree"@, "timlee0119"@, "yliang412"@]
}

/// Entry `i` of `ta_list_2022`.
fn ta_list_2022_at(i: usize) -> (r: &'static str)
    requires
        i < 11,
    ensures
        r@ == ta_list_2022()[i as int],
{
    match i {
        0 => "amstqq",
        1 => "durovo",
        2 => "joyceliaoo",
        3 => "karthik-ramanathan-3006",
        4 => "kush789",
        5 => "lmwnshn",
        6 => "mkpjnx",
        7 => "skyzh",
        8 => "thepinetree",
        9 => "timlee0119",
        _ => "yliang412",
    }
}

/// The TAs of 2023.
pub open spec fn ta_list_2023() -> Seq<Seq<char>> {
    seq!["abigalekim"@, "arvinwu168"@, "christopherlim98"@, "David-Lyons"@, "fanyuex2"@, "Mayank-Baranwal"@, "skyzh"@, "yarkhinephyo"@, "yliang412"@]
}

/// Entry `i` of `ta_list_2023`.
fn ta_list_2023_at(i: usize) -> (r: &'static str)
    requires
        i < 9,
    ensures
        r@ == ta_list_2023()[i as int],
{
    match i {
        0 => "abigalekim",
        1 => "arvinwu168",
        2 => "christopherlim98",
        3 => "David-Lyons",
        4 => "fanyuex2",
        5 => "Mayank-Baranwal",
        6 => "skyzh",
        7 => "yarkhinephyo",
        _ => "yliang412",
    }
}

/// The TAs of 2023 fall.
pub open spec fn ta_list_2023_fall() -> Seq<Seq<char>> {
    seq!["skyzh"@, "yliang412"@, "fernandolis10"@, "wiam8"@, "anurag-23"@, "Mayank-Baranwal"@, "abigalekim"@, "ChaosZhai"@, "aoleizhou"@, "averyqi115"@, "kswim8"@]
}

/// Entry `i` of `ta_list_2023_fall`.
fn ta_list_2023_fall_at(i: usize) -> (r: &'static str)
    requires
        i < 11,
    ensures
        r@ == ta_list_2023_fall()[i as int],
{
    match i {
        0 => "skyzh",
        1 => "yliang412",
        2 => "fernandolis10",
        3 => "wiam8",
        4 => "anurag-23",
        5 => "Mayank-Baranwal",
        6 => "abigalekim",
        7 => "ChaosZhai",
        8 => "aoleizhou",
        9 => "averyqi115",
        _ => "kswim8",
    }
}

/// The TAs of 2024.
pub open spec fn ta_list_2024() -> Seq<Seq<char>> {
    seq!["AlSchlo"@, "walkingcabbages"@, "averyqi115"@, "lanlou1554"@, "sweetsuro"@, "ChaosZhai"@, "SDTheSlayer"@, "xx01cyx"@, "yliang412"@, "thelongmarch-azx"@]
}

/// Entry `i` of `ta_list_2024`.
fn ta_list_2024_at(i: usize) -> (r: &'static str)
    requires
        i < 10,
    ensures
        r@ == ta_list_2024()[i as int],
{
    match i {
        0 => "AlSchlo",
        1 => "walkingcabbages",
        2 => "averyqi115",
        3 => "lanlou1554",
        4 => "sweetsuro",
        5 => "ChaosZhai",
        6 => "SDTheSlayer",
        7 => "xx01cyx",
        8 => "yliang412",
        _ => "thelongmarch-azx",
    }
}

/// The TAs of 2024 fall.
pub open spec fn ta_list_2024_fall() -> Seq<Seq<char>> {
    seq!["17zhangw"@, "connortsui20"@, "J-HowHuang"@, "lanlou1554"@, "prashanthduvvada"@, "unw9527"@, "xx01cyx"@, "yashkothari42"@]
}

/// Entry `i` of `ta_list_2024_fall`.
fn ta_list_2024_fall_at(i: usize) -> (r: &'static str)
    requires
        i < 8,
    ensures
        r@ == ta_list_2024_fall()[i as int],
{
    match i {
        0 => "17zhangw",
        1 => "connortsui20",
        2 => "J-HowHuang",
        3 => "lanlou1554",
        4 => "prashanthduvvada",
        5 => "unw9527",
        6 => "xx01cyx",
        _ => "yashkothari42",
    }
}

/// The office hours of the TAs of 2022.
pub open spec fn ta_oh_2022() -> Seq<Seq<char>> {
    seq!["Tuesday"@, "Wednesday"@, "Monday"@, "Wednesday"@, "Thursday"@, "Friday"@, "Wednesday"@, "Randomly"@, "Tuesday"@, "Monday"@, "Tuesday"@]
}

/// Entry `i` of `ta_oh_2022`.
fn ta_oh_2022_at(i: usize) -> (r: &'static str)
    requires
        i < 11,
    ensures
        r@ == ta_oh_2022()[i as int],
{
    match i {
        0 => "Tuesday",
        1 => "Wednesday",
        2 => "Monday",
        3 => "Wednesday",
        4 => "Thursday",
        5 => "Friday",
        6 => "Wednesday",
        7 => "Randomly",
        8 => "Tuesday",
        9 => "Monday",
        _ => "Tuesday",
    }
}

/// The office hours of the TAs of 2023.
pub open spec fn ta_oh_2023() -> Seq<Seq<char>> {
    seq!["Friday"@, "Thursday"@, "Tuesday"@, "Monday"@, "Tuesday"@, "Tuesday"@, "Randomly"@, "Wednesday"@, "Thursday"@]
}

/// Entry `i` of `ta_oh_2023`.
fn ta_oh_2023_at(i: usize) -> (r: &'static str)
    requires
        i < 9,
    ensures
        r@ == ta_oh_2023()[i as int],
{
    match i {
        0 => "Friday",
        1 => "Thursday",
        2 => "Tuesday",
        3 => "Monday",
        4 => "Tuesday",
        5 => "Tuesday",
        6 => "Randomly",
        7 => "Wednesday",
        _ => "Thursday",
    }
}

/// The office hours of the TAs of 2023 fall.
pub open spec fn ta_oh_2023_fall() -> Seq<Seq<char>> {
    seq!["Randomly"@, "Tuesday"@, "Wednesday"@, "Tuesday"@, "Thursday"@, "Tuesday"@, "Friday"@, "Yesterday"@, "Friday"@, "Friday"@, "Never"@]
}

/// Entry `i` of `ta_oh_2023_fall`.
fn ta_oh_2023_fall_at(i: usize) -> (r: &'static str)
    requires
        i < 11,
    ensures
        r@ == ta_oh_2023_fall()[i as int],
{
    match i {
        0 => "Randomly",
        1 => "Tuesday",
        2 => "Wednesday",
        3 => "Tuesday",
        4 => "Thursday",
        5 => "Tuesday",
        6 => "Friday",
        7 => "Yesterday",
        8 => "Friday",
        9 => "Friday",
        _ => "Never",
    }
}

/// The office hours of the TAs of 2024.
pub open spec fn ta_oh_2024() -> Seq<Seq<char>> {
    seq!["Friday"@, "Thursday"@, "Friday"@, "Wednesday"@, "Thursday"@, "Yesterday"@, "Monday"@, "Tuesday"@, "Tuesday"@, "Monday"@]
}

/// Entry `i` of `ta_oh_2024`.
fn ta_oh_2024_at(i: usize) -> (r: &'static str)
    requires
        i < 10,
    ensures
        r@ == ta_oh_2024()[i as int],
{
    match i {
        0 => "Friday",
        1 => "Thursday",
        2 => "Friday",
        3 => "Wednesday",
        4 => "Thursday",
        5 => "Yesterday",
        6 => "Monday",
        7 => "Tuesday",
        8 => "Tuesday",
        _ => "Monday",
    }
}

/// The office hours of the TAs of 2024 fall.
pub open spec fn ta_oh_2024_fall() -> Seq<Seq<char>> {
    seq!["Wednesday"@, "Thursday"@, "Tuesday"@, "Monday"@, "Friday"@, "Thursday"@, "Tuesday"@, "Friday"@]
}

/// Entry `i` of `ta_oh_2024_fall`.
fn ta_oh_2024_fall_at(i: usize) -> (r: &'static str)
    requires
        i < 8,
    ensures
        r@ == ta_oh_2024_fall()[i as int],
{
    match i {
        0 => "Wednesday",
        1 => "Thursday",
        2 => "Tuesday",
        3 => "Monday",
        4 => "Friday",
        5 => "Thursday",
        6 => "Tuesday",
        _ => "Friday",
    }
}

/// The days of the week.
pub open spec fn course_on_date() -> Seq<Seq<char>> {
    seq!["Monday"@, "Tuesday"@, "Wednesday"@, "Thursday"@, "Friday"@, "Saturday"@, "Sunday"@]
}

/// Entry `i` of `course_on_date`.
fn course_on_date_at(i: usize) -> (r: &'static str)
    requires
        i < 7,
    ensures
        r@ == course_on_date()[i as int],
{
    match i {
        0 => "Monday",
        1 => "Tuesday",
        2 => "Wednesday",
        3 => "Thursday",
        4 => "Friday",
        5 => "Saturday",
        _ => "Sunday",
    }
}

/// Every mock table.
pub open spec fn mock_tables() -> Seq<Seq<char>> {
    seq![
        "__mock_table_1"@, "__mock_table_2"@, "__mock_table_3"@, "__mock_table_tas_2022"@,
        "__mock_table_tas_2023"@, "__mock_table_tas_2023_fall"@, "__mock_table_tas_2024"@,
        "__mock_table_tas_2024_fall"@, "__mock_agg_input_small"@, "__mock_agg_input_big"@,
        "__mock_external_merge_sort_input"@, "__mock_table_schedule_2022"@,
        "__mock_table_schedule"@, "__mock_table_123"@, "__mock_graph"@, "__mock_t1"@,
        "__mock_t4_1m"@, "__mock_t5_1m"@, "__mock_t6_1m"@, "__mock_t7"@, "__mock_t8"@,
        "__mock_t9"@, "__mock_t10"@, "__mock_t11"@,
    ]
}

/// The names of every mock table.
pub fn mock_table_list() -> (r: Vec<&'static str>)
    ensures
        r@.map_values(|s: &str| s@) == mock_tables(),
{
    let r = vec![
        "__mock_table_1", "__mock_table_2", "__mock_table_3", "__mock_table_tas_2022",
        "__mock_table_tas_2023", "__mock_table_tas_2023_fall", "__mock_table_tas_2024",
        "__mock_table_tas_2024_fall", "__mock_agg_input_small", "__mock_agg_input_big",
        "__mock_external_merge_sort_input", "__mock_table_schedule_2022",
        "__mock_table_schedule", "__mock_table_123", "__mock_graph", "__mock_t1",
        "__mock_t4_1m", "__mock_t5_1m", "__mock_t6_1m", "__mock_t7", "__mock_t8",
        "__mock_t9", "__mock_t10", "__mock_t11",
    ];
    assert(r@.map_values(|s: &str| s@) =~= mock_tables());
    r
}

/// An INTEGER column named `name`.
pub open spec fn int_column(name: Seq<char>) -> ColumnView {
    ColumnView { name, type_id: TypeId::Integer, length: 4, offset: 0 }
}

/// A VARCHAR(128) column named `name`.
pub open spec fn varchar_column(name: Seq<char>) -> ColumnView {
    ColumnView { name, type_id: TypeId::Varchar, length: 128, offset: 0 }
}

/// The columns of the mock table `table`, or `None` if there is no such table.
pub open spec fn mock_columns(table: Seq<char>) -> Option<Seq<ColumnView>> {
    if table == "__mock_table_1"@ {
        Some(seq![int_column("colA"@), int_column("colB"@)])
    } else if table == "__mock_table_2"@ {
        Some(seq![varchar_column("colC"@), varchar_column("colD"@)])
    } else if table == "__mock_table_3"@ {
        Some(seq![int_column("colE"@), varchar_column("colF"@)])
    } else if table == "__mock_table_tas_2022"@ || table == "__mock_table_tas_2023"@ || table == "__mock_table_tas_2023_fall"@ || table == "__mock_table_tas_2024"@ || table == "__mock_table_tas_2024_fall"@ {
        Some(seq![varchar_column("github_id"@), varchar_column("office_hour"@)])
    } else if table == "__mock_table_schedule_2022"@ || table == "__mock_table_schedule"@ {
        Some(seq![varchar_column("day_of_week"@), int_column("has_lecture"@)])
    } else if table == "__mock_agg_input_small"@ || table == "__mock_agg_input_big"@ {
        Some(seq![int_column("v1"@), int_column("v2"@), int_column("v3"@), int_column("v4"@), int_column("v5"@), varchar_column("v6"@)])
    } else if table == "__mock_external_merge_sort_input"@ {
        Some(seq![int_column("v1"@), int_column("v2"@), int_column("v3"@)])
    } else if table == "__mock_graph"@ {
        Some(seq![int_column("src"@), int_column("dst"@), int_column("src_label"@), int_column("dst_label"@), int_column("distance"@)])
    } else if table == "__mock_table_123"@ {
        Some(seq![int_column("number"@)])
    } else if table == "__mock_t4_1m"@ || table == "__mock_t5_1m"@ || table == "__mock_t6_1m"@ {
        Some(seq![int_column("x"@), int_column("y"@)])
    } else if table == "__mock_t1"@ {
        Some(seq![int_column("x"@), int_column("y"@), int_column("z"@)])
    } else if table == "__mock_t7"@ {
        Some(seq![int_column("v"@), int_column("v1"@), int_column("v2"@)])
    } else if table == "__mock_t8"@ {
        Some(seq![int_column("v4"@)])
    } else if table == "__mock_t9"@ {
        Some(seq![int_column("x"@), int_column("y"@)])
    } else if table == "__mock_t10"@ || table == "__mock_t11"@ {
        Some(seq![int_column("x"@), int_column("y"@)])
    } else {
        None
    }
}

fn int_col(name: &str) -> (r: Column)
    ensures
        r@ == int_column(name@),
{
    Column::new(String::from_str(name), TypeId::Integer)
}

fn varchar_col(name: &str) -> (r: Column)
    ensures
        r@ == varchar_column(name@),
{
    Column::new_with_length(String::from_str(name), TypeId::Varchar, 128)
}

/// The schema of the columns `cols`, of which there are few.
fn small_schema(cols: Vec<Column>) -> (r: Schema)
    requires
        cols@.len() <= 8,
    ensures
        r@ == schema_of(column_views(cols@)),
{
    let mut i: usize = 0;
    while i < cols.len()
        invariant
            0 <= i <= cols@.len(),
            cols@.len() <= 8,
            forall|j: int| 0 <= j < i ==> #[trigger] column_views(cols@)[j].type_id != TypeId::Varchar ==> column_views(cols@)[j].length <= 8,
        decreases cols@.len() - i,
    {
        let c = &cols[i];
        proof {
            use_type_invariant(c);
            assert(column_views(cols@)[i as int] == cols@[i as int]@);
        }
        i += 1;
    }
    proof {
        lemma_few_small_columns_fit(column_views(cols@));
    }
    Schema::new(cols)
}

/// Return the schema for the given mock table name.
pub fn get_mock_table_schema_of(table: &str) -> (r: Result<Schema, String>)
    ensures
        match mock_columns(table@) {
            Some(cols) => r matches Ok(s) && s@ == schema_of(cols),
            None => r matches Err(m) && m@ == "mock table "@ + table@ + " not found"@,
        },
{
    let mut cols: Vec<Column> = Vec::new();
    if str_eq(table, "__mock_table_1") {
        cols.push(int_col("colA"));
        cols.push(int_col("colB"));
    } else if str_eq(table, "__mock_table_2") {
        cols.push(varchar_col("colC"));
        cols.push(varchar_col("colD"));
    } else if str_eq(table, "__mock_table_3") {
        cols.push(int_col("colE"));
        cols.push(varchar_col("colF"));
    } else if str_eq(table, "__mock_table_tas_2022") || str_eq(table, "__mock_table_tas_2023") || str_eq(table, "__mock_table_tas_2023_fall") || str_eq(table, "__mock_table_tas_2024") || str_eq(table, "__mock_table_tas_2024_fall") {
        cols.push(varchar_col("github_id"));
        cols.push(varchar_col("office_hour"));
    } else if str_eq(table, "__mock_table_schedule_2022") || str_eq(table, "__mock_table_schedule") {
        cols.push(varchar_col("day_of_week"));
        cols.push(int_col("has_lecture"));
    } else if str_eq(table, "__mock_agg_input_small") || str_eq(table, "__mock_agg_input_big") {
        cols.push(int_col("v1"));
        cols.push(int_col("v2"));
        cols.push(int_col("v3"));
        cols.push(int_col("v4"));
        cols.push(int_col("v5"));
        cols.push(varchar_col("v6"));
    } else if str_eq(table, "__mock_external_merge_sort_input") {
        cols.push(int_col("v1"));
        cols.push(int_col("v2"));
        cols.push(int_col("v3"));
    } else if str_eq(table, "__mock_graph") {
        cols.push(int_col("src"));
        cols.push(int_col("dst"));
        cols.push(int_col("src_label"));
        cols.push(int_col("dst_label"));
        cols.push(int_col("distance"));
    } else if str_eq(table, "__mock_table_123") {
        cols.push(int_col("number"));
    } else if str_eq(table, "__mock_t4_1m") || str_eq(table, "__mock_t5_1m") || str_eq(table, "__mock_t6_1m") {
        cols.push(int_col("x"));
        cols.push(int_col("y"));
    } else if str_eq(table, "__mock_t1") {
        cols.push(int_col("x"));
        cols.push(int_col("y"));
        cols.push(int_col("z"));
    } else if str_eq(table, "__mock_t7") {
        cols.push(int_col("v"));
        cols.push(int_col("v1"));
        cols.push(int_col("v2"));
    } else if str_eq(table, "__mock_t8") {
        cols.push(int_col("v4"));
    } else if str_eq(table, "__mock_t9") {
        cols.push(int_col("x"));
        cols.push(int_col("y"));
    } else if str_eq(table, "__mock_t10") || str_eq(table, "__mock_t11") {
        cols.push(int_col("x"));
        cols.push(int_col("y"));
    } else {
        let mut m = String::from_str("mock table ");
        m.append(table);
        m.append(" not found");
        return Err(m);
    }
    proof {
        assert(column_views(cols@) =~= mock_columns(table@)->Some_0);
    }
    Ok(small_schema(cols))
}

/// The number of rows of the mock table `table` (none for an unknown table).
pub open spec fn mock_size(table: Seq<char>) -> nat {
    if table == "__mock_table_1"@ || table == "__mock_table_2"@ || table == "__mock_table_3"@ {
        100
    } else if table == "__mock_table_tas_2022"@ {
        11
    } else if table == "__mock_table_tas_2023"@ {
        9
    } else if table == "__mock_table_tas_2023_fall"@ {
        11
    } else if table == "__mock_table_tas_2024"@ {
        10
    } else if table == "__mock_table_tas_2024_fall"@ {
        8
    } else if table == "__mock_table_schedule_2022"@ || table == "__mock_table_schedule"@ {
        7
    } else if table == "__mock_agg_input_small"@ {
        1000
    } else if table == "__mock_agg_input_big"@ {
        10000
    } else if table == "__mock_external_merge_sort_input"@ {
        100000
    } else if table == "__mock_graph"@ {
        100
    } else if table == "__mock_table_123"@ {
        3
    } else if table == "__mock_t1"@ {
        1000000
    } else if table == "__mock_t4_1m"@ || table == "__mock_t5_1m"@ || table == "__mock_t6_1m"@ {
        1000000
    } else if table == "__mock_t7"@ {
        1000000
    } else if table == "__mock_t8"@ {
        10
    } else if table == "__mock_t9"@ {
        10000000
    } else if table == "__mock_t10"@ {
        10000
    } else if table == "__mock_t11"@ {
        1000000
    } else {
        0
    }
}

/// Return the number of rows for the given mock table plan.
fn get_size_of(plan: &MockScanPlanNode) -> (r: usize)
    ensures
        r == mock_size(plan.table@),
{
    let table = plan.table.as_str();
    if str_eq(table, "__mock_table_1") || str_eq(table, "__mock_table_2") || str_eq(table, "__mock_table_3") {
        100
    } else if str_eq(table, "__mock_table_tas_2022") {
        11
    } else if str_eq(table, "__mock_table_tas_2023") {
        9
    } else if str_eq(table, "__mock_table_tas_2023_fall") {
        11
    } else if str_eq(table, "__mock_table_tas_2024") {
        10
    } else if str_eq(table, "__mock_table_tas_2024_fall") {
        8
    } else if str_eq(table, "__mock_table_schedule_2022") || str_eq(table, "__mock_table_schedule") {
        7
    } else if str_eq(table, "__mock_agg_input_small") {
        1000
    } else if str_eq(table, "__mock_agg_input_big") {
        10000
    } else if str_eq(table, "__mock_external_merge_sort_input") {
        100000
    } else if str_eq(table, "__mock_graph") {
        100
    } else if str_eq(table, "__mock_table_123") {
        3
    } else if str_eq(table, "__mock_t1") {
        1000000
    } else if str_eq(table, "__mock_t4_1m") || str_eq(table, "__mock_t5_1m") || str_eq(table, "__mock_t6_1m") {
        1000000
    } else if str_eq(table, "__mock_t7") {
        1000000
    } else if str_eq(table, "__mock_t8") {
        10
    } else if str_eq(table, "__mock_t9") {
        10000000
    } else if str_eq(table, "__mock_t10") {
        10000
    } else if str_eq(table, "__mock_t11") {
        1000000
    } else {
        0
    }
}

/// Whether the rows of the mock table `table` come out in shuffled order.
pub open spec fn mock_shuffled(table: Seq<char>) -> bool {
    table == "__mock_t1"@ || table == "__mock_t2_100k"@ || table == "__mock_t3_1k"@
}

/// Return whether the output of the given mock table plan should be shuffled.
fn get_shuffled(plan: &MockScanPlanNode) -> (r: bool)
    ensures
        r == mock_shuffled(plan.table@),
{
    let table = plan.table.as_str();
    str_eq(table, "__mock_t1") || str_eq(table, "__mock_t2_100k") || str_eq(table, "__mock_t3_1k")
}

/// An INTEGER value.
pub open spec fn iv(i: int) -> ValueView {
    ValueView { type_id: TypeId::Integer, datum: Datum::Int(i) }
}

/// A VARCHAR value.
pub open spec fn sv(s: Seq<char>) -> ValueView {
    ValueView { type_id: TypeId::Varchar, datum: Datum::Str(s) }
}

/// The INTEGER null.
pub open spec fn null_int() -> ValueView {
    ValueView { type_id: TypeId::Integer, datum: Datum::Null }
}

/// `s` repeated `n` times.
pub open spec fn repeat(s: Seq<char>, n: nat) -> Seq<char>
    decreases n,
{
    if n == 0 {
        Seq::empty()
    } else {
        repeat(s, (n - 1) as nat) + s
    }
}

/// The zero of a type, as `Value::zero` makes it.
pub open spec fn zero_view(t: TypeId) -> ValueView {
    ValueView {
        type_id: t,
        datum: match t {
            TypeId::Varchar => Datum::Str(Seq::empty()),
            TypeId::Decimal => Datum::Null,
            _ => Datum::Int(0),
        },
    }
}

/// The `y` column of `__mock_t9` at row `c`.
pub open spec fn t9_y(c: int) -> int {
    10000000 - (c / 2 + ((c / 10000) % 2) * ((c / 2) % 2))
}

/// Row `c` of the mock table `table`, whose plan outputs the columns `out`;
/// a table without rows of its own gives the zero of every column.
pub open spec fn mock_row(table: Seq<char>, c: int, out: Seq<ColumnView>) -> Seq<ValueView> {
    if table == "__mock_table_1"@ {
        seq![iv(c), iv(c * 100)]
    } else if table == "__mock_table_2"@ {
        seq![sv(decimal(c as nat) + "-\u{1F4A9}"@), sv(repeat("\u{1F607}"@, (c % 8) as nat))]
    } else if table == "__mock_table_3"@ {
        if c % 2 == 0 {
            seq![iv(c), sv(decimal(c as nat) + "-\u{1F4A9}"@)]
        } else {
            seq![null_int(), sv(decimal(c as nat) + "-\u{1F4A9}"@)]
        }
    } else if table == "__mock_table_tas_2022"@ {
        seq![sv(ta_list_2022()[c]), sv(ta_oh_2022()[c])]
    } else if table == "__mock_table_tas_2023"@ {
        seq![sv(ta_list_2023()[c]), sv(ta_oh_2023()[c])]
    } else if table == "__mock_table_tas_2023_fall"@ {
        seq![sv(ta_list_2023_fall()[c]), sv(ta_oh_2023_fall()[c])]
    } else if table == "__mock_table_tas_2024"@ {
        seq![sv(ta_list_2024()[c]), sv(ta_oh_2024()[c])]
    } else if table == "__mock_table_tas_2024_fall"@ {
        seq![sv(ta_list_2024_fall()[c]), sv(ta_oh_2024_fall()[c])]
    } else if table == "__mock_table_schedule_2022"@ {
        seq![sv(course_on_date()[c]), iv(if c == 1 || c == 3 { 1 } else { 0 })]
    } else if table == "__mock_table_schedule"@ {
        seq![sv(course_on_date()[c]), iv(if c == 0 || c == 2 { 1 } else { 0 })]
    } else if table == "__mock_agg_input_small"@ {
        seq![
            iv((c + 2) % 10),
            iv(c),
            iv((c + 50) % 100),
            iv(c / 100),
            iv(233),
            sv(repeat("\u{1F4A9}"@, (c % 8 + 1) as nat)),
        ]
    } else if table == "__mock_agg_input_big"@ {
        seq![
            iv((c + 2) % 10),
            iv(c),
            iv((c + 50) % 100),
            iv(c / 1000),
            iv(233),
            sv(repeat("\u{1F4A9}"@, (c % 16 + 1) as nat)),
        ]
    } else if table == "__mock_external_merge_sort_input"@ {
        seq![iv(c), iv((c + 1777) % 15000), iv((c + 3) % 111)]
    } else if table == "__mock_table_123"@ {
        seq![iv(c + 1)]
    } else if table == "__mock_graph"@ {
        seq![
            iv(c % 10),
            iv(c / 10),
            iv((c % 10) * 100),
            iv((c / 10) * 100),
            if c % 10 == c / 10 {
                null_int()
            } else {
                iv(1)
            },
        ]
    } else if table == "__mock_t1"@ {
        seq![iv(c / 10000), iv(c % 10000), iv(c)]
    } else if table == "__mock_t4_1m"@ {
        seq![iv(c % 500000), iv((c % 500000) * 10)]
    } else if table == "__mock_t5_1m"@ {
        seq![iv((c + 30000) % 500000), iv(((c + 30000) % 500000) * 10)]
    } else if table == "__mock_t6_1m"@ {
        seq![iv((c + 60000) % 500000), iv(((c + 60000) % 500000) * 10)]
    } else if table == "__mock_t7"@ {
        seq![iv(c % 20), iv(c), iv(c)]
    } else if table == "__mock_t8"@ {
        seq![iv(c)]
    } else if table == "__mock_t9"@ {
        seq![iv(c / 10000), iv(t9_y(c))]
    } else if table == "__mock_t10"@ {
        seq![iv(c), iv(c * 10)]
    } else if table == "__mock_t11"@ {
        seq![iv(-(c % 1000) - 1), iv(c * 10)]
    } else {
        out.map_values(|col: ColumnView| zero_view(col.type_id))
    }
}

/// `s` repeated `n` times.
fn string_repeat(s: &str, n: usize) -> (r: String)
    ensures
        r@ == repeat(s@, n as nat),
{
    let mut r = String::new();
    let mut i: usize = 0;
    while i < n
        invariant
            0 <= i <= n,
            r@ == repeat(s@, i as nat),
        decreases n - i,
    {
        r.append(s);
        i += 1;
    }
    r
}

/// The text of a row number followed by `-` and a pile of poo.
fn numbered(cursor: usize) -> (r: String)
    ensures
        r@ == decimal(cursor as nat) + "-\u{1F4A9}"@,
{
    let mut s = String::new();
    push_decimal(&mut s, cursor as u64);
    s.append("-\u{1F4A9}");
    s
}

/// A tuple of two values.
fn pair(a: Value, b: Value, plan: &MockScanPlanNode) -> (r: Tuple)
    ensures
        r@ == seq![a@, b@],
{
    let ghost va = a@;
    let ghost vb = b@;
    let values = vec![a, b];
    assert(values@.map_values(|v: Value| v@) =~= seq![va, vb]);
    Tuple::new_with_values(values, plan.output_schema_ref())
}

/// A tuple of three INTEGER values.
fn ints3(a: i32, b: i32, c: i32, plan: &MockScanPlanNode) -> (r: Tuple)
    ensures
        r@ == seq![iv(a as int), iv(b as int), iv(c as int)],
{
    let values = vec![Value::from_i32(a), Value::from_i32(b), Value::from_i32(c)];
    assert(values@.map_values(|v: Value| v@) =~= seq![iv(a as int), iv(b as int), iv(c as int)]);
    Tuple::new_with_values(values, plan.output_schema_ref())
}

/// A tuple of one INTEGER value.
fn int1(a: i32, plan: &MockScanPlanNode) -> (r: Tuple)
    ensures
        r@ == seq![iv(a as int)],
{
    let values = vec![Value::from_i32(a)];
    assert(values@.map_values(|v: Value| v@) =~= seq![iv(a as int)]);
    Tuple::new_with_values(values, plan.output_schema_ref())
}


/// Row `cursor` of the mock table that `plan` scans.
fn mock_tuple_at(plan: &MockScanPlanNode, cursor: usize) -> (r: Tuple)
    requires
        mock_size(plan.table@) > 0 ==> cursor < mock_size(plan.table@),
    ensures
        r@ == mock_row(plan.table@, cursor as int, plan.output_schema@.columns),
{
    let table = plan.table.as_str();
    if str_eq(table, "__mock_table_1") {
        pair(Value::from_i32(cursor as i32), Value::from_i32((cursor * 100) as i32), plan)
    } else if str_eq(table, "__mock_table_2") {
        let a = numbered(cursor);
        let b = string_repeat("\u{1F607}", cursor % 8);
        pair(Value::from_str(a.as_str()), Value::from_str(b.as_str()), plan)
    } else if str_eq(table, "__mock_table_3") {
        let b = numbered(cursor);
        if cursor % 2 == 0 {
            pair(Value::from_i32(cursor as i32), Value::from_str(b.as_str()), plan)
        } else {
            pair(Value::null(TypeId::Integer), Value::from_str(b.as_str()), plan)
        }
    } else if str_eq(table, "__mock_table_tas_2022") {
        pair(Value::from_str(ta_list_2022_at(cursor)), Value::from_str(ta_oh_2022_at(cursor)), plan)
    } else if str_eq(table, "__mock_table_tas_2023") {
        pair(Value::from_str(ta_list_2023_at(cursor)), Value::from_str(ta_oh_2023_at(cursor)), plan)
    } else if str_eq(table, "__mock_table_tas_2023_fall") {
        pair(
            Value::from_str(ta_list_2023_fall_at(cursor)),
            Value::from_str(ta_oh_2023_fall_at(cursor)),
            plan,
        )
    } else if str_eq(table, "__mock_table_tas_2024") {
        pair(Value::from_str(ta_list_2024_at(cursor)), Value::from_str(ta_oh_2024_at(cursor)), plan)
    } else if str_eq(table, "__mock_table_tas_2024_fall") {
        pair(
            Value::from_str(ta_list_2024_fall_at(cursor)),
            Value::from_str(ta_oh_2024_fall_at(cursor)),
            plan,
        )
    } else if str_eq(table, "__mock_table_schedule_2022") {
        let lecture: i32 = if cursor == 1 || cursor == 3 {
            1
        } else {
            0
        };
        pair(Value::from_str(course_on_date_at(cursor)), Value::from_i32(lecture), plan)
    } else if str_eq(table, "__mock_table_schedule") {
        let lecture: i32 = if cursor == 0 || cursor == 2 {
            1
        } else {
            0
        };
        pair(Value::from_str(course_on_date_at(cursor)), Value::from_i32(lecture), plan)
    } else if str_eq(table, "__mock_agg_input_small") || str_eq(table, "__mock_agg_input_big") {
        let small = str_eq(table, "__mock_agg_input_small");
        let v4 = if small {
            cursor / 100
        } else {
            cursor / 1000
        };
        let piles = if small {
            cursor % 8 + 1
        } else {
            cursor % 16 + 1
        };
        let poo = string_repeat("\u{1F4A9}", piles);
        let values = vec![
            Value::from_i32(((cursor + 2) % 10) as i32),
            Value::from_i32(cursor as i32),
            Value::from_i32(((cursor + 50) % 100) as i32),
            Value::from_i32(v4 as i32),
            Value::from_i32(233),
            Value::from_str(poo.as_str()),
        ];
        assert(values@.map_values(|v: Value| v@) =~= mock_row(
            plan.table@,
            cursor as int,
            plan.output_schema@.columns,
        ));
        Tuple::new_with_values(values, plan.output_schema_ref())
    } else if str_eq(table, "__mock_external_merge_sort_input") {
        ints3(cursor as i32, ((cursor + 1777) % 15000) as i32, ((cursor + 3) % 111) as i32, plan)
    } else if str_eq(table, "__mock_table_123") {
        int1((cursor + 1) as i32, plan)
    } else if str_eq(table, "__mock_graph") {
        let src = cursor % 10;
        let dst = cursor / 10;
        let distance = if src == dst {
            Value::null(TypeId::Integer)
        } else {
            Value::from_i32(1)
        };
        let values = vec![
            Value::from_i32(src as i32),
            Value::from_i32(dst as i32),
            Value::from_i32((src * 100) as i32),
            Value::from_i32((dst * 100) as i32),
            distance,
        ];
        assert(values@.map_values(|v: Value| v@) =~= mock_row(
            plan.table@,
            cursor as int,
            plan.output_schema@.columns,
        ));
        Tuple::new_with_values(values, plan.output_schema_ref())
    } else if str_eq(table, "__mock_t1") {
        ints3((cursor / 10000) as i32, (cursor % 10000) as i32, cursor as i32, plan)
    } else if str_eq(table, "__mock_t4_1m") {
        let c = cursor % 500000;
        pair(Value::from_i32(c as i32), Value::from_i32((c * 10) as i32), plan)
    } else if str_eq(table, "__mock_t5_1m") {
        let c = (cursor + 30000) % 500000;
        pair(Value::from_i32(c as i32), Value::from_i32((c * 10) as i32), plan)
    } else if str_eq(table, "__mock_t6_1m") {
        let c = (cursor + 60000) % 500000;
        pair(Value::from_i32(c as i32), Value::from_i32((c * 10) as i32), plan)
    } else if str_eq(table, "__mock_t7") {
        ints3((cursor % 20) as i32, cursor as i32, cursor as i32, plan)
    } else if str_eq(table, "__mock_t8") {
        int1(cursor as i32, plan)
    } else if str_eq(table, "__mock_t9") {
        let half = cursor / 2;
        let a = (cursor / 10000) % 2;
        let b = half % 2;
        assert(a * b <= 1) by (nonlinear_arith)
            requires
                a <= 1,
                b <= 1,
        ;
        let t = half + a * b;
        let y: i32 = 10000000i32 - (t as i32);
        pair(Value::from_i32((cursor / 10000) as i32), Value::from_i32(y), plan)
    } else if str_eq(table, "__mock_t10") {
        pair(Value::from_i32(cursor as i32), Value::from_i32((cursor * 10) as i32), plan)
    } else if str_eq(table, "__mock_t11") {
        let x: i32 = -1 * ((cursor % 1000) as i32) - 1;
        pair(Value::from_i32(x), Value::from_i32((cursor * 10) as i32), plan)
    } else {
        let cols = plan.output_schema_ref().get_columns();
        let mut values: Vec<Value> = Vec::new();
        let mut i: usize = 0;
        while i < cols.len()
            invariant
                0 <= i <= cols@.len(),
                column_views(cols@) == plan.output_schema@.columns,
                values@.map_values(|v: Value| v@) == column_views(cols@).take(i as int).map_values(
                    |col: ColumnView| zero_view(col.type_id),
                ),
            decreases cols@.len() - i,
        {
            let z = Value::zero(cols[i].get_type());
            let ghost old_vals = values@;
            proof {
                assert(column_views(cols@)[i as int] == cols@[i as int]@);
                assert(z@ == zero_view(cols@[i as int]@.type_id));
            }
            values.push(z);
            proof {
                assert(values@.map_values(|v: Value| v@) =~= old_vals.map_values(|v: Value| v@).push(z@));
                assert(column_views(cols@).take(i + 1).map_values(|col: ColumnView| zero_view(col.type_id))
                    =~= column_views(cols@).take(i as int).map_values(
                    |col: ColumnView| zero_view(col.type_id),
                ).push(zero_view(column_views(cols@)[i as int].type_id)));
            }
            i += 1;
        }
        assert(column_views(cols@).take(i as int) =~= column_views(cols@));
        Tuple::new_with_values(values, plan.output_schema_ref())
    }
}


/// rand's `SliceRandom::shuffle` with the thread's generator: the same items,
/// in an order chosen at random.
#[verifier::external_body]
fn shuffle(v: &mut Vec<usize>)
    ensures
        final(v)@.to_multiset() == old(v)@.to_multiset(),
{
    v.shuffle(&mut rand::thread_rng());
}

/// The row numbers `0..n`, in order.
pub open spec fn row_numbers(n: nat) -> Seq<usize> {
    Seq::new(n, |i: int| i as usize)
}

/// The MockScanExecutor executor executes a sequential table scan for tests.
pub struct MockScanExecutor<'a> {
    /// The plan node for the scan.
    plan: &'a MockScanPlanNode,
    exec_ctx: &'a ExecutorContext,
    /// The cursor for the current mock scan position.
    cursor: usize,
    /// The total number of rows in the mock table.
    size: usize,
    /// Shuffled output indices (empty if no shuffling is needed).
    shuffled_idx: Vec<usize>,
}

impl<'a> MockScanExecutor<'a> {
    /// The plan this executor runs.
    pub closed spec fn plan(&self) -> MockScanPlanNode {
        *self.plan
    }

    /// How many rows this executor has produced.
    pub closed spec fn produced(&self) -> nat {
        self.cursor as nat
    }

    /// The rows this executor produces, in order, by row number.
    pub closed spec fn order(&self) -> Seq<usize> {
        if self.shuffled_idx@.len() == 0 {
            row_numbers(self.size as nat)
        } else {
            self.shuffled_idx@
        }
    }

    /// The executor is consistent: the order lists the rows of its table.
    pub closed spec fn wf(&self) -> bool {
        &&& self.size == mock_size(self.plan.table@)
        &&& self.cursor <= self.size
        &&& self.order().len() == self.size
        &&& self.order().to_multiset() == row_numbers(self.size as nat).to_multiset()
        &&& forall|i: int| 0 <= i < self.size ==> #[trigger] self.order()[i] < self.size
        &&& (self.shuffled_idx@.len() > 0 ==> mock_shuffled(self.plan.table@))
    }

    /// The number of rows of the table.
    pub closed spec fn size(&self) -> nat {
        self.size as nat
    }

    /// What a consistent executor holds: the order lists each row of its
    /// table once, in row order unless the table is shuffled.
    pub proof fn lemma_wf(&self)
        requires
            self.wf(),
        ensures
            self.produced() <= self.size(),
            self.size() == mock_size(self.plan().table@),
            self.order().len() == self.size(),
            self.order().to_multiset() == row_numbers(self.size()).to_multiset(),
            !mock_shuffled(self.plan().table@) ==> self.order() == row_numbers(self.size()),
    {
    }

    /// Construct a new MockScanExecutor instance.
    pub fn new(exec_ctx: &'a ExecutorContext, plan: &'a MockScanPlanNode) -> (r: Self)
        ensures
            r.wf(),
            r.plan() == *plan,
            r.produced() == 0,
            r.size() == mock_size(plan.table@),
            !mock_shuffled(plan.table@) ==> r.order() == row_numbers(mock_size(plan.table@)),
    {
        let size = get_size_of(plan);
        let mut shuffled_idx: Vec<usize> = Vec::new();
        if get_shuffled(plan) && size > 0 {
            let mut i: usize = 0;
            while i < size
                invariant
                    0 <= i <= size,
                    shuffled_idx@ == row_numbers(i as nat),
                decreases size - i,
            {
                shuffled_idx.push(i);
                i += 1;
                assert(shuffled_idx@ =~= row_numbers(i as nat));
            }
            let ghost before = shuffled_idx@;
            shuffle(&mut shuffled_idx);
            proof {
                let n = row_numbers(size as nat);
                assert(before == n);
                assert(shuffled_idx@.to_multiset() == n.to_multiset());
                n.to_multiset_ensures();
                shuffled_idx@.to_multiset_ensures();
                assert forall|k: int| 0 <= k < size implies #[trigger] shuffled_idx@[k] < size by {
                    let x = shuffled_idx@[k];
                    assert(shuffled_idx@.contains(x));
                    assert(shuffled_idx@.to_multiset().count(x) > 0);
                    assert(n.to_multiset().count(x) > 0);
                    assert(n.contains(x));
                }
            }
        }
        let r = MockScanExecutor { plan, exec_ctx, cursor: 0, size, shuffled_idx };
        proof {
            if r.shuffled_idx@.len() == 0 {
                assert(r.order() == row_numbers(size as nat));
            }
        }
        r
    }

    /// The plan node of this executor.
    pub fn plan_node(&self) -> (r: &'a MockScanPlanNode)
        ensures
            *r == self.plan(),
    {
        self.plan
    }

    /// The next batch of at most `batch_size` rows, or `None` when no row is left.
    pub fn next(&mut self, batch_size: usize) -> (r: Option<(Vec<Tuple>, Vec<RID>)>)
        requires
            old(self).wf(),
        ensures
            final(self).wf(),
            final(self).plan() == old(self).plan(),
            final(self).order() == old(self).order(),
            final(self).size() == old(self).size(),
            final(self).produced() as int == if old(self).produced() + batch_size <= old(self).size() {
                old(self).produced() + batch_size
            } else {
                old(self).size() as int
            },
            final(self).produced() == old(self).produced() <==> r is None,
            r matches Some((tuples, rids)) ==> {
                &&& tuples@.len() == final(self).produced() - old(self).produced()
                &&& rids@.len() == tuples@.len()
                &&& forall|j: int|
                    0 <= j < tuples@.len() ==> #[trigger] tuples@[j]@ == mock_row(
                        old(self).plan().table@,
                        old(self).order()[old(self).produced() + j] as int,
                        old(self).plan().output_schema@.columns,
                    )
                &&& forall|j: int|
                    0 <= j < rids@.len() ==> packed_rid(
                        #[trigger] rids@[j].spec_page_id(),
                        rids@[j].spec_slot_num(),
                    ) == 0
            },
    {
        let mut tuple_batch: Vec<Tuple> = Vec::new();
        let mut rid_batch: Vec<RID> = Vec::new();
        let ghost start = self.cursor;
        while tuple_batch.len() < batch_size && self.cursor < self.size
            invariant
                self.wf(),
                self.plan == old(self).plan,
                self.size == old(self).size,
                self.shuffled_idx == old(self).shuffled_idx,
                start == old(self).cursor,
                start <= self.cursor,
                tuple_batch@.len() == self.cursor - start,
                rid_batch@.len() == tuple_batch@.len(),
                tuple_batch@.len() <= batch_size,
                forall|j: int|
                    0 <= j < tuple_batch@.len() ==> #[trigger] tuple_batch@[j]@ == mock_row(
                        self.plan.table@,
                        self.order()[start + j] as int,
                        self.plan.output_schema@.columns,
                    ),
                forall|j: int|
                    0 <= j < rid_batch@.len() ==> packed_rid(
                        #[trigger] rid_batch@[j].spec_page_id(),
                        rid_batch@[j].spec_slot_num(),
                    ) == 0,
            decreases self.size - self.cursor,
        {
            let row = if self.shuffled_idx.len() == 0 {
                self.cursor
            } else {
                self.shuffled_idx[self.cursor]
            };
            assert(row == self.order()[self.cursor as int]);
            let tuple = mock_tuple_at(self.plan, row);
            let rid = RID::from_i64(0);
            self.cursor += 1;
            tuple_batch.push(tuple);
            rid_batch.push(rid);
        }
        if tuple_batch.len() == 0 {
            None
        } else {
            Some((tuple_batch, rid_batch))
        }
    }
}

/// `__mock_table_123` is none of the mock tables the generator lists
/// before it.
proof fn lemma_name_123_differs()
    ensures
        "__mock_table_123"@ != "__mock_table_1"@,
        "__mock_table_123"@ != "__mock_table_2"@,
        "__mock_table_123"@ != "__mock_table_3"@,
        "__mock_table_123"@ != "__mock_table_tas_2022"@,
        "__mock_table_123"@ != "__mock_table_tas_2023"@,
        "__mock_table_123"@ != "__mock_table_tas_2023_fall"@,
        "__mock_table_123"@ != "__mock_table_tas_2024"@,
        "__mock_table_123"@ != "__mock_table_tas_2024_fall"@,
        "__mock_table_123"@ != "__mock_table_schedule_2022"@,
        "__mock_table_123"@ != "__mock_table_schedule"@,
        "__mock_table_123"@ != "__mock_agg_input_small"@,
        "__mock_table_123"@ != "__mock_agg_input_big"@,
        "__mock_table_123"@ != "__mock_external_merge_sort_input"@,
        "__mock_table_123"@ != "__mock_graph"@,
{
    assert("__mock_table_123"@ != "__mock_table_1"@) by {
        reveal_strlit("__mock_table_123");
        reveal_strlit("__mock_table_1");
        if "__mock_table_123"@ == "__mock_table_1"@ {
            assert("__mock_table_123"@.len() == "__mock_table_1"@.len());
            assert("__mock_table_123"@[13] == "__mock_table_1"@[13]);
        }
    }
    assert("__mock_table_123"@ != "__mock_table_2"@) by {
        reveal_strlit("__mock_table_123");
        reveal_strlit("__mock_table_2");
        if "__mock_table_123"@ == "__mock_table_2"@ {
            assert("__mock_table_123"@.len() == "__mock_table_2"@.len());
            assert("__mock_table_123"@[13] == "__mock_table_2"@[13]);
        }
    }
    assert("__mock_table_123"@ != "__mock_table_3"@) by {
        reveal_strlit("__mock_table_123");
        reveal_strlit("__mock_table_3");
        if "__mock_table_123"@ == "__mock_table_3"@ {
            assert("__mock_table_123"@.len() == "__mock_table_3"@.len());
            assert("__mock_table_123"@[13] == "__mock_table_3"@[13]);
        }
    }
    assert("__mock_table_123"@ != "__mock_table_tas_2022"@) by {
        reveal_strlit("__mock_table_123");
        reveal_strlit("__mock_table_tas_2022");
        if "__mock_table_123"@ == "__mock_table_tas_2022"@ {
            assert("__mock_table_123"@.len() == "__mock_table_tas_2022"@.len());
            assert("__mock_table_123"@[15] == "__mock_table_tas_2022"@[15]);
        }
    }
    assert("__mock_table_123"@ != "__mock_table_tas_2023"@) by {
        reveal_strlit("__mock_table_123");
        reveal_strlit("__mock_table_tas_2023");
        if "__mock_table_123"@ == "__mock_table_tas_2023"@ {
            assert("__mock_table_123"@.len() == "__mock_table_tas_2023"@.len());
            assert("__mock_table_123"@[15] == "__mock_table_tas_2023"@[15]);
        }
    }
    assert("__mock_table_123"@ != "__mock_table_tas_2023_fall"@) by {
        reveal_strlit("__mock_table_123");
        reveal_strlit("__mock_table_tas_2023_fall");
        if "__mock_table_123"@ == "__mock_table_tas_2023_fall"@ {
            assert("__mock_table_123"@.len() == "__mock_table_tas_2023_fall"@.len());
            assert("__mock_table_123"@[15] == "__mock_table_tas_2023_fall"@[15]);
        }
    }
    assert("__mock_table_123"@ != "__mock_table_tas_2024"@) by {
        reveal_strlit("__mock_table_123");
        reveal_strlit("__mock_table_tas_2024");
        if "__mock_table_123"@ == "__mock_table_tas_2024"@ {
            assert("__mock_table_123"@.len() == "__mock_table_tas_2024"@.len());
            assert("__mock_table_123"@[15] == "__mock_table_tas_2024"@[15]);
        }
    }
    assert("__mock_table_123"@ != "__mock_table_tas_2024_fall"@) by {
        reveal_strlit("__mock_table_123");
        reveal_strlit("__mock_table_tas_2024_fall");
        if "__mock_table_123"@ == "__mock_table_tas_2024_fall"@ {
            assert("__mock_table_123"@.len() == "__mock_table_tas_2024_fall"@.len());
            assert("__mock_table_123"@[15] == "__mock_table_tas_2024_fall"@[15]);
        }
    }
    assert("__mock_table_123"@ != "__mock_table_schedule_2022"@) by {
        reveal_strlit("__mock_table_123");
        reveal_strlit("__mock_table_schedule_2022");
        if "__mock_table_123"@ == "__mock_table_schedule_2022"@ {
            assert("__mock_table_123"@.len() == "__mock_table_schedule_2022"@.len());
            assert("__mock_table_123"@[15] == "__mock_table_schedule_2022"@[15]);
        }
    }
    assert("__mock_table_123"@ != "__mock_table_schedule"@) by {
        reveal_strlit("__mock_table_123");
        reveal_strlit("__mock_table_schedule");
        if "__mock_table_123"@ == "__mock_table_schedule"@ {
            assert("__mock_table_123"@.len() == "__mock_table_schedule"@.len());
            assert("__mock_table_123"@[15] == "__mock_table_schedule"@[15]);
        }
    }
    assert("__mock_table_123"@ != "__mock_agg_input_small"@) by {
        reveal_strlit("__mock_table_123");
        reveal_strlit("__mock_agg_input_small");
        if "__mock_table_123"@ == "__mock_agg_input_small"@ {
            assert("__mock_table_123"@.len() == "__mock_agg_input_small"@.len());
            assert("__mock_table_123"@[15] == "__mock_agg_input_small"@[15]);
        }
    }
    assert("__mock_table_123"@ != "__mock_agg_input_big"@) by {
        reveal_strlit("__mock_table_123");
        reveal_strlit("__mock_agg_input_big");
        if "__mock_table_123"@ == "__mock_agg_input_big"@ {
            assert("__mock_table_123"@.len() == "__mock_agg_input_big"@.len());
            assert("__mock_table_123"@[15] == "__mock_agg_input_big"@[15]);
        }
    }
    assert("__mock_table_123"@ != "__mock_external_merge_sort_input"@) by {
        reveal_strlit("__mock_table_123");
        reveal_strlit("__mock_external_merge_sort_input");
        if "__mock_table_123"@ == "__mock_external_merge_sort_input"@ {
            assert("__mock_table_123"@.len() == "__mock_external_merge_sort_input"@.len());
            assert("__mock_table_123"@[15] == "__mock_external_merge_sort_input"@[15]);
        }
    }
    assert("__mock_table_123"@ != "__mock_graph"@) by {
        reveal_strlit("__mock_table_123");
        reveal_strlit("__mock_graph");
        if "__mock_table_123"@ == "__mock_graph"@ {
            assert("__mock_table_123"@.len() == "__mock_graph"@.len());
            assert("__mock_table_123"@[11] == "__mock_graph"@[11]);
        }
    }
}

/// Row `c` of `__mock_table_123` as the generator describes it.
proof fn lemma_row_123(c: int, cols: Seq<ColumnView>)
    ensures
        mock_row("__mock_table_123"@, c, cols) == seq![iv(c + 1)],
{
    lemma_name_123_differs();
}

/// The size and columns of `__mock_table_123`.
proof fn lemma_shape_123()
    ensures
        mock_size("__mock_table_123"@) == 3,
        mock_columns("__mock_table_123"@) == Some(seq![int_column("number"@)]),
{
    lemma_name_123_differs();
}

/// `__mock_table_123` is the table of the numbers 1, 2 and 3: it has three
/// rows, one INTEGER column `number`, and its rows hold exactly the values
/// 1, 2 and 3, in that order.
pub proof fn law_mock_table_123_holds_one_two_three(cols: Seq<ColumnView>)
    ensures
        mock_size("__mock_table_123"@) == 3,
        mock_columns("__mock_table_123"@) == Some(seq![int_column("number"@)]),
        forall|c: int|
            0 <= c < 3 ==> #[trigger] mock_row("__mock_table_123"@, c, cols).len() == 1
                && mock_row("__mock_table_123"@, c, cols)[0].type_id == TypeId::Integer,
        Set::new(
            |v: int|
                exists|c: int|
                    0 <= c < 3 && #[trigger] mock_row("__mock_table_123"@, c, cols)[0].datum == Datum::Int(v),
        ) == set![1int, 2int, 3int],
        mock_row("__mock_table_123"@, 0, cols)[0].datum == Datum::Int(1),
        mock_row("__mock_table_123"@, 1, cols)[0].datum == Datum::Int(2),
        mock_row("__mock_table_123"@, 2, cols)[0].datum == Datum::Int(3),
{
    lemma_shape_123();
    let t = "__mock_table_123"@;
    assert forall|c: int| 0 <= c < 3 implies #[trigger] mock_row(t, c, cols).len() == 1
        && mock_row(t, c, cols)[0].type_id == TypeId::Integer by {
        lemma_row_123(c, cols);
    }
    lemma_row_123(0, cols);
    lemma_row_123(1, cols);
    lemma_row_123(2, cols);
    let vals = Set::new(|v: int| exists|c: int| 0 <= c < 3 && #[trigger] mock_row(t, c, cols)[0].datum == Datum::Int(v));
    assert forall|v: int| vals.contains(v) <==> set![1int, 2int, 3int].contains(v) by {
        if vals.contains(v) {
            let c = choose|c: int| 0 <= c < 3 && #[trigger] mock_row(t, c, cols)[0].datum == Datum::Int(v);
            lemma_row_123(c, cols);
        }
    }
    assert(vals =~= set![1int, 2int, 3int]);
}

/// A scan of `__mock_table_123` produces its rows in order, the `i`-th row
/// produced holding the one INTEGER `i + 1`: a full scan gives 1, 2, 3.
pub proof fn law_scan_of_mock_table_123<'a>(e: &MockScanExecutor<'a>, i: int)
    requires
        e.wf(),
        e.plan().table@ == "__mock_table_123"@,
        0 <= i < e.size(),
    ensures
        e.size() == 3,
        mock_row(e.plan().table@, e.order()[i] as int, e.plan().output_schema@.columns) == seq![
            ValueView { type_id: TypeId::Integer, datum: Datum::Int(i + 1) },
        ],
{
    reveal_strlit("__mock_table_123");
    reveal_strlit("__mock_t1");
    reveal_strlit("__mock_t2_100k");
    reveal_strlit("__mock_t3_1k");
    assert(!mock_shuffled("__mock_table_123"@)) by {
        assert("__mock_table_123"@.len() != "__mock_t1"@.len());
        assert("__mock_table_123"@.len() != "__mock_t2_100k"@.len());
        assert("__mock_table_123"@.len() != "__mock_t3_1k"@.len());
    }
    e.lemma_wf();
    lemma_shape_123();
    assert(e.order()[i] == i);
    lemma_row_123(i, e.plan().output_schema@.columns);
}

/// A scan of `__mock_table_1` produces its hundred rows in order, the
/// `i`-th row produced holding the INTEGERs `i` and `100 * i`.
pub proof fn law_scan_of_mock_table_1<'a>(e: &MockScanExecutor<'a>, i: int)
    requires
        e.wf(),
        e.plan().table@ == "__mock_table_1"@,
        0 <= i < e.size(),
    ensures
        e.size() == 100,
        mock_row(e.plan().table@, e.order()[i] as int, e.plan().output_schema@.columns) == seq![
            ValueView { type_id: TypeId::Integer, datum: Datum::Int(i) },
            ValueView { type_id: TypeId::Integer, datum: Datum::Int(100 * i) },
        ],
{
    reveal_strlit("__mock_table_1");
    reveal_strlit("__mock_t1");
    reveal_strlit("__mock_t2_100k");
    reveal_strlit("__mock_t3_1k");
    assert(!mock_shuffled("__mock_table_1"@)) by {
        assert("__mock_table_1"@.len() != "__mock_t1"@.len());
        assert("__mock_table_1"@[8] != "__mock_t2_100k"@[8]);
        assert("__mock_table_1"@.len() != "__mock_t3_1k"@.len());
    }
    e.lemma_wf();
    assert(e.order()[i] == i);
}

} // verus!
