use vstd::prelude::*;

use crate::catalog::schema::Schema;

verus! {

/// Return the schema for the given mock table name: this lookup knows no
/// mock table, so every name is not found.
pub fn get_mock_table_schema_of(table: &str) -> (r: Result<Schema, String>)
    ensures
        r matches Err(m) && m@ == "mock table "@ + table@ + " not found"@,
{
    let mut m = String::from_str("mock table ");
    m.append(table);
    m.append(" not found");
    Err(m)
}

} // verus!
