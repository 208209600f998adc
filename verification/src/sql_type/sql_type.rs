use vstd::prelude::*;

use crate::sql_type::type_id::TypeId;

verus! {

/// The result of a comparison in three-valued logic.
#[derive(Debug, Clone, Copy, PartialEq, Eq, Structural)]
pub enum CmpBool {
    CmpFalse,
    CmpTrue,
    CmpNull,
}

/// The name of a SQL type.
pub open spec fn sql_type_name(t: TypeId) -> Seq<char> {
    match t {
        TypeId::Boolean => "BOOLEAN"@,
        TypeId::TinyInt => "TINYINT"@,
        TypeId::SmallInt => "SMALLINT"@,
        TypeId::Integer => "INTEGER"@,
        TypeId::BigInt => "BIGINT"@,
        TypeId::Decimal => "DECIMAL"@,
        TypeId::Varchar => "VARCHAR"@,
        TypeId::Timestamp => "TIMESTAMP"@,
    }
}

/// The name of a SQL type.
pub fn type_id_to_string(t: TypeId) -> (r: String)
    ensures
        r@ == sql_type_name(t),
{
    match t {
        TypeId::Boolean => String::from_str("BOOLEAN"),
        TypeId::TinyInt => String::from_str("TINYINT"),
        TypeId::SmallInt => String::from_str("SMALLINT"),
        TypeId::Integer => String::from_str("INTEGER"),
        TypeId::BigInt => String::from_str("BIGINT"),
        TypeId::Decimal => String::from_str("DECIMAL"),
        TypeId::Varchar => String::from_str("VARCHAR"),
        TypeId::Timestamp => String::from_str("TIMESTAMP"),
    }
}

} // verus!
