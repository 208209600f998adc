use vstd::prelude::*;

use crate::sql_type::type_id::TypeId;
use crate::sql_type::value::{Datum, Value, ValueView};

verus! {

/// Constructors of values.
pub struct ValueFactory;

impl ValueFactory {
    pub fn get_integer_value(v: i32) -> (r: Value)
        ensures
            r@ == (ValueView { type_id: TypeId::Integer, datum: Datum::Int(v as int) }),
    {
        Value::from_i32(v)
    }

    pub fn get_null_value_by_type(type_id: TypeId) -> (r: Value)
        ensures
            r@ == (ValueView { type_id, datum: Datum::Null }),
    {
        Value::null(type_id)
    }

    pub fn get_varchar_value(s: &str) -> (r: Value)
        ensures
            r@ == (ValueView { type_id: TypeId::Varchar, datum: Datum::Str(s@) }),
    {
        Value::from_str(s)
    }
}

} // verus!
