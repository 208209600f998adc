use vstd::prelude::*;

use crate::catalog::schema::Schema;
use crate::sql_type::value::{Value, ValueView};

verus! {

/// A timestamp of the multi-version store.
pub type TimeStamp = i64;

/// The timestamp of nothing.
pub const INVALID_TS: TimeStamp = -1;

/// A row of values, one per column of the schema it was built for.
pub struct Tuple {
    values: Vec<Value>,
}

impl View for Tuple {
    type V = Seq<ValueView>;

    closed spec fn view(&self) -> Seq<ValueView> {
        self.values@.map_values(|v: Value| v@)
    }
}

impl Tuple {
    /// A tuple holding `values`, laid out for `schema`.
    pub fn new_with_values(values: Vec<Value>, schema: &Schema) -> (r: Tuple)
        ensures
            r@ == values@.map_values(|v: Value| v@),
    {
        Tuple { values }
    }

    /// A copy of this tuple.
    pub fn duplicate(&self) -> (r: Tuple)
        ensures
            r@ == self@,
    {
        let mut values: Vec<Value> = Vec::new();
        let mut i: usize = 0;
        while i < self.values.len()
            invariant
                0 <= i <= self.values@.len(),
                values@ == self.values@.take(i as int),
            decreases self.values@.len() - i,
        {
            values.push(self.values[i].duplicate());
            i += 1;
            assert(values@ =~= self.values@.take(i as int));
        }
        assert(self.values@.take(i as int) =~= self.values@);
        Tuple { values }
    }

    /// The number of values in the tuple.
    pub fn len(&self) -> (r: usize)
        ensures
            r == self@.len(),
    {
        self.values.len()
    }

    /// The value of the column at `column_idx` in `schema`.
    pub fn get_value(&self, schema: &Schema, column_idx: usize) -> (r: Value)
        requires
            column_idx < self@.len(),
        ensures
            r@ == self@[column_idx as int],
    {
        self.values[column_idx].duplicate()
    }
}

} // verus!
