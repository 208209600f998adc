use vstd::prelude::*;

use crate::common::text::{signed_decimal, signed_decimal_string};
use crate::sql_type::limits::BUSTUB_BOOLEAN_NULL;
use crate::sql_type::sql_type::CmpBool;
use crate::sql_type::type_id::TypeId;

verus! {

/// What a value holds: nothing (SQL NULL), an integer (for the boolean,
/// integer and timestamp types) or a string (for VARCHAR).
#[derive(Clone)]
pub enum ValueData {
    Null,
    Int(i64),
    Str(String),
}

/// The mathematical content of a value.
pub enum Datum {
    Null,
    Int(int),
    Str(Seq<char>),
}

/// The mathematical view of a value: its SQL type and its content.
pub struct ValueView {
    pub type_id: TypeId,
    pub datum: Datum,
}

/// A SQL value: a type and what it holds.
#[derive(Clone)]
pub struct Value {
    pub sql_type_id: TypeId,
    pub data: ValueData,
}

impl View for Value {
    type V = ValueView;

    open spec fn view(&self) -> ValueView {
        ValueView {
            type_id: self.sql_type_id,
            datum: match self.data {
                ValueData::Null => Datum::Null,
                ValueData::Int(i) => Datum::Int(i as int),
                ValueData::Str(s) => Datum::Str(s@),
            },
        }
    }
}

/// The lexicographic comparison of two strings: negative, zero or positive
/// as `a` sorts before, with, or after `b`.
pub open spec fn seq_compare(a: Seq<char>, b: Seq<char>) -> int
    decreases a.len(),
{
    if a.len() == 0 {
        if b.len() == 0 {
            0
        } else {
            -1
        }
    } else if b.len() == 0 {
        1
    } else if (a[0] as u32) < (b[0] as u32) {
        -1
    } else if (a[0] as u32) > (b[0] as u32) {
        1
    } else {
        seq_compare(a.drop_first(), b.drop_first())
    }
}

/// The three-way comparison of two values: `None` when either is null or
/// they are not comparable (an integer and a string), else the sign of
/// their difference.
pub open spec fn compare_datums(a: Datum, b: Datum) -> Option<int> {
    match (a, b) {
        (Datum::Int(x), Datum::Int(y)) => Some(
            if x < y {
                -1
            } else if x > y {
                1
            } else {
                0
            },
        ),
        (Datum::Str(x), Datum::Str(y)) => Some(seq_compare(x, y)),
        _ => None,
    }
}

/// The result of a comparison whose outcome is `ord` (`None` for null) and
/// which holds when `holds(ord)`.
pub open spec fn cmp_result(ord: Option<int>, holds: spec_fn(int) -> bool) -> CmpBool {
    match ord {
        None => CmpBool::CmpNull,
        Some(o) => if holds(o) {
            CmpBool::CmpTrue
        } else {
            CmpBool::CmpFalse
        },
    }
}

/// The text of a value: a string's characters, an integer's decimal digits,
/// or `<NULL>`.
pub open spec fn datum_text(d: Datum) -> Seq<char> {
    match d {
        Datum::Null => "<NULL>"@,
        Datum::Int(i) => signed_decimal(i),
        Datum::Str(s) => s,
    }
}

fn compare_strings(a: &String, b: &String) -> (r: i8)
    ensures
        r as int == seq_compare(a@, b@),
{
    let sa = a.as_str();
    let sb = b.as_str();
    let la = sa.unicode_len();
    let lb = sb.unicode_len();
    let mut i: usize = 0;
    assert(a@.skip(0) =~= a@);
    assert(b@.skip(0) =~= b@);
    while i < la && i < lb
        invariant
            la == a@.len(),
            lb == b@.len(),
            sa@ == a@,
            sb@ == b@,
            0 <= i <= la,
            i <= lb,
            seq_compare(a@, b@) == seq_compare(a@.skip(i as int), b@.skip(i as int)),
        decreases la - i,
    {
        let ca = sa.get_char(i);
        let cb = sb.get_char(i);
        assert(a@.skip(i as int)[0] == ca);
        assert(b@.skip(i as int)[0] == cb);
        if (ca as u32) < (cb as u32) {
            return -1;
        }
        if (ca as u32) > (cb as u32) {
            return 1;
        }
        assert(a@.skip(i as int).drop_first() =~= a@.skip(i + 1));
        assert(b@.skip(i as int).drop_first() =~= b@.skip(i + 1));
        i += 1;
    }
    if i == la {
        if i == lb {
            assert(a@.skip(i as int).len() == 0);
            0
        } else {
            -1
        }
    } else {
        1
    }
}

impl Value {
    /// A value of type `type_id` holding the small integer `v`; a boolean
    /// holding the null marker is null.
    pub fn from_i8(type_id: TypeId, v: i8) -> (r: Value)
        ensures
            r@.type_id == type_id,
            r@.datum == (if type_id == TypeId::Boolean && v == BUSTUB_BOOLEAN_NULL {
                Datum::Null
            } else {
                Datum::Int(v as int)
            }),
    {
        if type_id == TypeId::Boolean && v == BUSTUB_BOOLEAN_NULL {
            Value { sql_type_id: type_id, data: ValueData::Null }
        } else {
            Value { sql_type_id: type_id, data: ValueData::Int(v as i64) }
        }
    }

    /// An INTEGER value.
    pub fn from_i32(v: i32) -> (r: Value)
        ensures
            r@ == (ValueView { type_id: TypeId::Integer, datum: Datum::Int(v as int) }),
    {
        Value { sql_type_id: TypeId::Integer, data: ValueData::Int(v as i64) }
    }

    /// A VARCHAR value.
    pub fn from_str(s: &str) -> (r: Value)
        ensures
            r@ == (ValueView { type_id: TypeId::Varchar, datum: Datum::Str(s@) }),
    {
        Value { sql_type_id: TypeId::Varchar, data: ValueData::Str(String::from_str(s)) }
    }

    /// The null value of a type.
    pub fn null(type_id: TypeId) -> (r: Value)
        ensures
            r@ == (ValueView { type_id, datum: Datum::Null }),
    {
        Value { sql_type_id: type_id, data: ValueData::Null }
    }

    /// The zero of a type: the empty string for VARCHAR, null for DECIMAL
    /// (whose values this library does not hold), 0 otherwise.
    pub fn zero(type_id: TypeId) -> (r: Value)
        ensures
            r@.type_id == type_id,
            r@.datum == (match type_id {
                TypeId::Varchar => Datum::Str(Seq::empty()),
                TypeId::Decimal => Datum::Null,
                _ => Datum::Int(0),
            }),
    {
        match type_id {
            TypeId::Varchar => {
                let s = String::new();
                Value { sql_type_id: type_id, data: ValueData::Str(s) }
            },
            TypeId::Decimal => Value { sql_type_id: type_id, data: ValueData::Null },
            _ => Value { sql_type_id: type_id, data: ValueData::Int(0) },
        }
    }

    /// A copy of the value.
    pub fn duplicate(&self) -> (r: Value)
        ensures
            r == *self,
    {
        let data = match &self.data {
            ValueData::Null => ValueData::Null,
            ValueData::Int(i) => ValueData::Int(*i),
            ValueData::Str(s) => ValueData::Str(s.clone()),
        };
        Value { sql_type_id: self.sql_type_id, data }
    }

    pub fn get_type_id(&self) -> (r: TypeId)
        ensures
            r == self@.type_id,
    {
        self.sql_type_id
    }

    pub fn is_null(&self) -> (r: bool)
        ensures
            r == (self@.datum is Null),
    {
        match self.data {
            ValueData::Null => true,
            _ => false,
        }
    }

    /// The integer a value holds, as an `i32`.
    pub fn get_as_i32(&self) -> (r: i32)
        requires
            self@.datum matches Datum::Int(i) && i32::MIN <= i <= i32::MAX,
        ensures
            self@.datum == Datum::Int(r as int),
    {
        match self.data {
            ValueData::Int(i) => i as i32,
            _ => 0,
        }
    }

    /// The integer a value holds, as an `i8`.
    pub fn get_as_i8(&self) -> (r: i8)
        requires
            self@.datum matches Datum::Int(i) && i8::MIN <= i <= i8::MAX,
        ensures
            self@.datum == Datum::Int(r as int),
    {
        match self.data {
            ValueData::Int(i) => i as i8,
            _ => 0,
        }
    }

    /// The three-way comparison of two values, `None` when it is null.
    fn compare(&self, other: &Value) -> (r: Option<i8>)
        ensures
            match r {
                None => compare_datums(self@.datum, other@.datum) is None,
                Some(o) => compare_datums(self@.datum, other@.datum) == Some(o as int),
            },
    {
        match (&self.data, &other.data) {
            (ValueData::Int(x), ValueData::Int(y)) => Some(
                if *x < *y {
                    -1
                } else if *x > *y {
                    1
                } else {
                    0
                },
            ),
            (ValueData::Str(x), ValueData::Str(y)) => Some(compare_strings(x, y)),
            _ => None,
        }
    }

    pub fn compare_equals(&self, other: &Value) -> (r: CmpBool)
        ensures
            r == cmp_result(compare_datums(self@.datum, other@.datum), |o: int| o == 0),
    {
        match self.compare(other) {
            None => CmpBool::CmpNull,
            Some(o) => if o == 0 {
                CmpBool::CmpTrue
            } else {
                CmpBool::CmpFalse
            },
        }
    }

    pub fn compare_not_equals(&self, other: &Value) -> (r: CmpBool)
        ensures
            r == cmp_result(compare_datums(self@.datum, other@.datum), |o: int| o != 0),
    {
        match self.compare(other) {
            None => CmpBool::CmpNull,
            Some(o) => if o != 0 {
                CmpBool::CmpTrue
            } else {
                CmpBool::CmpFalse
            },
        }
    }

    pub fn compare_less_than(&self, other: &Value) -> (r: CmpBool)
        ensures
            r == cmp_result(compare_datums(self@.datum, other@.datum), |o: int| o < 0),
    {
        match self.compare(other) {
            None => CmpBool::CmpNull,
            Some(o) => if o < 0 {
                CmpBool::CmpTrue
            } else {
                CmpBool::CmpFalse
            },
        }
    }

    pub fn compare_less_than_equals(&self, other: &Value) -> (r: CmpBool)
        ensures
            r == cmp_result(compare_datums(self@.datum, other@.datum), |o: int| o <= 0),
    {
        match self.compare(other) {
            None => CmpBool::CmpNull,
            Some(o) => if o <= 0 {
                CmpBool::CmpTrue
            } else {
                CmpBool::CmpFalse
            },
        }
    }

    pub fn compare_greater_than(&self, other: &Value) -> (r: CmpBool)
        ensures
            r == cmp_result(compare_datums(self@.datum, other@.datum), |o: int| o > 0),
    {
        match self.compare(other) {
            None => CmpBool::CmpNull,
            Some(o) => if o > 0 {
                CmpBool::CmpTrue
            } else {
                CmpBool::CmpFalse
            },
        }
    }

    pub fn compare_greater_than_equals(&self, other: &Value) -> (r: CmpBool)
        ensures
            r == cmp_result(compare_datums(self@.datum, other@.datum), |o: int| o >= 0),
    {
        match self.compare(other) {
            None => CmpBool::CmpNull,
            Some(o) => if o >= 0 {
                CmpBool::CmpTrue
            } else {
                CmpBool::CmpFalse
            },
        }
    }

    /// The text of the value.
    pub fn to_string_val(&self) -> (r: String)
        ensures
            r@ == datum_text(self@.datum),
    {
        match &self.data {
            ValueData::Null => {
                proof {
                    reveal_strlit("<NULL>");
                }
                String::from_str("<NULL>")
            },
            ValueData::Int(i) => signed_decimal_string(*i),
            ValueData::Str(s) => s.clone(),
        }
    }
}

/// Strings are ordered as a total order should be: a comparison gives
/// -1, 0 or 1; it gives 0 exactly when the strings are equal; and swapping
/// the strings flips its sign.
pub proof fn law_string_order(a: Seq<char>, b: Seq<char>)
    ensures
        seq_compare(a, b) == -1 || seq_compare(a, b) == 0 || seq_compare(a, b) == 1,
        seq_compare(a, b) == 0 <==> a == b,
        seq_compare(a, b) == -seq_compare(b, a),
    decreases a.len(),
{
    if a.len() > 0 && b.len() > 0 && a[0] == b[0] {
        law_string_order(a.drop_first(), b.drop_first());
        if a.drop_first() == b.drop_first() {
            assert(a =~= seq![a[0]] + a.drop_first());
            assert(b =~= seq![b[0]] + b.drop_first());
        }
    } else if a.len() > 0 && b.len() > 0 {
        vstd::utf8::char_u32_cast(a[0], a[0] as u32);
        vstd::utf8::char_u32_cast(b[0], b[0] as u32);
        assert((a[0] as u32) != (b[0] as u32));
    } else if a.len() > 0 || b.len() > 0 {
        assert(a != b);
    } else {
        assert(a =~= b);
    }
}

/// A string sorts before every longer string that starts with it, and
/// strings whose first characters differ sort by those characters.
pub proof fn law_string_order_by_prefix(a: Seq<char>, b: Seq<char>)
    ensures
        a.len() < b.len() && b.take(a.len() as int) == a ==> seq_compare(a, b) == -1,
        a.len() > 0 && b.len() > 0 && (a[0] as u32) < (b[0] as u32) ==> seq_compare(a, b) == -1,
    decreases a.len(),
{
    if a.len() > 0 && b.len() > 0 && a[0] == b[0] {
        law_string_order_by_prefix(a.drop_first(), b.drop_first());
        if a.len() < b.len() && b.take(a.len() as int) == a {
            assert(b.drop_first().take(a.drop_first().len() as int) =~= a.drop_first());
        }
    } else if a.len() > 0 && b.len() > 0 && a.len() < b.len() && b.take(a.len() as int) == a {
        assert(b.take(a.len() as int)[0] == b[0]);
    }
}

} // verus!
