use vstd::prelude::*;

use crate::catalog::column::{type_size, Column, ColumnView};
use crate::catalog::schema::Schema;
use crate::sql_type::limits::BUSTUB_BOOLEAN_NULL;
use crate::sql_type::sql_type::CmpBool;
use crate::sql_type::type_id::TypeId;
use crate::common::text::{decimal, push_decimal};
use crate::sql_type::value::{compare_datums, datum_text, Datum, Value, ValueView};
use crate::sql_type::value_factory::ValueFactory;
use crate::storage::tuple::Tuple;

verus! {

/// Arithmetic operation type.
#[derive(Debug, Clone, Copy, PartialEq, Eq, Structural)]
pub enum ArithmeticType {
    Plus,
    Minus,
}

/// Comparison operation type.
#[derive(Debug, Clone, Copy, PartialEq, Eq, Structural)]
pub enum ComparisonType {
    Equal,
    NotEqual,
    LessThan,
    LessThanOrEqual,
    GreaterThan,
    GreaterThanOrEqual,
}

/// Logic operation type.
#[derive(Debug, Clone, Copy, PartialEq, Eq, Structural)]
pub enum LogicType {
    And,
    Or,
}

/// String expression operation type.
#[derive(Debug, Clone, Copy, PartialEq, Eq, Structural)]
pub enum StringExpressionType {
    Lower,
    Upper,
}

/// A constant value expression wrapping a single Value.
pub struct ConstantValueExpression {
    pub val: Value,
}

/// A column value expression referencing a column by tuple index and column index.
pub struct ColumnValueExpression {
    /// Tuple index (0 = left side of join, 1 = right side of join).
    pub tuple_idx: usize,
    /// Column index within the schema.
    pub col_idx: usize,
    /// The return type of this expression.
    pub ret_type: Column,
}

/// A comparison expression comparing two child expressions.
pub struct ComparisonExpression {
    pub comp_type: ComparisonType,
    pub left: Box<AbstractExpression>,
    pub right: Box<AbstractExpression>,
}

/// An arithmetic expression performing arithmetic on two child expressions.
pub struct ArithmeticExpression {
    pub compute_type: ArithmeticType,
    pub left: Box<AbstractExpression>,
    pub right: Box<AbstractExpression>,
}

/// A logic expression performing logical operations on two child expressions.
pub struct LogicExpression {
    pub logic_type: LogicType,
    pub left: Box<AbstractExpression>,
    pub right: Box<AbstractExpression>,
}

/// A string expression applying a string operation (lower/upper) on a child expression.
pub struct StringExpression {
    pub expr_type: StringExpressionType,
    pub arg: Box<AbstractExpression>,
}

/// An array expression representing an array of values from its children.
pub struct ArrayExpression {
    pub children: Vec<AbstractExpression>,
}

/// AbstractExpression is the base representation of all expressions in the system.
/// Expressions are modeled as trees, i.e., every expression may have a variable
/// number of children.
pub enum AbstractExpression {
    ConstantValue(ConstantValueExpression),
    ColumnValue(ColumnValueExpression),
    Comparison(ComparisonExpression),
    Arithmetic(ArithmeticExpression),
    Logic(LogicExpression),
    String(StringExpression),
    Array(ArrayExpression),
}

/// The lower-case form of a string, as Rust's `str::to_lowercase` gives it.
pub uninterp spec fn lowercase(s: Seq<char>) -> Seq<char>;

/// The upper-case form of a string, as Rust's `str::to_uppercase` gives it.
pub uninterp spec fn uppercase(s: Seq<char>) -> Seq<char>;

/// `str::to_lowercase`: the lower-case mapping of every character of `s`,
/// named by `lowercase`.
#[verifier::external_body]
fn str_to_lowercase(s: &str) -> (r: String)
    ensures
        r@ == lowercase(s@),
{
    s.to_lowercase()
}

/// `str::to_uppercase`: the upper-case mapping of every character of `s`,
/// named by `uppercase`.
#[verifier::external_body]
fn str_to_uppercase(s: &str) -> (r: String)
    ensures
        r@ == uppercase(s@),
{
    s.to_uppercase()
}

/// A boolean value for the outcome `c`: 1 when true, 0 when false, null
/// when unknown.
pub open spec fn bool_view(c: CmpBool) -> ValueView {
    ValueView {
        type_id: TypeId::Boolean,
        datum: match c {
            CmpBool::CmpTrue => Datum::Int(1),
            CmpBool::CmpFalse => Datum::Int(0),
            CmpBool::CmpNull => Datum::Null,
        },
    }
}

/// Whether a comparison of kind `t` holds of a three-way outcome `o`.
pub open spec fn comparison_holds(t: ComparisonType, o: int) -> bool {
    match t {
        ComparisonType::Equal => o == 0,
        ComparisonType::NotEqual => o != 0,
        ComparisonType::LessThan => o < 0,
        ComparisonType::LessThanOrEqual => o <= 0,
        ComparisonType::GreaterThan => o > 0,
        ComparisonType::GreaterThanOrEqual => o >= 0,
    }
}

/// The outcome of comparing `l` with `r`: null when either is null or they
/// cannot be compared.
pub open spec fn compare_views(t: ComparisonType, l: ValueView, r: ValueView) -> CmpBool {
    match compare_datums(l.datum, r.datum) {
        None => CmpBool::CmpNull,
        Some(o) => if comparison_holds(t, o) {
            CmpBool::CmpTrue
        } else {
            CmpBool::CmpFalse
        },
    }
}

/// Whether a value can be read as a truth value: null, or a small integer.
pub open spec fn truth_defined(v: ValueView) -> bool {
    match v.datum {
        Datum::Null => true,
        Datum::Int(i) => i8::MIN <= i <= i8::MAX,
        Datum::Str(_) => false,
    }
}

/// A value read as a truth value: null is unknown, zero false, other integers true.
pub open spec fn truth_of(v: ValueView) -> CmpBool {
    match v.datum {
        Datum::Int(i) => if i != 0 {
            CmpBool::CmpTrue
        } else {
            CmpBool::CmpFalse
        },
        _ => CmpBool::CmpNull,
    }
}

/// Three-valued AND / OR.
pub open spec fn logic_of(t: LogicType, l: CmpBool, r: CmpBool) -> CmpBool {
    match t {
        LogicType::And => if l == CmpBool::CmpFalse || r == CmpBool::CmpFalse {
            CmpBool::CmpFalse
        } else if l == CmpBool::CmpTrue && r == CmpBool::CmpTrue {
            CmpBool::CmpTrue
        } else {
            CmpBool::CmpNull
        },
        LogicType::Or => if l == CmpBool::CmpFalse && r == CmpBool::CmpFalse {
            CmpBool::CmpFalse
        } else if l == CmpBool::CmpTrue || r == CmpBool::CmpTrue {
            CmpBool::CmpTrue
        } else {
            CmpBool::CmpNull
        },
    }
}

/// The integer an integer datum holds.
pub open spec fn int_of(d: Datum) -> int {
    match d {
        Datum::Int(i) => i,
        _ => 0,
    }
}

/// `l + r` or `l - r`.
pub open spec fn arith_of(t: ArithmeticType, l: int, r: int) -> int {
    match t {
        ArithmeticType::Plus => l + r,
        ArithmeticType::Minus => l - r,
    }
}

/// Whether arithmetic on `l` and `r` is defined: one is null, or both are
/// 32-bit integers whose result is one too.
pub open spec fn arith_defined(t: ArithmeticType, l: ValueView, r: ValueView) -> bool {
    ||| l.datum is Null
    ||| r.datum is Null
    ||| {
        &&& l.datum is Int
        &&& r.datum is Int
        &&& i32::MIN <= int_of(l.datum) <= i32::MAX
        &&& i32::MIN <= int_of(r.datum) <= i32::MAX
        &&& i32::MIN <= arith_of(t, int_of(l.datum), int_of(r.datum)) <= i32::MAX
    }
}

/// The INTEGER result of arithmetic on `l` and `r`: null when either is null.
pub open spec fn arith_view(t: ArithmeticType, l: ValueView, r: ValueView) -> ValueView {
    if l.datum is Null || r.datum is Null {
        ValueView { type_id: TypeId::Integer, datum: Datum::Null }
    } else {
        ValueView {
            type_id: TypeId::Integer,
            datum: Datum::Int(arith_of(t, int_of(l.datum), int_of(r.datum))),
        }
    }
}

/// The lower- or upper-case form of `s`.
pub open spec fn string_op(t: StringExpressionType, s: Seq<char>) -> Seq<char> {
    match t {
        StringExpressionType::Lower => lowercase(s),
        StringExpressionType::Upper => uppercase(s),
    }
}

/// The value of column `col_idx` of the left tuple (`tuple_idx` 0) or of
/// the right one.
pub open spec fn column_view(
    tuple_idx: usize,
    col_idx: usize,
    left: Seq<ValueView>,
    right: Seq<ValueView>,
) -> ValueView {
    if tuple_idx == 0 {
        left[col_idx as int]
    } else {
        right[col_idx as int]
    }
}

/// The value of `e` on the pair of tuples `left`, `right` (a single tuple
/// is both). Arrays, whose values are floating point, are not evaluated here.
pub open spec fn eval(e: AbstractExpression, left: Seq<ValueView>, right: Seq<ValueView>) -> ValueView
    decreases e,
{
    match e {
        AbstractExpression::ConstantValue(c) => c.val@,
        AbstractExpression::ColumnValue(c) => column_view(c.tuple_idx, c.col_idx, left, right),
        AbstractExpression::Comparison(c) => bool_view(
            compare_views(c.comp_type, eval(*c.left, left, right), eval(*c.right, left, right)),
        ),
        AbstractExpression::Arithmetic(c) => arith_view(
            c.compute_type,
            eval(*c.left, left, right),
            eval(*c.right, left, right),
        ),
        AbstractExpression::Logic(c) => bool_view(
            logic_of(
                c.logic_type,
                truth_of(eval(*c.left, left, right)),
                truth_of(eval(*c.right, left, right)),
            ),
        ),
        AbstractExpression::String(c) => ValueView {
            type_id: TypeId::Varchar,
            datum: Datum::Str(string_op(c.expr_type, datum_text(eval(*c.arg, left, right).datum))),
        },
        AbstractExpression::Array(_) => arbitrary(),
    }
}

/// Whether `e` can be evaluated on `left`, `right`: every column it reads
/// exists, arithmetic stays within 32 bits, logic reads truth values, and it
/// holds no array.
pub open spec fn evaluable(e: AbstractExpression, left: Seq<ValueView>, right: Seq<ValueView>) -> bool
    decreases e,
{
    match e {
        AbstractExpression::ConstantValue(_) => true,
        AbstractExpression::ColumnValue(c) => if c.tuple_idx == 0 {
            c.col_idx < left.len()
        } else {
            c.col_idx < right.len()
        },
        AbstractExpression::Comparison(c) => evaluable(*c.left, left, right) && evaluable(
            *c.right,
            left,
            right,
        ),
        AbstractExpression::Arithmetic(c) => {
            &&& evaluable(*c.left, left, right)
            &&& evaluable(*c.right, left, right)
            &&& arith_defined(c.compute_type, eval(*c.left, left, right), eval(*c.right, left, right))
        },
        AbstractExpression::Logic(c) => {
            &&& evaluable(*c.left, left, right)
            &&& evaluable(*c.right, left, right)
            &&& truth_defined(eval(*c.left, left, right))
            &&& truth_defined(eval(*c.right, left, right))
        },
        AbstractExpression::String(c) => evaluable(*c.arg, left, right),
        AbstractExpression::Array(_) => false,
    }
}

/// A fixed-size result column `<val>` of type `t`.
pub open spec fn fixed_column(t: TypeId) -> ColumnView {
    ColumnView { name: "<val>"@, type_id: t, length: type_size(t, 0), offset: 0 }
}

/// A VARCHAR result column `<val>` of the given length.
pub open spec fn varchar_column(length: u32) -> ColumnView {
    ColumnView {
        name: "<val>"@,
        type_id: TypeId::Varchar,
        length: type_size(TypeId::Varchar, length),
        offset: 0,
    }
}

/// The result column of a constant of type `t`.
pub open spec fn constant_column(t: TypeId) -> ColumnView {
    if t == TypeId::Varchar {
        varchar_column(256)
    } else {
        fixed_column(t)
    }
}

/// The column that describes what `e` returns.
pub open spec fn return_column(e: AbstractExpression) -> ColumnView {
    match e {
        AbstractExpression::ConstantValue(c) => constant_column(c.val@.type_id),
        AbstractExpression::ColumnValue(c) => c.ret_type@,
        AbstractExpression::Comparison(_) => fixed_column(TypeId::Boolean),
        AbstractExpression::Arithmetic(_) => fixed_column(TypeId::Integer),
        AbstractExpression::Logic(_) => fixed_column(TypeId::Boolean),
        AbstractExpression::String(_) => varchar_column(256),
        AbstractExpression::Array(a) => varchar_column(a.children.len() as u32),
    }
}

/// The children of `e`, in order.
pub open spec fn children(e: AbstractExpression) -> Seq<AbstractExpression> {
    match e {
        AbstractExpression::Comparison(c) => seq![*c.left, *c.right],
        AbstractExpression::Arithmetic(c) => seq![*c.left, *c.right],
        AbstractExpression::Logic(c) => seq![*c.left, *c.right],
        AbstractExpression::String(c) => seq![*c.arg],
        AbstractExpression::Array(a) => a.children@,
        _ => Seq::empty(),
    }
}

/// How many children `clone_with_children` needs to rebuild `e`.
pub open spec fn needed_children(e: AbstractExpression) -> nat {
    match e {
        AbstractExpression::Comparison(_) => 2,
        AbstractExpression::Arithmetic(_) => 2,
        AbstractExpression::Logic(_) => 2,
        AbstractExpression::String(_) => 1,
        _ => 0,
    }
}

/// `e` with its children replaced by the first ones of `cs` (an array is
/// rebuilt by `clone_with_children` from the vector itself).
pub open spec fn with_children(e: AbstractExpression, cs: Seq<AbstractExpression>) -> AbstractExpression {
    match e {
        AbstractExpression::Comparison(c) => AbstractExpression::Comparison(
            ComparisonExpression {
                comp_type: c.comp_type,
                left: Box::new(cs[0]),
                right: Box::new(cs[1]),
            },
        ),
        AbstractExpression::Arithmetic(c) => AbstractExpression::Arithmetic(
            ArithmeticExpression {
                compute_type: c.compute_type,
                left: Box::new(cs[0]),
                right: Box::new(cs[1]),
            },
        ),
        AbstractExpression::Logic(c) => AbstractExpression::Logic(
            LogicExpression { logic_type: c.logic_type, left: Box::new(cs[0]), right: Box::new(cs[1]) },
        ),
        AbstractExpression::String(c) => AbstractExpression::String(
            StringExpression { expr_type: c.expr_type, arg: Box::new(cs[0]) },
        ),
        _ => e,
    }
}

/// The truth value of a boolean.
pub open spec fn cmp_of(b: bool) -> CmpBool {
    if b {
        CmpBool::CmpTrue
    } else {
        CmpBool::CmpFalse
    }
}

/// Three-valued AND and OR are commutative.
pub proof fn lemma_logic_commutative(t: LogicType, l: CmpBool, r: CmpBool)
    ensures
        logic_of(t, l, r) == logic_of(t, r, l),
{
}

/// On known truth values, three-valued AND and OR are the boolean ones; an
/// unknown operand leaves the result unknown unless the other decides it
/// (false for AND, true for OR).
pub proof fn lemma_logic_extends_boolean(a: bool, b: bool)
    ensures
        logic_of(LogicType::And, cmp_of(a), cmp_of(b)) == cmp_of(a && b),
        logic_of(LogicType::Or, cmp_of(a), cmp_of(b)) == cmp_of(a || b),
        logic_of(LogicType::And, CmpBool::CmpNull, cmp_of(b)) == (if b {
            CmpBool::CmpNull
        } else {
            CmpBool::CmpFalse
        }),
        logic_of(LogicType::Or, CmpBool::CmpNull, cmp_of(b)) == (if b {
            CmpBool::CmpTrue
        } else {
            CmpBool::CmpNull
        }),
{
}

/// A comparison with a null operand is unknown, whatever its kind.
pub proof fn lemma_compare_null(t: ComparisonType, l: ValueView, r: ValueView)
    requires
        l.datum is Null || r.datum is Null,
    ensures
        compare_views(t, l, r) == CmpBool::CmpNull,
{
}

/// Rebuilding an expression from its own children gives it back.
pub proof fn lemma_rebuild_from_own_children(e: AbstractExpression)
    requires
        !(e is Array),
    ensures
        children(e).len() >= needed_children(e),
        with_children(e, children(e)) == e,
{
}

/// Convert a three-valued comparison result into a boolean Value.
fn cmp_bool_to_value(result: CmpBool) -> (r: Value)
    ensures
        r@ == bool_view(result),
{
    match result {
        CmpBool::CmpTrue => Value::from_i8(TypeId::Boolean, 1),
        CmpBool::CmpFalse => Value::from_i8(TypeId::Boolean, 0),
        CmpBool::CmpNull => Value::from_i8(TypeId::Boolean, BUSTUB_BOOLEAN_NULL),
    }
}

/// Convert a Value to a CmpBool, handling null as CmpNull.
fn value_to_cmp_bool(val: &Value) -> (r: CmpBool)
    requires
        truth_defined(val@),
    ensures
        r == truth_of(val@),
{
    if val.is_null() {
        return CmpBool::CmpNull;
    }
    let b = val.get_as_i8();
    if b != 0 {
        CmpBool::CmpTrue
    } else {
        CmpBool::CmpFalse
    }
}

/// Perform a logic computation (And/Or) with three-valued logic.
fn perform_logic(lhs: Value, rhs: Value, logic_type: LogicType) -> (r: CmpBool)
    requires
        truth_defined(lhs@),
        truth_defined(rhs@),
    ensures
        r == logic_of(logic_type, truth_of(lhs@), truth_of(rhs@)),
{
    let l = value_to_cmp_bool(&lhs);
    let r = value_to_cmp_bool(&rhs);
    match logic_type {
        LogicType::And => {
            if l == CmpBool::CmpFalse || r == CmpBool::CmpFalse {
                return CmpBool::CmpFalse;
            }
            if l == CmpBool::CmpTrue && r == CmpBool::CmpTrue {
                return CmpBool::CmpTrue;
            }
            CmpBool::CmpNull
        },
        LogicType::Or => {
            if l == CmpBool::CmpFalse && r == CmpBool::CmpFalse {
                return CmpBool::CmpFalse;
            }
            if l == CmpBool::CmpTrue || r == CmpBool::CmpTrue {
                return CmpBool::CmpTrue;
            }
            CmpBool::CmpNull
        },
    }
}

/// Compute a string operation (lower or upper) on the input string.
fn compute_string(input: &str, expr_type: StringExpressionType) -> (r: String)
    ensures
        r@ == string_op(expr_type, input@),
{
    match expr_type {
        StringExpressionType::Lower => str_to_lowercase(input),
        StringExpressionType::Upper => str_to_uppercase(input),
    }
}

/// The name every result column carries.
fn val_name() -> (r: String)
    ensures
        r@ == "<val>"@,
{
    String::from_str("<val>")
}

/// Convert a Value to a Column by extracting its type information.
fn value_to_column(val: &Value) -> (r: Column)
    ensures
        r@ == constant_column(val@.type_id),
{
    let type_id = val.get_type_id();
    if type_id == TypeId::Varchar {
        Column::new_with_length(val_name(), TypeId::Varchar, 256)
    } else {
        Column::new(val_name(), type_id)
    }
}

impl AbstractExpression {

    /// Evaluate this expression against a single tuple.
    pub fn evaluate(&self, tuple: &Tuple, schema: &Schema) -> (r: Value)
        requires
            evaluable(*self, tuple@, tuple@),
        ensures
            r@ == eval(*self, tuple@, tuple@),
    {
        self.evaluate_in(tuple, schema, tuple, schema)
    }

    /// Evaluate this expression in the context of a join between two tuples.
    pub fn evaluate_join(
        &self,
        left_tuple: &Tuple,
        left_schema: &Schema,
        right_tuple: &Tuple,
        right_schema: &Schema,
    ) -> (r: Value)
        requires
            evaluable(*self, left_tuple@, right_tuple@),
        ensures
            r@ == eval(*self, left_tuple@, right_tuple@),
    {
        self.evaluate_in(left_tuple, left_schema, right_tuple, right_schema)
    }

    /// Get the return type of this expression.
    pub fn get_return_type(&self) -> (r: Column)
        ensures
            r@ == return_column(*self),
    {
        match self {
            AbstractExpression::ConstantValue(inner) => value_to_column(&inner.val),
            AbstractExpression::ColumnValue(inner) => inner.ret_type.duplicate(),
            AbstractExpression::Comparison(_) => Column::new(val_name(), TypeId::Boolean),
            AbstractExpression::Arithmetic(_) => Column::new(val_name(), TypeId::Integer),
            AbstractExpression::Logic(_) => Column::new(val_name(), TypeId::Boolean),
            AbstractExpression::String(_) => Column::new_with_length(val_name(), TypeId::Varchar, 256),
            AbstractExpression::Array(inner) => Column::new_with_length(
                val_name(),
                TypeId::Varchar,
                inner.children.len() as u32,
            ),
        }
    }

    /// Get the number of children of this expression.
    pub fn get_child_count(&self) -> (r: usize)
        ensures
            r == children(*self).len(),
    {
        match self {
            AbstractExpression::ConstantValue(_) => 0,
            AbstractExpression::ColumnValue(_) => 0,
            AbstractExpression::Comparison(_) => 2,
            AbstractExpression::Arithmetic(_) => 2,
            AbstractExpression::Logic(_) => 2,
            AbstractExpression::String(_) => 1,
            AbstractExpression::Array(inner) => inner.children.len(),
        }
    }

    /// Get the child at the given index.
    pub fn get_child_at(&self, child_idx: usize) -> (r: &AbstractExpression)
        requires
            child_idx < children(*self).len(),
        ensures
            *r == children(*self)[child_idx as int],
    {
        match self {
            AbstractExpression::Comparison(inner) => if child_idx == 0 {
                &inner.left
            } else {
                &inner.right
            },
            AbstractExpression::Arithmetic(inner) => if child_idx == 0 {
                &inner.left
            } else {
                &inner.right
            },
            AbstractExpression::Logic(inner) => if child_idx == 0 {
                &inner.left
            } else {
                &inner.right
            },
            AbstractExpression::String(inner) => &inner.arg,
            AbstractExpression::Array(inner) => &inner.children[child_idx],
            _ => {
                proof {
                    assert(false);
                }
                self
            },
        }
    }

    /// Get all children of this expression.
    pub fn get_children(&self) -> (r: Vec<&AbstractExpression>)
        ensures
            r@.len() == children(*self).len(),
            forall|i: int| 0 <= i < r@.len() ==> *r@[i] == children(*self)[i],
    {
        match self {
            AbstractExpression::Comparison(inner) => vec![&*inner.left, &*inner.right],
            AbstractExpression::Arithmetic(inner) => vec![&*inner.left, &*inner.right],
            AbstractExpression::Logic(inner) => vec![&*inner.left, &*inner.right],
            AbstractExpression::String(inner) => vec![&*inner.arg],
            AbstractExpression::Array(inner) => {
                let mut out: Vec<&AbstractExpression> = Vec::with_capacity(inner.children.len());
                let mut i: usize = 0;
                while i < inner.children.len()
                    invariant
                        0 <= i <= inner.children@.len(),
                        out@.len() == i,
                        forall|j: int| 0 <= j < i ==> *out@[j] == inner.children@[j],
                    decreases inner.children@.len() - i,
                {
                    out.push(&inner.children[i]);
                    i += 1;
                }
                out
            },
            _ => Vec::new(),
        }
    }

    /// Create a new expression with the same configuration but different children.
    pub fn clone_with_children(&self, children: Vec<AbstractExpression>) -> (r: AbstractExpression)
        requires
            children@.len() >= needed_children(*self),
        ensures
            match *self {
                AbstractExpression::Array(_) => r matches AbstractExpression::Array(a) && a.children@
                    == children@,
                _ => r == with_children(*self, children@),
            },
    {
        let mut children = children;
        match self {
            AbstractExpression::ConstantValue(inner) => AbstractExpression::ConstantValue(
                ConstantValueExpression { val: inner.val.duplicate() },
            ),
            AbstractExpression::ColumnValue(inner) => AbstractExpression::ColumnValue(
                ColumnValueExpression {
                    tuple_idx: inner.tuple_idx,
                    col_idx: inner.col_idx,
                    ret_type: inner.ret_type.duplicate(),
                },
            ),
            AbstractExpression::Comparison(inner) => {
                let right = children.remove(1);
                let left = children.remove(0);
                AbstractExpression::Comparison(
                    ComparisonExpression {
                        comp_type: inner.comp_type,
                        left: Box::new(left),
                        right: Box::new(right),
                    },
                )
            },
            AbstractExpression::Arithmetic(inner) => {
                let right = children.remove(1);
                let left = children.remove(0);
                AbstractExpression::Arithmetic(
                    ArithmeticExpression {
                        compute_type: inner.compute_type,
                        left: Box::new(left),
                        right: Box::new(right),
                    },
                )
            },
            AbstractExpression::Logic(inner) => {
                let right = children.remove(1);
                let left = children.remove(0);
                AbstractExpression::Logic(
                    LogicExpression {
                        logic_type: inner.logic_type,
                        left: Box::new(left),
                        right: Box::new(right),
                    },
                )
            },
            AbstractExpression::String(inner) => {
                let arg = children.remove(0);
                AbstractExpression::String(
                    StringExpression { expr_type: inner.expr_type, arg: Box::new(arg) },
                )
            },
            AbstractExpression::Array(_) => AbstractExpression::Array(ArrayExpression { children }),
        }
    }

    /// Create a new constant value expression.
    pub fn constant_value(val: Value) -> (r: AbstractExpression)
        ensures
            r == AbstractExpression::ConstantValue(ConstantValueExpression { val }),
    {
        AbstractExpression::ConstantValue(ConstantValueExpression { val })
    }

    /// Create a new column value expression.
    pub fn column_value(tuple_idx: usize, col_idx: usize, ret_type: Column) -> (r: AbstractExpression)
        ensures
            r == AbstractExpression::ColumnValue(
                ColumnValueExpression { tuple_idx, col_idx, ret_type },
            ),
    {
        AbstractExpression::ColumnValue(ColumnValueExpression { tuple_idx, col_idx, ret_type })
    }

    /// Create a new comparison expression.
    pub fn comparison(
        comp_type: ComparisonType,
        left: AbstractExpression,
        right: AbstractExpression,
    ) -> (r: AbstractExpression)
        ensures
            r == AbstractExpression::Comparison(
                ComparisonExpression { comp_type, left: Box::new(left), right: Box::new(right) },
            ),
    {
        AbstractExpression::Comparison(
            ComparisonExpression { comp_type, left: Box::new(left), right: Box::new(right) },
        )
    }

    /// Create a new arithmetic expression over two INTEGER operands.
    pub fn arithmetic(
        compute_type: ArithmeticType,
        left: AbstractExpression,
        right: AbstractExpression,
    ) -> (r: AbstractExpression)
        requires
            return_column(left).type_id == TypeId::Integer,
            return_column(right).type_id == TypeId::Integer,
        ensures
            r == AbstractExpression::Arithmetic(
                ArithmeticExpression { compute_type, left: Box::new(left), right: Box::new(right) },
            ),
    {
        AbstractExpression::Arithmetic(
            ArithmeticExpression { compute_type, left: Box::new(left), right: Box::new(right) },
        )
    }

    /// Create a new logic expression over two BOOLEAN operands.
    pub fn logic(logic_type: LogicType, left: AbstractExpression, right: AbstractExpression) -> (r:
        AbstractExpression)
        requires
            return_column(left).type_id == TypeId::Boolean,
            return_column(right).type_id == TypeId::Boolean,
        ensures
            r == AbstractExpression::Logic(
                LogicExpression { logic_type, left: Box::new(left), right: Box::new(right) },
            ),
    {
        AbstractExpression::Logic(
            LogicExpression { logic_type, left: Box::new(left), right: Box::new(right) },
        )
    }

    /// Create a new string expression over a VARCHAR operand.
    pub fn string(expr_type: StringExpressionType, arg: AbstractExpression) -> (r: AbstractExpression)
        requires
            return_column(arg).type_id == TypeId::Varchar,
        ensures
            r == AbstractExpression::String(StringExpression { expr_type, arg: Box::new(arg) }),
    {
        AbstractExpression::String(StringExpression { expr_type, arg: Box::new(arg) })
    }

    /// Create a new array expression from a list of children.
    pub fn array(children: Vec<AbstractExpression>) -> (r: AbstractExpression)
        ensures
            r == AbstractExpression::Array(ArrayExpression { children }),
    {
        AbstractExpression::Array(ArrayExpression { children })
    }
    /// Evaluate this expression on the pair of tuples `left`, `right`.
    fn evaluate_in(
        &self,
        left: &Tuple,
        left_schema: &Schema,
        right: &Tuple,
        right_schema: &Schema,
    ) -> (r: Value)
        requires
            evaluable(*self, left@, right@),
        ensures
            r@ == eval(*self, left@, right@),
        decreases self,
    {
        match self {
            AbstractExpression::ConstantValue(inner) => inner.val.duplicate(),
            AbstractExpression::ColumnValue(inner) => {
                if inner.tuple_idx == 0 {
                    left.get_value(left_schema, inner.col_idx)
                } else {
                    right.get_value(right_schema, inner.col_idx)
                }
            },
            AbstractExpression::Comparison(inner) => {
                let lhs = inner.left.evaluate_in(left, left_schema, right, right_schema);
                let rhs = inner.right.evaluate_in(left, left_schema, right, right_schema);
                let result = match inner.comp_type {
                    ComparisonType::Equal => lhs.compare_equals(&rhs),
                    ComparisonType::NotEqual => lhs.compare_not_equals(&rhs),
                    ComparisonType::LessThan => lhs.compare_less_than(&rhs),
                    ComparisonType::LessThanOrEqual => lhs.compare_less_than_equals(&rhs),
                    ComparisonType::GreaterThan => lhs.compare_greater_than(&rhs),
                    ComparisonType::GreaterThanOrEqual => lhs.compare_greater_than_equals(&rhs),
                };
                cmp_bool_to_value(result)
            },
            AbstractExpression::Arithmetic(inner) => {
                let lhs = inner.left.evaluate_in(left, left_schema, right, right_schema);
                let rhs = inner.right.evaluate_in(left, left_schema, right, right_schema);
                if lhs.is_null() || rhs.is_null() {
                    return ValueFactory::get_null_value_by_type(TypeId::Integer);
                }
                let l = lhs.get_as_i32();
                let r = rhs.get_as_i32();
                match inner.compute_type {
                    ArithmeticType::Plus => ValueFactory::get_integer_value(l + r),
                    ArithmeticType::Minus => ValueFactory::get_integer_value(l - r),
                }
            },
            AbstractExpression::Logic(inner) => {
                let lhs = inner.left.evaluate_in(left, left_schema, right, right_schema);
                let rhs = inner.right.evaluate_in(left, left_schema, right, right_schema);
                let result = perform_logic(lhs, rhs, inner.logic_type);
                cmp_bool_to_value(result)
            },
            AbstractExpression::String(inner) => {
                let val = inner.arg.evaluate_in(left, left_schema, right, right_schema);
                let str_val = val.to_string_val();
                let result = compute_string(str_val.as_str(), inner.expr_type);
                ValueFactory::get_varchar_value(result.as_str())
            },
            AbstractExpression::Array(_) => {
                proof {
                    assert(false);
                }
                Value::null(TypeId::Varchar)
            },
        }
    }
}

/// The symbol of a comparison.
pub open spec fn comparison_symbol(t: ComparisonType) -> Seq<char> {
    match t {
        ComparisonType::Equal => "="@,
        ComparisonType::NotEqual => "!="@,
        ComparisonType::LessThan => "<"@,
        ComparisonType::LessThanOrEqual => "<="@,
        ComparisonType::GreaterThan => ">"@,
        ComparisonType::GreaterThanOrEqual => ">="@,
    }
}

/// The symbol of an arithmetic operation.
pub open spec fn arithmetic_symbol(t: ArithmeticType) -> Seq<char> {
    match t {
        ArithmeticType::Plus => "+"@,
        ArithmeticType::Minus => "-"@,
    }
}

/// The word of a logic operation.
pub open spec fn logic_word(t: LogicType) -> Seq<char> {
    match t {
        LogicType::And => "and"@,
        LogicType::Or => "or"@,
    }
}

/// The name of a string function.
pub open spec fn string_function_name(t: StringExpressionType) -> Seq<char> {
    match t {
        StringExpressionType::Lower => "lower"@,
        StringExpressionType::Upper => "upper"@,
    }
}

/// The text of an expression: constants by their value, column values as
/// `#tuple.column`, operations in brackets, string functions applied,
/// arrays as their elements between square brackets.
pub open spec fn expression_text(e: AbstractExpression) -> Seq<char>
    decreases e,
{
    match e {
        AbstractExpression::ConstantValue(c) => datum_text(c.val@.datum),
        AbstractExpression::ColumnValue(c) => "#"@ + decimal(c.tuple_idx as nat) + "."@ + decimal(c.col_idx as nat),
        AbstractExpression::Comparison(c) => "("@ + expression_text(*c.left) + comparison_symbol(c.comp_type)
            + expression_text(*c.right) + ")"@,
        AbstractExpression::Arithmetic(c) => "("@ + expression_text(*c.left) + arithmetic_symbol(c.compute_type)
            + expression_text(*c.right) + ")"@,
        AbstractExpression::Logic(c) => "("@ + expression_text(*c.left) + logic_word(c.logic_type) + expression_text(
            *c.right,
        ) + ")"@,
        AbstractExpression::String(c) => string_function_name(c.expr_type) + "("@ + expression_text(*c.arg) + ")"@,
        AbstractExpression::Array(a) => "["@ + texts_joined(a.children@, a.children@.len() as int, e) + "]"@,
    }
}

/// The texts of the first `n` expressions of `es`, the children of `parent`,
/// joined by commas.
pub open spec fn texts_joined(es: Seq<AbstractExpression>, n: int, parent: AbstractExpression) -> Seq<char>
    decreases parent, n,
{
    if n <= 0 || n > es.len() || !(parent matches AbstractExpression::Array(a) && a.children@ == es) {
        Seq::empty()
    } else if n == 1 {
        expression_text(es[0])
    } else {
        texts_joined(es, n - 1, parent) + ","@ + expression_text(es[n - 1])
    }
}

impl AbstractExpression {
    /// The text of this expression.
    pub fn to_string(&self) -> (r: String)
        ensures
            r@ == expression_text(*self),
        decreases self,
    {
        proof {
            reveal_strlit("#");
            reveal_strlit(".");
            reveal_strlit("(");
            reveal_strlit(")");
            reveal_strlit("=");
            reveal_strlit("!=");
            reveal_strlit("<");
            reveal_strlit("<=");
            reveal_strlit(">");
            reveal_strlit(">=");
            reveal_strlit("+");
            reveal_strlit("-");
            reveal_strlit("and");
            reveal_strlit("or");
            reveal_strlit("lower");
            reveal_strlit("upper");
            reveal_strlit("[");
            reveal_strlit("]");
            reveal_strlit(",");
        }
        match self {
            AbstractExpression::ConstantValue(c) => c.val.to_string_val(),
            AbstractExpression::ColumnValue(c) => {
                let mut r = String::from_str("#");
                push_decimal(&mut r, c.tuple_idx as u64);
                r.append(".");
                push_decimal(&mut r, c.col_idx as u64);
                r
            },
            AbstractExpression::Comparison(c) => {
                let symbol = match c.comp_type {
                    ComparisonType::Equal => "=",
                    ComparisonType::NotEqual => "!=",
                    ComparisonType::LessThan => "<",
                    ComparisonType::LessThanOrEqual => "<=",
                    ComparisonType::GreaterThan => ">",
                    ComparisonType::GreaterThanOrEqual => ">=",
                };
                {
                    let l = c.left.to_string();
                    let rt = c.right.to_string();
                    Self::bracketed(l.as_str(), symbol, rt.as_str())
                }
            },
            AbstractExpression::Arithmetic(c) => {
                let symbol = match c.compute_type {
                    ArithmeticType::Plus => "+",
                    ArithmeticType::Minus => "-",
                };
                {
                    let l = c.left.to_string();
                    let rt = c.right.to_string();
                    Self::bracketed(l.as_str(), symbol, rt.as_str())
                }
            },
            AbstractExpression::Logic(c) => {
                let word = match c.logic_type {
                    LogicType::And => "and",
                    LogicType::Or => "or",
                };
                {
                    let l = c.left.to_string();
                    let rt = c.right.to_string();
                    Self::bracketed(l.as_str(), word, rt.as_str())
                }
            },
            AbstractExpression::String(c) => {
                let mut r = String::from_str(
                    match c.expr_type {
                        StringExpressionType::Lower => "lower",
                        StringExpressionType::Upper => "upper",
                    },
                );
                r.append("(");
                let inner = c.arg.to_string();
                r.append(inner.as_str());
                r.append(")");
                r
            },
            AbstractExpression::Array(a) => {
                let mut r = String::from_str("[");
                let mut i: usize = 0;
                while i < a.children.len()
                    invariant
                        0 <= i <= a.children@.len(),
                        *self == AbstractExpression::Array(*a),
                        r@ == "["@ + texts_joined(a.children@, i as int, *self),
                    decreases a.children@.len() - i,
                {
                    if i > 0 {
                        r.append(",");
                    }
                    proof {
                        assert(decreases_to!(*self => (*self)->Array_0));
                        assert(decreases_to!(*a => a.children));
                        assert(decreases_to!(a.children => a.children@));
                        assert(decreases_to!(a.children@ => a.children@[i as int]));
                    }
                    let t = a.children[i].to_string();
                    r.append(t.as_str());
                    i += 1;
                }
                r.append("]");
                r
            },
        }
    }

    /// `(left op right)`, from the operands' texts.
    fn bracketed(left: &str, op: &str, right: &str) -> (r: String)
        ensures
            r@ == "("@ + left@ + op@ + right@ + ")"@,
    {
        proof {
            reveal_strlit("(");
            reveal_strlit(")");
        }
        let mut r = String::from_str("(");
        r.append(left);
        r.append(op);
        r.append(right);
        r.append(")");
        r
    }
}

/// Whether `b` is a copy of `a`: the same tree of operations over the same
/// constants and columns.
pub open spec fn same_expression(a: AbstractExpression, b: AbstractExpression) -> bool
    decreases a,
{
    match (a, b) {
        (AbstractExpression::ConstantValue(x), AbstractExpression::ConstantValue(y)) => x == y,
        (AbstractExpression::ColumnValue(x), AbstractExpression::ColumnValue(y)) => x == y,
        (AbstractExpression::Comparison(x), AbstractExpression::Comparison(y)) => x.comp_type == y.comp_type
            && same_expression(*x.left, *y.left) && same_expression(*x.right, *y.right),
        (AbstractExpression::Arithmetic(x), AbstractExpression::Arithmetic(y)) => x.compute_type
            == y.compute_type && same_expression(*x.left, *y.left) && same_expression(*x.right, *y.right),
        (AbstractExpression::Logic(x), AbstractExpression::Logic(y)) => x.logic_type == y.logic_type
            && same_expression(*x.left, *y.left) && same_expression(*x.right, *y.right),
        (AbstractExpression::String(x), AbstractExpression::String(y)) => x.expr_type == y.expr_type
            && same_expression(*x.arg, *y.arg),
        (AbstractExpression::Array(x), AbstractExpression::Array(y)) => x.children@.len() == y.children@.len()
            && forall|i: int|
            0 <= i < x.children@.len() ==> same_expression(
                #[trigger] x.children@[i],
                y.children@[i],
            ),
        _ => false,
    }
}

impl AbstractExpression {
    /// A deep copy of this expression.
    pub fn duplicate(&self) -> (r: AbstractExpression)
        ensures
            same_expression(*self, r),
        decreases self,
    {
        match self {
            AbstractExpression::ConstantValue(c) => AbstractExpression::ConstantValue(
                ConstantValueExpression { val: c.val.duplicate() },
            ),
            AbstractExpression::ColumnValue(c) => AbstractExpression::ColumnValue(
                ColumnValueExpression { tuple_idx: c.tuple_idx, col_idx: c.col_idx, ret_type: c.ret_type.duplicate() },
            ),
            AbstractExpression::Comparison(c) => AbstractExpression::Comparison(
                ComparisonExpression {
                    comp_type: c.comp_type,
                    left: Box::new(c.left.duplicate()),
                    right: Box::new(c.right.duplicate()),
                },
            ),
            AbstractExpression::Arithmetic(c) => AbstractExpression::Arithmetic(
                ArithmeticExpression {
                    compute_type: c.compute_type,
                    left: Box::new(c.left.duplicate()),
                    right: Box::new(c.right.duplicate()),
                },
            ),
            AbstractExpression::Logic(c) => AbstractExpression::Logic(
                LogicExpression {
                    logic_type: c.logic_type,
                    left: Box::new(c.left.duplicate()),
                    right: Box::new(c.right.duplicate()),
                },
            ),
            AbstractExpression::String(c) => AbstractExpression::String(
                StringExpression { expr_type: c.expr_type, arg: Box::new(c.arg.duplicate()) },
            ),
            AbstractExpression::Array(a) => {
                let mut children: Vec<AbstractExpression> = Vec::new();
                let mut i: usize = 0;
                while i < a.children.len()
                    invariant
                        0 <= i <= a.children@.len(),
                        *self == AbstractExpression::Array(*a),
                        children@.len() == i,
                        forall|k: int| 0 <= k < i ==> same_expression(#[trigger] a.children@[k], children@[k]),
                    decreases a.children@.len() - i,
                {
                    proof {
                        assert(decreases_to!(*self => (*self)->Array_0));
                        assert(decreases_to!(*a => a.children));
                        assert(decreases_to!(a.children => a.children@));
                        assert(decreases_to!(a.children@ => a.children@[i as int]));
                    }
                    let c = a.children[i].duplicate();
                    children.push(c);
                    i += 1;
                }
                AbstractExpression::Array(ArrayExpression { children })
            },
        }
    }
}

/// Joined texts agree when the texts of the elements agree.
proof fn lemma_texts_joined_agree(
    xa: Seq<AbstractExpression>,
    xb: Seq<AbstractExpression>,
    n: int,
    pa: AbstractExpression,
    pb: AbstractExpression,
)
    requires
        xa.len() == xb.len(),
        0 <= n <= xa.len(),
        pa matches AbstractExpression::Array(a) && a.children@ == xa,
        pb matches AbstractExpression::Array(b) && b.children@ == xb,
        forall|i: int| 0 <= i < xa.len() ==> expression_text(#[trigger] xa[i]) == expression_text(xb[i]),
    ensures
        texts_joined(xa, n, pa) == texts_joined(xb, n, pb),
    decreases n,
{
    if n > 1 {
        lemma_texts_joined_agree(xa, xb, n - 1, pa, pb);
    }
}

/// A copy of an expression prints as the expression does and has its
/// return column.
pub proof fn lemma_copy_prints_the_same(a: AbstractExpression, b: AbstractExpression)
    requires
        same_expression(a, b),
    ensures
        expression_text(a) == expression_text(b),
        return_column(a) == return_column(b),
    decreases a,
{
    match (a, b) {
        (AbstractExpression::Comparison(x), AbstractExpression::Comparison(y)) => {
            lemma_copy_prints_the_same(*x.left, *y.left);
            lemma_copy_prints_the_same(*x.right, *y.right);
        },
        (AbstractExpression::Arithmetic(x), AbstractExpression::Arithmetic(y)) => {
            lemma_copy_prints_the_same(*x.left, *y.left);
            lemma_copy_prints_the_same(*x.right, *y.right);
        },
        (AbstractExpression::Logic(x), AbstractExpression::Logic(y)) => {
            lemma_copy_prints_the_same(*x.left, *y.left);
            lemma_copy_prints_the_same(*x.right, *y.right);
        },
        (AbstractExpression::String(x), AbstractExpression::String(y)) => {
            lemma_copy_prints_the_same(*x.arg, *y.arg);
        },
        (AbstractExpression::Array(x), AbstractExpression::Array(y)) => {
            assert forall|i: int| 0 <= i < x.children@.len() implies expression_text(
                #[trigger] x.children@[i],
            ) == expression_text(y.children@[i]) by {
                assert(same_expression(x.children@[i], y.children@[i]));
                assert(decreases_to!(a => a->Array_0));
                assert(decreases_to!(a->Array_0 => x.children));
                assert(decreases_to!(x.children => x.children@));
                assert(decreases_to!(x.children@ => x.children@[i]));
                lemma_copy_prints_the_same(x.children@[i], y.children@[i]);
            }
            lemma_texts_joined_agree(x.children@, y.children@, x.children@.len() as int, a, b);
        },
        _ => {},
    }
}

/// Whether every column that `e` reads is a column of the left tuple.
pub open spec fn reads_left_only(e: AbstractExpression) -> bool
    decreases e,
{
    match e {
        AbstractExpression::ConstantValue(_) => true,
        AbstractExpression::ColumnValue(c) => c.tuple_idx == 0,
        AbstractExpression::Comparison(c) => reads_left_only(*c.left) && reads_left_only(*c.right),
        AbstractExpression::Arithmetic(c) => reads_left_only(*c.left) && reads_left_only(*c.right),
        AbstractExpression::Logic(c) => reads_left_only(*c.left) && reads_left_only(*c.right),
        AbstractExpression::String(c) => reads_left_only(*c.arg),
        AbstractExpression::Array(_) => true,
    }
}

/// An expression that reads only the left tuple has the same value in a
/// join (`evaluate_join(lt, ls, rt, rs)`) as on the left tuple alone
/// (`evaluate(lt, ls)`), whatever the right tuple, and it can be evaluated
/// in the join exactly when it can be evaluated on the left tuple alone.
pub proof fn law_join_reads_left_only(e: AbstractExpression, left: Seq<ValueView>, right: Seq<ValueView>)
    requires
        reads_left_only(e),
    ensures
        eval(e, left, right) == eval(e, left, left),
        evaluable(e, left, right) == evaluable(e, left, left),
    decreases e,
{
    match e {
        AbstractExpression::Comparison(c) => {
            law_join_reads_left_only(*c.left, left, right);
            law_join_reads_left_only(*c.right, left, right);
        },
        AbstractExpression::Arithmetic(c) => {
            law_join_reads_left_only(*c.left, left, right);
            law_join_reads_left_only(*c.right, left, right);
        },
        AbstractExpression::Logic(c) => {
            law_join_reads_left_only(*c.left, left, right);
            law_join_reads_left_only(*c.right, left, right);
        },
        AbstractExpression::String(c) => {
            law_join_reads_left_only(*c.arg, left, right);
        },
        _ => {},
    }
}

/// A column of the right tuple reads the right tuple in a join.
pub proof fn law_right_column_reads_right(c: ColumnValueExpression, left: Seq<ValueView>, right: Seq<ValueView>)
    requires
        c.tuple_idx == 1,
    ensures
        eval(AbstractExpression::ColumnValue(c), left, right) == right[c.col_idx as int],
{
}

/// A comparison of two integers evaluates to the BOOLEAN 1 exactly when the
/// integers stand in the order it names (`=`, `!=`, `<`, `<=`, `>`, `>=`),
/// and to the BOOLEAN 0 otherwise; in particular `x >= x` and `x <= x` are
/// true and `x > x` and `x < x` false.
pub proof fn law_integer_comparisons(
    c: ComparisonExpression,
    left: Seq<ValueView>,
    right: Seq<ValueView>,
    x: int,
    y: int,
)
    requires
        eval(*c.left, left, right).datum == Datum::Int(x),
        eval(*c.right, left, right).datum == Datum::Int(y),
    ensures
        ({
            let holds = match c.comp_type {
                ComparisonType::Equal => x == y,
                ComparisonType::NotEqual => x != y,
                ComparisonType::LessThan => x < y,
                ComparisonType::LessThanOrEqual => x <= y,
                ComparisonType::GreaterThan => x > y,
                ComparisonType::GreaterThanOrEqual => x >= y,
            };
            eval(AbstractExpression::Comparison(c), left, right) == ValueView {
                type_id: TypeId::Boolean,
                datum: Datum::Int(if holds { 1 } else { 0 }),
            }
        }),
{
}

/// On values that can be compared (neither null, both integers or both
/// strings), each comparison is the negation of its opposite: `>=` is not
/// `<`, `<=` is not `>`, `!=` is not `=`; and exactly one of `<`, `=`, `>`
/// holds.
pub proof fn law_comparison_complements(l: ValueView, r: ValueView)
    requires
        (l.datum is Int && r.datum is Int) || (l.datum is Str && r.datum is Str),
    ensures
        compare_views(ComparisonType::GreaterThanOrEqual, l, r) == not_of(compare_views(ComparisonType::LessThan, l, r)),
        compare_views(ComparisonType::LessThanOrEqual, l, r) == not_of(compare_views(ComparisonType::GreaterThan, l, r)),
        compare_views(ComparisonType::NotEqual, l, r) == not_of(compare_views(ComparisonType::Equal, l, r)),
        compare_views(ComparisonType::LessThan, l, r) != CmpBool::CmpNull,
        (compare_views(ComparisonType::LessThan, l, r) == CmpBool::CmpTrue) as int
            + (compare_views(ComparisonType::Equal, l, r) == CmpBool::CmpTrue) as int
            + (compare_views(ComparisonType::GreaterThan, l, r) == CmpBool::CmpTrue) as int == 1,
{
}

/// The negation of a known truth value; unknown stays unknown.
pub open spec fn not_of(b: CmpBool) -> CmpBool {
    match b {
        CmpBool::CmpTrue => CmpBool::CmpFalse,
        CmpBool::CmpFalse => CmpBool::CmpTrue,
        CmpBool::CmpNull => CmpBool::CmpNull,
    }
}

/// Arithmetic on two integers `x` and `y` gives the INTEGER `x + y` (`+`)
/// or `x - y` (`-`); with a null operand it gives the INTEGER null.
pub proof fn law_integer_arithmetic(
    c: ArithmeticExpression,
    left: Seq<ValueView>,
    right: Seq<ValueView>,
    x: int,
    y: int,
)
    requires
        eval(*c.left, left, right).datum == Datum::Int(x),
        eval(*c.right, left, right).datum == Datum::Int(y),
    ensures
        eval(AbstractExpression::Arithmetic(c), left, right) == (ValueView {
            type_id: TypeId::Integer,
            datum: Datum::Int(
                if c.compute_type == ArithmeticType::Plus {
                    x + y
                } else {
                    x - y
                },
            ),
        }),
{
}

/// Arithmetic with a null operand gives the INTEGER null.
pub proof fn law_arithmetic_on_null(c: ArithmeticExpression, left: Seq<ValueView>, right: Seq<ValueView>)
    requires
        eval(*c.left, left, right).datum is Null || eval(*c.right, left, right).datum is Null,
    ensures
        eval(AbstractExpression::Arithmetic(c), left, right) == (ValueView {
            type_id: TypeId::Integer,
            datum: Datum::Null,
        }),
{
}

/// AND and OR of two truth values stored as BOOLEAN 1 (true) or 0 (false)
/// give the BOOLEAN of the boolean AND and OR.
pub proof fn law_boolean_logic(c: LogicExpression, left: Seq<ValueView>, right: Seq<ValueView>, a: bool, b: bool)
    requires
        eval(*c.left, left, right).datum == Datum::Int(if a { 1 } else { 0 }),
        eval(*c.right, left, right).datum == Datum::Int(if b { 1 } else { 0 }),
    ensures
        eval(AbstractExpression::Logic(c), left, right) == (ValueView {
            type_id: TypeId::Boolean,
            datum: Datum::Int(
                if (c.logic_type == LogicType::And && a && b) || (c.logic_type == LogicType::Or && (a || b)) {
                    1
                } else {
                    0
                },
            ),
        }),
{
}

} // verus!
