use vstd::prelude::*;

use crate::binder::error::BindError;
use crate::binder::sql::SqlBinaryOperator;
use crate::sql_type::value::{datum_text, Value};

verus! {

/// Window boundary types for window functions.
#[derive(Debug, Clone, Copy, PartialEq, Eq, Structural)]
pub enum WindowBoundary {
    Invalid,
    UnboundedPreceding,
    UnboundedFollowing,
    CurrentRowRange,
    CurrentRowRows,
    ExprPrecedingRows,
    ExprFollowingRows,
    ExprPrecedingRange,
    ExprFollowingRange,
}

/// All types of order-bys in binder.
#[derive(Debug, Clone, Copy, PartialEq, Eq, Structural)]
pub enum OrderByType {
    Invalid,
    Default,
    Asc,
    Desc,
}

/// BoundOrderBy is an item in the ORDER BY clause.
pub struct BoundOrderBy {
    pub order_by_type: OrderByType,
    pub expr: Box<BoundExpression>,
}

/// All types of bound expressions.
pub enum BoundExpression {
    BoundColumnRef(BoundColumnRef),
    BoundConstant(BoundConstant),
    BoundStar,
    BoundAlias(BoundAlias),
    BoundBinaryOp(BoundBinaryOp),
    BoundUnaryOp(BoundUnaryOp),
    BoundFuncCall(BoundFuncCall),
    BoundAggCall(BoundAggCall),
    BoundWindow(BoundWindow),
}

/// A bound column reference, e.g., `y.x` in the SELECT list.
pub struct BoundColumnRef {
    pub col_names: Vec<String>,
}

/// A bound constant, e.g., `1`.
pub struct BoundConstant {
    pub val: Value,
}

/// The alias in SELECT list, e.g. `SELECT count(x) AS y`, the `y` is an alias.
pub struct BoundAlias {
    pub alias: String,
    pub child: Box<BoundExpression>,
}

/// The binary operators the binder knows.
#[derive(Debug, Clone, Copy, PartialEq, Eq, Structural)]
pub enum BoundBinaryOperator {
    Plus,
    Minus,
    Multiply,
    Divide,
    Modulo,
    StringConcat,
    Gt,
    Lt,
    GtEq,
    LtEq,
    Spaceship,
    Eq,
    NotEq,
    And,
    Or,
}

/// A bound binary operator, e.g., `a+b`.
pub struct BoundBinaryOp {
    pub op: BoundBinaryOperator,
    pub larg: Box<BoundExpression>,
    pub rarg: Box<BoundExpression>,
}

/// A bound unary operation, e.g., `-x`.
pub struct BoundUnaryOp {
    pub op_name: String,
    pub arg: Box<BoundExpression>,
}

/// A bound func call, e.g., `lower(x)`.
pub struct BoundFuncCall {
    pub func_name: String,
    pub args: Vec<BoundExpression>,
}

/// A bound aggregate call, e.g., `sum(x)`.
pub struct BoundAggCall {
    pub func_name: String,
    pub is_distinct: bool,
    pub args: Vec<BoundExpression>,
}

/// A bound window aggregation, e.g., `sum(x) OVER (...)`.
pub struct BoundWindow {
    pub func_name: String,
    pub args: Vec<BoundExpression>,
    pub partition_by: Vec<BoundExpression>,
    pub order_bys: Vec<BoundOrderBy>,
    pub start_offset: Option<Box<BoundExpression>>,
    pub end_offset: Option<Box<BoundExpression>>,
    pub start: WindowBoundary,
    pub end: WindowBoundary,
}

/// Whether `e` holds an aggregate call: itself, under an alias, or in an
/// operand of an operator.
pub open spec fn has_agg(e: BoundExpression) -> bool
    decreases e,
{
    match e {
        BoundExpression::BoundAggCall(_) => true,
        BoundExpression::BoundAlias(a) => has_agg(*a.child),
        BoundExpression::BoundBinaryOp(op) => has_agg(*op.larg) || has_agg(*op.rarg),
        BoundExpression::BoundUnaryOp(op) => has_agg(*op.arg),
        _ => false,
    }
}

/// Whether `e` holds a window function: itself, under an alias, or in an
/// operand of an operator.
pub open spec fn has_window(e: BoundExpression) -> bool
    decreases e,
{
    match e {
        BoundExpression::BoundWindow(_) => true,
        BoundExpression::BoundAlias(a) => has_window(*a.child),
        BoundExpression::BoundBinaryOp(op) => has_window(*op.larg) || has_window(*op.rarg),
        BoundExpression::BoundUnaryOp(op) => has_window(*op.arg),
        _ => false,
    }
}

impl BoundExpression {
    /// Returns true if this expression contains an aggregation function.
    pub fn has_aggregation(&self) -> (r: bool)
        ensures
            r == has_agg(*self),
        decreases self,
    {
        match self {
            BoundExpression::BoundAggCall(_) => true,
            BoundExpression::BoundAlias(alias) => alias.child.has_aggregation(),
            BoundExpression::BoundBinaryOp(op) => op.larg.has_aggregation()
                || op.rarg.has_aggregation(),
            BoundExpression::BoundUnaryOp(op) => op.arg.has_aggregation(),
            _ => false,
        }
    }

    /// Returns true if this expression contains a window function.
    pub fn has_window_function(&self) -> (r: bool)
        ensures
            r == has_window(*self),
        decreases self,
    {
        match self {
            BoundExpression::BoundWindow(_) => true,
            BoundExpression::BoundAlias(alias) => alias.child.has_window_function(),
            BoundExpression::BoundBinaryOp(op) => op.larg.has_window_function()
                || op.rarg.has_window_function(),
            BoundExpression::BoundUnaryOp(op) => op.arg.has_window_function(),
            _ => false,
        }
    }
}

/// The names of a column reference joined by dots.
pub open spec fn dotted(names: Seq<Seq<char>>) -> Seq<char>
    decreases names.len(),
{
    if names.len() == 0 {
        Seq::empty()
    } else if names.len() == 1 {
        names[0]
    } else {
        dotted(names.drop_last()) + seq!['.'] + names.last()
    }
}

/// The name of a binary operator, as its debug form shows it.
pub open spec fn binary_op_name(op: BoundBinaryOperator) -> Seq<char> {
    match op {
        BoundBinaryOperator::Plus => "Plus"@,
        BoundBinaryOperator::Minus => "Minus"@,
        BoundBinaryOperator::Multiply => "Multiply"@,
        BoundBinaryOperator::Divide => "Divide"@,
        BoundBinaryOperator::Modulo => "Modulo"@,
        BoundBinaryOperator::StringConcat => "StringConcat"@,
        BoundBinaryOperator::Gt => "Gt"@,
        BoundBinaryOperator::Lt => "Lt"@,
        BoundBinaryOperator::GtEq => "GtEq"@,
        BoundBinaryOperator::LtEq => "LtEq"@,
        BoundBinaryOperator::Spaceship => "Spaceship"@,
        BoundBinaryOperator::Eq => "Eq"@,
        BoundBinaryOperator::NotEq => "NotEq"@,
        BoundBinaryOperator::And => "And"@,
        BoundBinaryOperator::Or => "Or"@,
    }
}

/// The name of an order-by direction.
pub open spec fn order_by_name(t: OrderByType) -> Seq<char> {
    match t {
        OrderByType::Invalid => "Invalid"@,
        OrderByType::Default => "Default"@,
        OrderByType::Asc => "Ascending"@,
        OrderByType::Desc => "Descending"@,
    }
}

impl OrderByType {
    /// The name of this direction.
    pub fn to_str(&self) -> (r: &'static str)
        ensures
            r@ == order_by_name(*self),
    {
        match self {
            OrderByType::Invalid => "Invalid",
            OrderByType::Default => "Default",
            OrderByType::Asc => "Ascending",
            OrderByType::Desc => "Descending",
        }
    }

    /// The name of this direction, as a string.
    pub fn to_string(&self) -> (r: String)
        ensures
            r@ == order_by_name(*self),
    {
        String::from_str(self.to_str())
    }
}

/// The name of a window frame boundary.
pub open spec fn window_boundary_name(b: WindowBoundary) -> Seq<char> {
    match b {
        WindowBoundary::Invalid => "INVALID"@,
        WindowBoundary::UnboundedPreceding => "UNBOUNDED PRECEDING"@,
        WindowBoundary::UnboundedFollowing => "UNBOUNDED FOLLOWING"@,
        WindowBoundary::CurrentRowRange => "CURRENT ROW RANGE"@,
        WindowBoundary::CurrentRowRows => "CURRENT ROW ROWS"@,
        WindowBoundary::ExprPrecedingRows => "EXPR PRECEDING ROWS"@,
        WindowBoundary::ExprFollowingRows => "EXPR FOLLOWING ROWS"@,
        WindowBoundary::ExprPrecedingRange => "EXPR PRECEDING RANGE"@,
        WindowBoundary::ExprFollowingRange => "EXPR FOLLOWING RANGE"@,
    }
}

impl WindowBoundary {
    /// The name of this boundary.
    pub fn to_string(&self) -> (r: String)
        ensures
            r@ == window_boundary_name(*self),
    {
        String::from_str(
            match self {
                WindowBoundary::Invalid => "INVALID",
                WindowBoundary::UnboundedPreceding => "UNBOUNDED PRECEDING",
                WindowBoundary::UnboundedFollowing => "UNBOUNDED FOLLOWING",
                WindowBoundary::CurrentRowRange => "CURRENT ROW RANGE",
                WindowBoundary::CurrentRowRows => "CURRENT ROW ROWS",
                WindowBoundary::ExprPrecedingRows => "EXPR PRECEDING ROWS",
                WindowBoundary::ExprFollowingRows => "EXPR FOLLOWING ROWS",
                WindowBoundary::ExprPrecedingRange => "EXPR PRECEDING RANGE",
                WindowBoundary::ExprFollowingRange => "EXPR FOLLOWING RANGE",
            },
        )
    }
}

/// The text of a bound expression.
pub open spec fn expr_text(e: BoundExpression) -> Seq<char>
    decreases e,
{
    match e {
        BoundExpression::BoundColumnRef(c) => dotted(c.names()),
        BoundExpression::BoundConstant(c) => datum_text(c.val@.datum),
        BoundExpression::BoundStar => "*"@,
        BoundExpression::BoundAlias(a) => "("@ + expr_text(*a.child) + " as "@ + a.alias@ + ")"@,
        BoundExpression::BoundBinaryOp(b) => "("@ + expr_text(*b.larg) + binary_op_name(b.op)
            + expr_text(*b.rarg) + ")"@,
        BoundExpression::BoundUnaryOp(u) => "("@ + u.op_name@ + expr_text(*u.arg) + ")"@,
        BoundExpression::BoundFuncCall(f) => f.func_name@ + "("@ + list_text(f.args@) + ")"@,
        BoundExpression::BoundAggCall(a) => a.func_name@ + (if a.is_distinct {
            "_distinct"@
        } else {
            Seq::empty()
        }) + "("@ + list_text(a.args@) + ")"@,
        BoundExpression::BoundWindow(w) => w.func_name@ + "("@ + list_text(w.args@)
            + ") Over {\n  partition_by=["@ + list_text(w.partition_by@) + "],\n  order_by=["@
            + order_list_text(w.order_bys@) + "]\n}"@,
    }
}

/// The texts of `es`, separated by `, `.
pub open spec fn list_text(es: Seq<BoundExpression>) -> Seq<char>
    decreases es,
{
    if es.len() == 0 {
        Seq::empty()
    } else if es.len() == 1 {
        expr_text(es[0])
    } else {
        list_text(es.drop_last()) + ", "@ + expr_text(es.last())
    }
}

/// The text of an ORDER BY item.
pub open spec fn order_text(o: BoundOrderBy) -> Seq<char>
    decreases o,
{
    "BoundOrderBy { type="@ + order_by_name(o.order_by_type) + ", expr="@ + expr_text(*o.expr) + " }"@
}

/// The texts of ORDER BY items, separated by `, `.
pub open spec fn order_list_text(os: Seq<BoundOrderBy>) -> Seq<char>
    decreases os,
{
    if os.len() == 0 {
        Seq::empty()
    } else if os.len() == 1 {
        order_text(os[0])
    } else {
        order_list_text(os.drop_last()) + ", "@ + order_text(os.last())
    }
}

/// The texts of `es`, separated by `, `.
fn list_to_string(es: &Vec<BoundExpression>) -> (r: String)
    ensures
        r@ == list_text(es@),
    decreases es,
{
    let mut r = String::new();
    let mut i: usize = 0;
    while i < es.len()
        invariant
            0 <= i <= es@.len(),
            r@ == list_text(es@.take(i as int)),
        decreases es@.len() - i,
    {
        proof {
            reveal_strlit(", ");
            assert(es@.take(i as int + 1).drop_last() =~= es@.take(i as int));
        }
        if i > 0 {
            r.append(", ");
        }
        let t = es[i].to_string();
        r.append(t.as_str());
        i += 1;
        assert(r@ =~= list_text(es@.take(i as int)));
    }
    assert(es@.take(i as int) =~= es@);
    r
}

/// The texts of ORDER BY items, separated by `, `.
fn order_list_to_string(os: &Vec<BoundOrderBy>) -> (r: String)
    ensures
        r@ == order_list_text(os@),
    decreases os,
{
    let mut r = String::new();
    let mut i: usize = 0;
    while i < os.len()
        invariant
            0 <= i <= os@.len(),
            r@ == order_list_text(os@.take(i as int)),
        decreases os@.len() - i,
    {
        proof {
            reveal_strlit(", ");
            assert(os@.take(i as int + 1).drop_last() =~= os@.take(i as int));
        }
        if i > 0 {
            r.append(", ");
        }
        let t = os[i].to_string();
        r.append(t.as_str());
        i += 1;
        assert(r@ =~= order_list_text(os@.take(i as int)));
    }
    assert(os@.take(i as int) =~= os@);
    r
}

/// The name of a binary operator.
fn binary_op_str(op: BoundBinaryOperator) -> (r: &'static str)
    ensures
        r@ == binary_op_name(op),
{
    match op {
        BoundBinaryOperator::Plus => "Plus",
        BoundBinaryOperator::Minus => "Minus",
        BoundBinaryOperator::Multiply => "Multiply",
        BoundBinaryOperator::Divide => "Divide",
        BoundBinaryOperator::Modulo => "Modulo",
        BoundBinaryOperator::StringConcat => "StringConcat",
        BoundBinaryOperator::Gt => "Gt",
        BoundBinaryOperator::Lt => "Lt",
        BoundBinaryOperator::GtEq => "GtEq",
        BoundBinaryOperator::LtEq => "LtEq",
        BoundBinaryOperator::Spaceship => "Spaceship",
        BoundBinaryOperator::Eq => "Eq",
        BoundBinaryOperator::NotEq => "NotEq",
        BoundBinaryOperator::And => "And",
        BoundBinaryOperator::Or => "Or",
    }
}

impl BoundOrderBy {
    /// The text of this ORDER BY item.
    pub fn to_string(&self) -> (r: String)
        ensures
            r@ == order_text(*self),
        decreases self,
    {
        proof {
            reveal_strlit("BoundOrderBy { type=");
            reveal_strlit(", expr=");
            reveal_strlit(" }");
        }
        let mut r = String::from_str("BoundOrderBy { type=");
        r.append(self.order_by_type.to_str());
        r.append(", expr=");
        let e = self.expr.to_string();
        r.append(e.as_str());
        r.append(" }");
        r
    }
}

impl BoundExpression {
    /// The text of this expression.
    pub fn to_string(&self) -> (r: String)
        ensures
            r@ == expr_text(*self),
        decreases self,
    {
        proof {
            reveal_strlit("*");
            reveal_strlit("(");
            reveal_strlit(")");
            reveal_strlit(" as ");
            reveal_strlit("_distinct");
            reveal_strlit(") Over {\n  partition_by=[");
            reveal_strlit("],\n  order_by=[");
            reveal_strlit("]\n}");
        }
        match self {
            BoundExpression::BoundColumnRef(c) => c.to_string(),
            BoundExpression::BoundConstant(c) => c.val.to_string_val(),
            BoundExpression::BoundStar => String::from_str("*"),
            BoundExpression::BoundAlias(a) => {
                let mut r = String::from_str("(");
                let t = a.child.to_string();
                r.append(t.as_str());
                r.append(" as ");
                r.append(a.alias.as_str());
                r.append(")");
                r
            },
            BoundExpression::BoundBinaryOp(b) => {
                let mut r = String::from_str("(");
                let l = b.larg.to_string();
                r.append(l.as_str());
                r.append(binary_op_str(b.op));
                let rt = b.rarg.to_string();
                r.append(rt.as_str());
                r.append(")");
                r
            },
            BoundExpression::BoundUnaryOp(u) => {
                let mut r = String::from_str("(");
                r.append(u.op_name.as_str());
                let t = u.arg.to_string();
                r.append(t.as_str());
                r.append(")");
                r
            },
            BoundExpression::BoundFuncCall(f) => {
                let mut r = f.func_name.clone();
                r.append("(");
                let t = list_to_string(&f.args);
                r.append(t.as_str());
                r.append(")");
                r
            },
            BoundExpression::BoundAggCall(a) => {
                let mut r = a.func_name.clone();
                if a.is_distinct {
                    r.append("_distinct");
                }
                r.append("(");
                let t = list_to_string(&a.args);
                r.append(t.as_str());
                r.append(")");
                r
            },
            BoundExpression::BoundWindow(w) => {
                let mut r = w.func_name.clone();
                r.append("(");
                let t = list_to_string(&w.args);
                r.append(t.as_str());
                r.append(") Over {\n  partition_by=[");
                let p = list_to_string(&w.partition_by);
                r.append(p.as_str());
                r.append("],\n  order_by=[");
                let o = order_list_to_string(&w.order_bys);
                r.append(o.as_str());
                r.append("]\n}");
                r
            },
        }
    }
}

impl BoundColumnRef {
    /// The names, as plain strings.
    pub open spec fn names(&self) -> Seq<Seq<char>> {
        self.col_names@.map_values(|s: String| s@)
    }

    /// Prepend a prefix to the column name.
    pub fn prepend(self: Box<Self>, prefix: String) -> (r: Box<BoundColumnRef>)
        ensures
            r.col_names@ == seq![prefix] + self.col_names@,
    {
        let mut col_name: Vec<String> = vec![prefix];
        let mut rest = self.col_names;
        col_name.append(&mut rest);
        Box::new(BoundColumnRef { col_names: col_name })
    }

    /// The column reference as text: its names joined by dots.
    pub fn to_string(&self) -> (r: String)
        ensures
            r@ == dotted(self.names()),
    {
        let mut r = String::new();
        let mut i: usize = 0;
        while i < self.col_names.len()
            invariant
                0 <= i <= self.col_names@.len(),
                r@ == dotted(self.names().take(i as int)),
            decreases self.col_names@.len() - i,
        {
            proof {
                reveal_strlit(".");
                assert(self.names().take(i as int + 1).drop_last() =~= self.names().take(i as int));
            }
            if i > 0 {
                r.append(".");
            }
            r.append(self.col_names[i].as_str());
            i += 1;
            proof {
                if i == 1 {
                    assert(r@ =~= dotted(self.names().take(i as int)));
                } else {
                    assert(r@ =~= dotted(self.names().take(i as int)));
                }
            }
        }
        assert(self.names().take(i as int) =~= self.names());
        r
    }
}

impl BoundWindow {
    pub fn set_start(&mut self, start: WindowBoundary)
        ensures
            final(self).start == start,
            final(self).end == old(self).end,
            final(self).func_name == old(self).func_name,
            final(self).args == old(self).args,
            final(self).partition_by == old(self).partition_by,
            final(self).order_bys == old(self).order_bys,
            final(self).start_offset == old(self).start_offset,
            final(self).end_offset == old(self).end_offset,
    {
        self.start = start;
    }

    pub fn set_end(&mut self, end: WindowBoundary)
        ensures
            final(self).end == end,
            final(self).start == old(self).start,
            final(self).func_name == old(self).func_name,
            final(self).args == old(self).args,
            final(self).partition_by == old(self).partition_by,
            final(self).order_bys == old(self).order_bys,
            final(self).start_offset == old(self).start_offset,
            final(self).end_offset == old(self).end_offset,
    {
        self.end = end;
    }
}

/// The bound operator a SQL binary operator stands for, if the binder knows it.
pub open spec fn binary_operator_of(op: SqlBinaryOperator) -> Option<BoundBinaryOperator> {
    match op {
        SqlBinaryOperator::Plus => Some(BoundBinaryOperator::Plus),
        SqlBinaryOperator::Minus => Some(BoundBinaryOperator::Minus),
        SqlBinaryOperator::Multiply => Some(BoundBinaryOperator::Multiply),
        SqlBinaryOperator::Divide => Some(BoundBinaryOperator::Divide),
        SqlBinaryOperator::Modulo => Some(BoundBinaryOperator::Modulo),
        SqlBinaryOperator::StringConcat => Some(BoundBinaryOperator::StringConcat),
        SqlBinaryOperator::Gt => Some(BoundBinaryOperator::Gt),
        SqlBinaryOperator::Lt => Some(BoundBinaryOperator::Lt),
        SqlBinaryOperator::GtEq => Some(BoundBinaryOperator::GtEq),
        SqlBinaryOperator::LtEq => Some(BoundBinaryOperator::LtEq),
        SqlBinaryOperator::Spaceship => Some(BoundBinaryOperator::Spaceship),
        SqlBinaryOperator::Eq => Some(BoundBinaryOperator::Eq),
        SqlBinaryOperator::NotEq => Some(BoundBinaryOperator::NotEq),
        SqlBinaryOperator::And => Some(BoundBinaryOperator::And),
        SqlBinaryOperator::Or => Some(BoundBinaryOperator::Or),
        SqlBinaryOperator::Other(_) => None,
    }
}

impl BoundBinaryOperator {
    /// The bound form of a SQL binary operator; an error naming any other operator.
    pub fn from(op: &SqlBinaryOperator) -> (r: Result<Self, BindError>)
        ensures
            match r {
                Ok(b) => binary_operator_of(*op) == Some(b),
                Err(e) => binary_operator_of(*op) is None && (op matches SqlBinaryOperator::Other(t)
                    && (e matches BindError::UnsupportedBinaryOperator(m) && m@ == t@)),
            },
    {
        match op {
            SqlBinaryOperator::Plus => Ok(BoundBinaryOperator::Plus),
            SqlBinaryOperator::Minus => Ok(BoundBinaryOperator::Minus),
            SqlBinaryOperator::Multiply => Ok(BoundBinaryOperator::Multiply),
            SqlBinaryOperator::Divide => Ok(BoundBinaryOperator::Divide),
            SqlBinaryOperator::Modulo => Ok(BoundBinaryOperator::Modulo),
            SqlBinaryOperator::StringConcat => Ok(BoundBinaryOperator::StringConcat),
            SqlBinaryOperator::Gt => Ok(BoundBinaryOperator::Gt),
            SqlBinaryOperator::Lt => Ok(BoundBinaryOperator::Lt),
            SqlBinaryOperator::GtEq => Ok(BoundBinaryOperator::GtEq),
            SqlBinaryOperator::LtEq => Ok(BoundBinaryOperator::LtEq),
            SqlBinaryOperator::Spaceship => Ok(BoundBinaryOperator::Spaceship),
            SqlBinaryOperator::Eq => Ok(BoundBinaryOperator::Eq),
            SqlBinaryOperator::NotEq => Ok(BoundBinaryOperator::NotEq),
            SqlBinaryOperator::And => Ok(BoundBinaryOperator::And),
            SqlBinaryOperator::Or => Ok(BoundBinaryOperator::Or),
            SqlBinaryOperator::Other(t) => Err(BindError::UnsupportedBinaryOperator(t.clone())),
        }
    }
}

} // verus!
