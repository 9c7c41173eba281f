//! Expressions over the columns of a frame.

use crate::datatypes::dtype::DataType;
use crate::error::{PolarsError, Result};
use vstd::prelude::*;

verus! {

/// A binary operator.
#[derive(Copy, Clone, Debug, PartialEq, Eq, Hash, Structural)]
pub enum Operator {
    Eq,
    NotEq,
    Lt,
    LtEq,
    Gt,
    GtEq,
    Plus,
    Minus,
    Multiply,
    Divide,
    Modulus,
    And,
    Or,
}

/// A constant. Floating-point constants are held as their IEEE 754 bit
/// patterns.
#[derive(Debug, PartialEq)]
pub enum LiteralValue {
    Null,
    Boolean(bool),
    Utf8(String),
    UInt32(u32),
    UInt64(u64),
    Int32(i32),
    Int64(i64),
    Float32(u32),
    Float64(u64),
}

/// The way in which the values of a group are combined into one.
#[derive(Copy, Clone, Debug, PartialEq, Eq, Hash, Structural)]
pub enum AggKind {
    Min,
    Max,
    Sum,
    Mean,
    First,
    Last,
    Count,
    NUnique,
    List,
}

/// An expression: a recipe that computes a column from the columns of a
/// frame.
#[derive(Debug, PartialEq)]
pub enum Expr {
    /// The expression under another name.
    Alias(Box<Expr>, String),
    /// The column with the given name.
    Column(String),
    Literal(LiteralValue),
    BinaryExpr { left: Box<Expr>, op: Operator, right: Box<Expr> },
    Not(Box<Expr>),
    IsNotNull(Box<Expr>),
    IsNull(Box<Expr>),
    IsNan(Box<Expr>),
    Cast { expr: Box<Expr>, data_type: DataType },
    /// An aggregation of the values of the inner expression.
    Agg(AggKind, Box<Expr>),
    /// Where the predicate holds, the first value, and else the second.
    Ternary { predicate: Box<Expr>, truthy: Box<Expr>, falsy: Box<Expr> },
    /// Stands for every column of the frame.
    Wildcard,
}

impl Clone for LiteralValue {
    fn clone(&self) -> (r: Self)
        ensures
            r == *self,
    {
        match self {
            LiteralValue::Null => LiteralValue::Null,
            LiteralValue::Boolean(v) => LiteralValue::Boolean(*v),
            LiteralValue::Utf8(v) => LiteralValue::Utf8(v.clone()),
            LiteralValue::UInt32(v) => LiteralValue::UInt32(*v),
            LiteralValue::UInt64(v) => LiteralValue::UInt64(*v),
            LiteralValue::Int32(v) => LiteralValue::Int32(*v),
            LiteralValue::Int64(v) => LiteralValue::Int64(*v),
            LiteralValue::Float32(v) => LiteralValue::Float32(*v),
            LiteralValue::Float64(v) => LiteralValue::Float64(*v),
        }
    }
}

impl LiteralValue {
    /// The data type of the constant.
    pub open spec fn dtype(self) -> DataType {
        match self {
            LiteralValue::Null => DataType::Null,
            LiteralValue::Boolean(_) => DataType::Boolean,
            LiteralValue::Utf8(_) => DataType::Utf8,
            LiteralValue::UInt32(_) => DataType::UInt32,
            LiteralValue::UInt64(_) => DataType::UInt64,
            LiteralValue::Int32(_) => DataType::Int32,
            LiteralValue::Int64(_) => DataType::Int64,
            LiteralValue::Float32(_) => DataType::Float32,
            LiteralValue::Float64(_) => DataType::Float64,
        }
    }

    /// Getter for the `DataType` of the value.
    pub fn get_datatype(&self) -> (r: DataType)
        ensures
            r == self.dtype(),
    {
        match self {
            LiteralValue::Null => DataType::Null,
            LiteralValue::Boolean(_) => DataType::Boolean,
            LiteralValue::Utf8(_) => DataType::Utf8,
            LiteralValue::UInt32(_) => DataType::UInt32,
            LiteralValue::UInt64(_) => DataType::UInt64,
            LiteralValue::Int32(_) => DataType::Int32,
            LiteralValue::Int64(_) => DataType::Int64,
            LiteralValue::Float32(_) => DataType::Float32,
            LiteralValue::Float64(_) => DataType::Float64,
        }
    }
}

impl Clone for Expr {
    fn clone(&self) -> (r: Self)
        ensures
            r == *self,
        decreases self,
    {
        match self {
            Expr::Alias(e, name) => Expr::Alias(Box::new((&**e).clone()), name.clone()),
            Expr::Column(name) => Expr::Column(name.clone()),
            Expr::Literal(v) => Expr::Literal(v.clone()),
            Expr::BinaryExpr { left, op, right } => Expr::BinaryExpr {
                left: Box::new((&**left).clone()),
                op: *op,
                right: Box::new((&**right).clone()),
            },
            Expr::Not(e) => Expr::Not(Box::new((&**e).clone())),
            Expr::IsNotNull(e) => Expr::IsNotNull(Box::new((&**e).clone())),
            Expr::IsNull(e) => Expr::IsNull(Box::new((&**e).clone())),
            Expr::IsNan(e) => Expr::IsNan(Box::new((&**e).clone())),
            Expr::Cast { expr, data_type } => Expr::Cast {
                expr: Box::new((&**expr).clone()),
                data_type: data_type.clone(),
            },
            Expr::Agg(kind, e) => Expr::Agg(*kind, Box::new((&**e).clone())),
            Expr::Ternary { predicate, truthy, falsy } => Expr::Ternary {
                predicate: Box::new((&**predicate).clone()),
                truthy: Box::new((&**truthy).clone()),
                falsy: Box::new((&**falsy).clone()),
            },
            Expr::Wildcard => Expr::Wildcard,
        }
    }
}

/// The first of two optional values that is there.
pub open spec fn first_of(a: Option<String>, b: Option<String>) -> Option<String> {
    match a {
        Some(_) => a,
        None => b,
    }
}

impl Expr {
    /// Whether the wildcard occurs in the expression.
    pub open spec fn contains_wildcard(self) -> bool
        decreases self,
    {
        match self {
            Expr::Alias(e, _) => e.contains_wildcard(),
            Expr::Column(_) => false,
            Expr::Literal(_) => false,
            Expr::BinaryExpr { left, op, right } => left.contains_wildcard()
                || right.contains_wildcard(),
            Expr::Not(e) => e.contains_wildcard(),
            Expr::IsNotNull(e) => e.contains_wildcard(),
            Expr::IsNull(e) => e.contains_wildcard(),
            Expr::IsNan(e) => e.contains_wildcard(),
            Expr::Cast { expr, data_type } => expr.contains_wildcard(),
            Expr::Agg(_, e) => e.contains_wildcard(),
            Expr::Ternary { predicate, truthy, falsy } => predicate.contains_wildcard()
                || truthy.contains_wildcard() || falsy.contains_wildcard(),
            Expr::Wildcard => true,
        }
    }

    /// The expression with every wildcard replaced by the column `name`.
    pub open spec fn with_column_for_wildcard(self, name: String) -> Expr
        decreases self,
    {
        match self {
            Expr::Alias(e, alias) => Expr::Alias(
                Box::new(e.with_column_for_wildcard(name)),
                alias,
            ),
            Expr::Column(c) => Expr::Column(c),
            Expr::Literal(v) => Expr::Literal(v),
            Expr::BinaryExpr { left, op, right } => Expr::BinaryExpr {
                left: Box::new(left.with_column_for_wildcard(name)),
                op,
                right: Box::new(right.with_column_for_wildcard(name)),
            },
            Expr::Not(e) => Expr::Not(Box::new(e.with_column_for_wildcard(name))),
            Expr::IsNotNull(e) => Expr::IsNotNull(Box::new(e.with_column_for_wildcard(name))),
            Expr::IsNull(e) => Expr::IsNull(Box::new(e.with_column_for_wildcard(name))),
            Expr::IsNan(e) => Expr::IsNan(Box::new(e.with_column_for_wildcard(name))),
            Expr::Cast { expr, data_type } => Expr::Cast {
                expr: Box::new(expr.with_column_for_wildcard(name)),
                data_type,
            },
            Expr::Agg(kind, e) => Expr::Agg(kind, Box::new(e.with_column_for_wildcard(name))),
            Expr::Ternary { predicate, truthy, falsy } => Expr::Ternary {
                predicate: Box::new(predicate.with_column_for_wildcard(name)),
                truthy: Box::new(truthy.with_column_for_wildcard(name)),
                falsy: Box::new(falsy.with_column_for_wildcard(name)),
            },
            Expr::Wildcard => Expr::Column(name),
        }
    }

    /// The name under which the result of the expression is known: the name
    /// of the first alias or column that is met when the expression is read
    /// from the outside in, the left operand before the right, and the
    /// values of a conditional before its predicate.
    pub open spec fn output_name(self) -> Option<String>
        decreases self,
    {
        match self {
            Expr::Alias(_, name) => Some(name),
            Expr::Column(name) => Some(name),
            Expr::Literal(_) => None,
            Expr::BinaryExpr { left, op, right } => first_of(
                left.output_name(),
                right.output_name(),
            ),
            Expr::Not(e) => e.output_name(),
            Expr::IsNotNull(e) => e.output_name(),
            Expr::IsNull(e) => e.output_name(),
            Expr::IsNan(e) => e.output_name(),
            Expr::Cast { expr, data_type } => expr.output_name(),
            Expr::Agg(_, e) => e.output_name(),
            Expr::Ternary { predicate, truthy, falsy } => first_of(
                truthy.output_name(),
                first_of(falsy.output_name(), predicate.output_name()),
            ),
            Expr::Wildcard => None,
        }
    }

    /// The column that a grouping key stands for: the column under any
    /// number of aliases.
    pub open spec fn key_column(self) -> Option<String>
        decreases self,
    {
        match self {
            Expr::Column(name) => Some(name),
            Expr::Alias(e, _) => e.key_column(),
            _ => None,
        }
    }

    /// Whether the wildcard occurs in the expression.
    pub fn has_wildcard(&self) -> (r: bool)
        ensures
            r == self.contains_wildcard(),
        decreases self,
    {
        match self {
            Expr::Alias(e, _) => (&**e).has_wildcard(),
            Expr::Column(_) => false,
            Expr::Literal(_) => false,
            Expr::BinaryExpr { left, op, right } => (&**left).has_wildcard()
                || (&**right).has_wildcard(),
            Expr::Not(e) => (&**e).has_wildcard(),
            Expr::IsNotNull(e) => (&**e).has_wildcard(),
            Expr::IsNull(e) => (&**e).has_wildcard(),
            Expr::IsNan(e) => (&**e).has_wildcard(),
            Expr::Cast { expr, data_type } => (&**expr).has_wildcard(),
            Expr::Agg(_, e) => (&**e).has_wildcard(),
            Expr::Ternary { predicate, truthy, falsy } => (&**predicate).has_wildcard()
                || (&**truthy).has_wildcard() || (&**falsy).has_wildcard(),
            Expr::Wildcard => true,
        }
    }

    /// Replaces every wildcard by the column `name`.
    pub fn replace_wildcard_with_column(self, name: &String) -> (r: Expr)
        ensures
            r == self.with_column_for_wildcard(*name),
        decreases self,
    {
        match self {
            Expr::Alias(e, alias) => Expr::Alias(
                Box::new((*e).replace_wildcard_with_column(name)),
                alias,
            ),
            Expr::Column(c) => Expr::Column(c),
            Expr::Literal(v) => Expr::Literal(v),
            Expr::BinaryExpr { left, op, right } => Expr::BinaryExpr {
                left: Box::new((*left).replace_wildcard_with_column(name)),
                op,
                right: Box::new((*right).replace_wildcard_with_column(name)),
            },
            Expr::Not(e) => Expr::Not(Box::new((*e).replace_wildcard_with_column(name))),
            Expr::IsNotNull(e) => Expr::IsNotNull(
                Box::new((*e).replace_wildcard_with_column(name)),
            ),
            Expr::IsNull(e) => Expr::IsNull(Box::new((*e).replace_wildcard_with_column(name))),
            Expr::IsNan(e) => Expr::IsNan(Box::new((*e).replace_wildcard_with_column(name))),
            Expr::Cast { expr, data_type } => Expr::Cast {
                expr: Box::new((*expr).replace_wildcard_with_column(name)),
                data_type,
            },
            Expr::Agg(kind, e) => Expr::Agg(
                kind,
                Box::new((*e).replace_wildcard_with_column(name)),
            ),
            Expr::Ternary { predicate, truthy, falsy } => Expr::Ternary {
                predicate: Box::new((*predicate).replace_wildcard_with_column(name)),
                truthy: Box::new((*truthy).replace_wildcard_with_column(name)),
                falsy: Box::new((*falsy).replace_wildcard_with_column(name)),
            },
            Expr::Wildcard => Expr::Column(name.clone()),
        }
    }

    /// The name of the first alias or column in the expression, if there is
    /// one.
    pub fn root_name(&self) -> (r: Option<&String>)
        ensures
            match r {
                Some(name) => self.output_name() == Some(*name),
                None => self.output_name() is None,
            },
        decreases self,
    {
        match self {
            Expr::Alias(_, name) => Some(name),
            Expr::Column(name) => Some(name),
            Expr::Literal(_) => None,
            Expr::BinaryExpr { left, op, right } => match (&**left).root_name() {
                Some(name) => Some(name),
                None => (&**right).root_name(),
            },
            Expr::Not(e) => (&**e).root_name(),
            Expr::IsNotNull(e) => (&**e).root_name(),
            Expr::IsNull(e) => (&**e).root_name(),
            Expr::IsNan(e) => (&**e).root_name(),
            Expr::Cast { expr, data_type } => (&**expr).root_name(),
            Expr::Agg(_, e) => (&**e).root_name(),
            Expr::Ternary { predicate, truthy, falsy } => match (&**truthy).root_name() {
                Some(name) => Some(name),
                None => match (&**falsy).root_name() {
                    Some(name) => Some(name),
                    None => (&**predicate).root_name(),
                },
            },
            Expr::Wildcard => None,
        }
    }

    /// The column that a grouping key stands for, if it is a column under
    /// any number of aliases.
    pub fn key_column_name(&self) -> (r: Option<&String>)
        ensures
            match r {
                Some(name) => self.key_column() == Some(*name),
                None => self.key_column() is None,
            },
        decreases self,
    {
        match self {
            Expr::Column(name) => Some(name),
            Expr::Alias(e, _) => (&**e).key_column_name(),
            _ => None,
        }
    }

    /// The expression under the name `name`.
    pub fn alias(self, name: &str) -> (r: Expr)
        ensures
            r matches Expr::Alias(e, n) && *e == self && n@ == name@,
    {
        Expr::Alias(Box::new(self), String::from_str(name))
    }

    /// Whether the values of the expression are null.
    pub fn is_null(self) -> (r: Expr)
        ensures
            r == Expr::IsNull(Box::new(self)),
    {
        Expr::IsNull(Box::new(self))
    }

    /// Whether the values of the expression are not a number.
    pub fn is_nan(self) -> (r: Expr)
        ensures
            r == Expr::IsNan(Box::new(self)),
    {
        Expr::IsNan(Box::new(self))
    }

    /// The conjunction of this predicate and `other`.
    pub fn and(self, other: Expr) -> (r: Expr)
        ensures
            r == (Expr::BinaryExpr {
                left: Box::new(self),
                op: Operator::And,
                right: Box::new(other),
            }),
    {
        Expr::BinaryExpr { left: Box::new(self), op: Operator::And, right: Box::new(other) }
    }
}

/// The column with the given name, or the wildcard for the name `*`.
pub fn col(name: &str) -> (r: Expr)
    ensures
        name@ == "*"@ ==> r is Wildcard,
        name@ != "*"@ ==> (r matches Expr::Column(n) && n@ == name@),
{
    if crate::text::str_eq(name, "*") {
        Expr::Wildcard
    } else {
        Expr::Column(String::from_str(name))
    }
}

/// The name of the first alias or column in the expression.
pub fn expr_output_name(expr: &Expr) -> (r: Result<String>)
    ensures
        match r {
            Ok(name) => expr.output_name() == Some(name),
            Err(e) => {
                &&& expr.output_name() is None
                &&& e matches PolarsError::ComputeError(m)
                &&& m@ == "No root column name could be found for the expression"@
            },
        },
{
    match expr.root_name() {
        Some(name) => Ok(name.clone()),
        None => Err(
            PolarsError::ComputeError(
                String::from_str("No root column name could be found for the expression"),
            ),
        ),
    }
}

/// The conjunction of the predicates, associated to the left.
pub open spec fn conjunction(predicates: Seq<Expr>) -> Expr
    recommends
        predicates.len() > 0,
    decreases predicates.len(),
{
    if predicates.len() <= 1 {
        predicates[0]
    } else {
        Expr::BinaryExpr {
            left: Box::new(conjunction(predicates.drop_last())),
            op: Operator::And,
            right: Box::new(predicates.last()),
        }
    }
}

/// Combines the predicates into one that holds where all of them hold.
pub fn combine_predicates_expr(predicates: Vec<Expr>) -> (r: Expr)
    requires
        predicates@.len() > 0,
    ensures
        r == conjunction(predicates@),
{
    let ghost all = predicates@;
    let mut rest = predicates;
    let mut taken: Vec<Expr> = Vec::new();
    // Take the predicates from the back, then fold them from the front.
    while rest.len() > 0
        invariant
            rest@.len() + taken@.len() == all.len(),
            forall|j: int| 0 <= j < rest@.len() ==> rest@[j] == all[j],
            forall|j: int| 0 <= j < taken@.len() ==> taken@[j] == all[all.len() - 1 - j],
        decreases rest@.len(),
    {
        let e = rest.pop().unwrap();
        taken.push(e);
    }
    let mut single = taken.pop().unwrap();
    let ghost mut k: int = 1;
    assert(all.take(1) =~= seq![all[0]]);
    while taken.len() > 0
        invariant
            1 <= k <= all.len(),
            taken@.len() == all.len() - k,
            forall|j: int| 0 <= j < taken@.len() ==> taken@[j] == all[all.len() - 1 - j],
            single == conjunction(all.take(k)),
        decreases taken@.len(),
    {
        let e = taken.pop().unwrap();
        assert(e == all[k]);
        assert(all.take(k + 1).drop_last() =~= all.take(k));
        assert(all.take(k + 1).last() == all[k]);
        single = single.and(e);
        proof {
            k = k + 1;
        }
    }
    assert(all.take(all.len() as int) =~= all);
    single
}

} // verus!
