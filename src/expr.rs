use vstd::prelude::*;
use crate::column::Number;

verus! {

/// A query expression over the dataset, as the library builds it before handing it to the
/// columnar engine. Each variant stands for one operation of the engine's expression language.
#[derive(Debug)]
pub enum Expr {
    /// The values of the named column.
    Column(String),
    /// A constant.
    Literal(Number),
    /// Per row: whether the operand is not null (never null itself).
    IsNotNull(Box<Expr>),
    /// Per row: whether the operand is null (never null itself).
    IsNull(Box<Expr>),
    /// Per row: whether the operand's value occurs exactly once in the column.
    IsUnique(Box<Expr>),
    /// Per row: logical negation; null stays null.
    Not(Box<Expr>),
    /// Per row: left > right; null if either side is null.
    Gt(Box<Expr>, Box<Expr>),
    /// Per row: left >= right; null if either side is null.
    GtEq(Box<Expr>, Box<Expr>),
    /// Per row: left < right; null if either side is null.
    Lt(Box<Expr>, Box<Expr>),
    /// Per row: left <= right; null if either side is null.
    LtEq(Box<Expr>, Box<Expr>),
    /// Per row: logical conjunction.
    And(Box<Expr>, Box<Expr>),
    /// Reduction: true iff no non-null value of the operand is false.
    AllNonNull(Box<Expr>),
    /// Reduction: the number of true values of a boolean operand.
    Sum(Box<Expr>),
    /// The operand, under an output column name.
    Alias(Box<Expr>, String),
}

impl Expr {
    /// A copy of the expression, equal to it.
    pub fn duplicate(&self) -> (r: Expr)
        ensures
            r == *self,
        decreases self,
    {
        match self {
            Expr::Column(c) => Expr::Column(c.clone()),
            Expr::Literal(n) => Expr::Literal(n.duplicate()),
            Expr::IsNotNull(a) => Expr::IsNotNull(Box::new(a.duplicate())),
            Expr::IsNull(a) => Expr::IsNull(Box::new(a.duplicate())),
            Expr::IsUnique(a) => Expr::IsUnique(Box::new(a.duplicate())),
            Expr::Not(a) => Expr::Not(Box::new(a.duplicate())),
            Expr::Gt(a, b) => Expr::Gt(Box::new(a.duplicate()), Box::new(b.duplicate())),
            Expr::GtEq(a, b) => Expr::GtEq(Box::new(a.duplicate()), Box::new(b.duplicate())),
            Expr::Lt(a, b) => Expr::Lt(Box::new(a.duplicate()), Box::new(b.duplicate())),
            Expr::LtEq(a, b) => Expr::LtEq(Box::new(a.duplicate()), Box::new(b.duplicate())),
            Expr::And(a, b) => Expr::And(Box::new(a.duplicate()), Box::new(b.duplicate())),
            Expr::AllNonNull(a) => Expr::AllNonNull(Box::new(a.duplicate())),
            Expr::Sum(a) => Expr::Sum(Box::new(a.duplicate())),
            Expr::Alias(a, n) => Expr::Alias(Box::new(a.duplicate()), n.clone()),
        }
    }

    /// `self >= other`, or `self > other` when `strict`.
    pub fn at_least(self, other: Expr, strict: bool) -> (r: Expr)
        ensures
            r == (if strict {
                Expr::Gt(Box::new(self), Box::new(other))
            } else {
                Expr::GtEq(Box::new(self), Box::new(other))
            }),
    {
        if strict {
            Expr::Gt(Box::new(self), Box::new(other))
        } else {
            Expr::GtEq(Box::new(self), Box::new(other))
        }
    }

    /// `self <= other`, or `self < other` when `strict`.
    pub fn at_most(self, other: Expr, strict: bool) -> (r: Expr)
        ensures
            r == (if strict {
                Expr::Lt(Box::new(self), Box::new(other))
            } else {
                Expr::LtEq(Box::new(self), Box::new(other))
            }),
    {
        if strict {
            Expr::Lt(Box::new(self), Box::new(other))
        } else {
            Expr::LtEq(Box::new(self), Box::new(other))
        }
    }
}

} // verus!
