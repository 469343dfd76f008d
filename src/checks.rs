use vstd::prelude::*;
use polars::prelude::DataFrame;
use crate::column::{aggregates_of, ColumnMapCheck, MapCheck, MinMax, MinMaxOpts};
use crate::error::InternalError;
use crate::expr::Expr;
use crate::results::CheckResult;

verus! {

/// What every kind of check offers: the named aggregates it asks the engine for, and the
/// decoding of its one-row result frame back into an outcome.
pub trait ComputeCheck {
    /// The per-row predicate the check aggregates.
    spec fn core_predicate(&self) -> Expr;

    /// The column-map part: target column and identity, which names the aggregates.
    spec fn column_map(&self) -> ColumnMapCheck;

    /// The four named aggregates of the predicate.
    fn expressions(&self) -> (r: Vec<Expr>)
        ensures
            aggregates_of(r@, self.core_predicate(), self.column_map().id()),
    ;

    /// The outcome, read from the first row of the frame the engine produced for the
    /// aggregates, under the check's own four names.
    fn get_result(&self, result_df: &DataFrame) -> (r: Result<CheckResult, InternalError>)
        ensures
            self.column_map().reads_frame(*result_df, r),
    ;
}

/// Every row of the column is not null.
#[derive(Debug)]
pub struct IsNotNull {
    pub column: ColumnMapCheck,
}

/// Every value of the column occurs exactly once.
#[derive(Debug)]
pub struct IsUnique {
    pub column: ColumnMapCheck,
}

/// Every non-null value of the column lies within the bounds.
#[derive(Debug)]
pub struct IsBetween {
    pub column: ColumnMapCheck,
    pub min_max: MinMax,
}

/// The expression that reads the column a check targets.
pub open spec fn column_expr(c: ColumnMapCheck) -> Expr {
    Expr::Column(c.column)
}

fn read_column(c: &ColumnMapCheck) -> (r: Expr)
    ensures
        r == column_expr(*c),
{
    Expr::Column(c.column.clone())
}

impl IsNotNull {
    pub fn new(column: &str) -> (r: IsNotNull)
        ensures
            r.column.column@ == column@,
            r.column.wf(),
    {
        IsNotNull { column: ColumnMapCheck::new(column) }
    }

    /// The per-row predicate: the value is not null.
    pub open spec fn predicate(&self) -> Expr {
        Expr::IsNotNull(Box::new(column_expr(self.column)))
    }

    fn core_expression(&self) -> (r: Expr)
        ensures
            r == self.predicate(),
    {
        Expr::IsNotNull(Box::new(read_column(&self.column)))
    }
}

impl ComputeCheck for IsNotNull {
    open spec fn core_predicate(&self) -> Expr {
        self.predicate()
    }

    open spec fn column_map(&self) -> ColumnMapCheck {
        self.column
    }

    fn expressions(&self) -> (r: Vec<Expr>) {
        self.column.expressions(self.core_expression())
    }

    fn get_result(&self, result_df: &DataFrame) -> Result<CheckResult, InternalError> {
        self.column.get_result(result_df)
    }
}

impl IsUnique {
    pub fn new(column: &str) -> (r: IsUnique)
        ensures
            r.column.column@ == column@,
            r.column.wf(),
    {
        IsUnique { column: ColumnMapCheck::new(column) }
    }

    /// The per-row predicate: the value occurs exactly once in the column.
    pub open spec fn predicate(&self) -> Expr {
        Expr::IsUnique(Box::new(column_expr(self.column)))
    }

    fn core_expression(&self) -> (r: Expr)
        ensures
            r == self.predicate(),
    {
        Expr::IsUnique(Box::new(read_column(&self.column)))
    }
}

impl ComputeCheck for IsUnique {
    open spec fn core_predicate(&self) -> Expr {
        self.predicate()
    }

    open spec fn column_map(&self) -> ColumnMapCheck {
        self.column
    }

    fn expressions(&self) -> (r: Vec<Expr>) {
        self.column.expressions(self.core_expression())
    }

    fn get_result(&self, result_df: &DataFrame) -> Result<CheckResult, InternalError> {
        self.column.get_result(result_df)
    }
}

impl IsBetween {
    pub fn new(column: &str, min_max: MinMax) -> (r: IsBetween)
        requires
            min_max.wf(),
        ensures
            r.column.column@ == column@,
            r.column.wf(),
            r.min_max == min_max,
    {
        IsBetween { column: ColumnMapCheck::new(column), min_max }
    }

    /// The per-row predicate: the value compared against each bound that is set.
    pub open spec fn predicate(&self) -> Expr {
        self.min_max.bounded(column_expr(self.column))
    }

    fn core_expression(&self) -> (r: Expr)
        ensures
            r == self.predicate(),
    {
        self.min_max.extend_expr(read_column(&self.column))
    }
}

impl ComputeCheck for IsBetween {
    open spec fn core_predicate(&self) -> Expr {
        self.predicate()
    }

    open spec fn column_map(&self) -> ColumnMapCheck {
        self.column
    }

    fn expressions(&self) -> (r: Vec<Expr>) {
        self.column.expressions(self.core_expression())
    }

    fn get_result(&self, result_df: &DataFrame) -> Result<CheckResult, InternalError> {
        self.column.get_result(result_df)
    }
}

/// One assertion about a column of the dataset.
#[derive(Debug)]
pub enum Check {
    IsNotNull(IsNotNull),
    IsUnique(IsUnique),
    IsBetween(IsBetween),
}

fn duplicate_column(c: &ColumnMapCheck) -> (r: ColumnMapCheck)
    ensures
        r == *c,
{
    ColumnMapCheck { column: c.column.clone(), map_check: MapCheck { uuid: c.map_check.uuid.clone() } }
}

fn duplicate_bounds(m: &MinMax) -> (r: MinMax)
    ensures
        r == *m,
{
    let min_max = match &m.min_max {
        MinMaxOpts::Min { min } => MinMaxOpts::Min { min: min.duplicate() },
        MinMaxOpts::Max { max } => MinMaxOpts::Max { max: max.duplicate() },
        MinMaxOpts::MinMax { min, max } => MinMaxOpts::MinMax { min: min.duplicate(), max: max.duplicate() },
    };
    MinMax { min_max, strict_min: m.strict_min, strict_max: m.strict_max }
}

impl Check {
    /// The column-map part of the check: target column and identity.
    pub open spec fn column_check(&self) -> ColumnMapCheck {
        match self {
            Check::IsNotNull(c) => c.column,
            Check::IsUnique(c) => c.column,
            Check::IsBetween(c) => c.column,
        }
    }

    /// The per-row predicate of the check.
    pub open spec fn predicate(&self) -> Expr {
        match self {
            Check::IsNotNull(c) => c.predicate(),
            Check::IsUnique(c) => c.predicate(),
            Check::IsBetween(c) => c.predicate(),
        }
    }

    /// A copy of the check, identity included.
    pub fn duplicate(&self) -> (r: Check)
        ensures
            r == *self,
    {
        match self {
            Check::IsNotNull(c) => Check::IsNotNull(IsNotNull { column: duplicate_column(&c.column) }),
            Check::IsUnique(c) => Check::IsUnique(IsUnique { column: duplicate_column(&c.column) }),
            Check::IsBetween(c) => Check::IsBetween(
                IsBetween { column: duplicate_column(&c.column), min_max: duplicate_bounds(&c.min_max) },
            ),
        }
    }
}

impl ComputeCheck for Check {
    open spec fn core_predicate(&self) -> Expr {
        self.predicate()
    }

    open spec fn column_map(&self) -> ColumnMapCheck {
        self.column_check()
    }

    fn expressions(&self) -> (r: Vec<Expr>) {
        match self {
            Check::IsNotNull(c) => c.expressions(),
            Check::IsUnique(c) => c.expressions(),
            Check::IsBetween(c) => c.expressions(),
        }
    }

    fn get_result(&self, result_df: &DataFrame) -> Result<CheckResult, InternalError> {
        match self {
            Check::IsNotNull(c) => c.get_result(result_df),
            Check::IsUnique(c) => c.get_result(result_df),
            Check::IsBetween(c) => c.get_result(result_df),
        }
    }
}

} // verus!
