use vstd::prelude::*;

verus! {

/// Every way a run of a check suite can fail inside the library.
#[derive(Debug)]
pub enum InternalError {
    /// A failure described only by its message.
    Generic(String),
    /// The columnar engine failed to plan or execute a query.
    PolarsError(polars::error::PolarsError),
    /// An aggregate column that a check asked for is absent from its result row.
    MissingResultValue(String),
    /// An aggregate column holds a value of a type the check cannot decode.
    UnexpectedResultType(String),
    /// The engine returned a number of result rows that differs from the number of checks.
    AggregationCountMismatch { expected: usize, actual: usize },
}

} // verus!
