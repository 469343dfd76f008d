use vstd::prelude::*;
use polars::prelude::{AnyValue, Column, DataFrame, DataType, Expr as PlExpr, LazyFrame, PolarsError};
use crate::column::Number;
use crate::expr::Expr;
use crate::results::AggregateValue;

verus! {

#[verifier::external_type_specification]
#[verifier::external_body]
pub struct ExPlExpr(PlExpr);

#[verifier::external_type_specification]
#[verifier::external_body]
pub struct ExLazyFrame(LazyFrame);

#[verifier::external_type_specification]
#[verifier::external_body]
pub struct ExDataFrame(DataFrame);

#[verifier::external_type_specification]
#[verifier::external_body]
pub struct ExColumn(Column);

#[verifier::external_type_specification]
#[verifier::external_body]
pub struct ExPolarsError(PolarsError);

/// Relies on uuid's `Uuid::new_v4` and its `Display`: a fresh random identifier, written
/// in the hyphenated form of 36 characters.
#[verifier::external_body]
pub(crate) fn new_identifier() -> (r: String)
    ensures
        r@.len() == 36,
{
    uuid::Uuid::new_v4().to_string()
}

/// Relies on polars' `col`: an expression that reads the named column.
#[verifier::external_body]
fn pl_col(name: &str) -> PlExpr {
    polars::prelude::col(name)
}

/// Relies on polars' `lit` for `i64`: an integer constant.
#[verifier::external_body]
fn pl_lit_int(v: i64) -> PlExpr {
    polars::prelude::lit(v)
}

/// Relies on polars' `lit` for `&str`: a text constant.
#[verifier::external_body]
fn pl_lit_text(text: &str) -> PlExpr {
    polars::prelude::lit(text)
}

/// Relies on polars' `Expr::cast` to `Float64`: text is read as a 64-bit floating-point number.
#[verifier::external_body]
fn pl_cast_to_float(e: PlExpr) -> PlExpr {
    e.cast(DataType::Float64)
}

/// Relies on polars' `Expr::is_not_null`.
#[verifier::external_body]
fn pl_is_not_null(e: PlExpr) -> PlExpr {
    e.is_not_null()
}

/// Relies on polars' `Expr::is_null`.
#[verifier::external_body]
fn pl_is_null(e: PlExpr) -> PlExpr {
    e.is_null()
}

/// Relies on polars' `Expr::is_unique`.
#[verifier::external_body]
fn pl_is_unique(e: PlExpr) -> PlExpr {
    e.is_unique()
}

/// Relies on polars' `Expr::not`.
#[verifier::external_body]
fn pl_not(e: PlExpr) -> PlExpr {
    e.not()
}

/// Relies on polars' `Expr::gt`.
#[verifier::external_body]
fn pl_gt(a: PlExpr, b: PlExpr) -> PlExpr {
    a.gt(b)
}

/// Relies on polars' `Expr::gt_eq`.
#[verifier::external_body]
fn pl_gt_eq(a: PlExpr, b: PlExpr) -> PlExpr {
    a.gt_eq(b)
}

/// Relies on polars' `Expr::lt`.
#[verifier::external_body]
fn pl_lt(a: PlExpr, b: PlExpr) -> PlExpr {
    a.lt(b)
}

/// Relies on polars' `Expr::lt_eq`.
#[verifier::external_body]
fn pl_lt_eq(a: PlExpr, b: PlExpr) -> PlExpr {
    a.lt_eq(b)
}

/// Relies on polars' `Expr::and`.
#[verifier::external_body]
fn pl_and(a: PlExpr, b: PlExpr) -> PlExpr {
    a.and(b)
}

/// Relies on polars' `Expr::all` with nulls ignored.
#[verifier::external_body]
fn pl_all_non_null(e: PlExpr) -> PlExpr {
    e.all(true)
}

/// Relies on polars' `Expr::sum`.
#[verifier::external_body]
fn pl_sum(e: PlExpr) -> PlExpr {
    e.sum()
}

/// Relies on polars' `Expr::alias`.
#[verifier::external_body]
fn pl_alias(e: PlExpr, name: &str) -> PlExpr {
    e.alias(name)
}

/// Relies on polars' `LazyFrame::select`, on a copy of the shared plan.
#[verifier::external_body]
pub(crate) fn pl_select(lf: &LazyFrame, exprs: Vec<PlExpr>) -> LazyFrame {
    lf.clone().select(exprs)
}

/// Relies on polars' `collect_all`: runs every plan and returns one frame per plan, in order,
/// or a failure; no plans give no frames.
#[verifier::external_body]
pub(crate) fn pl_collect_all(plans: Vec<LazyFrame>) -> (r: Result<Vec<DataFrame>, PolarsError>)
    ensures
        r is Ok ==> r->Ok_0@.len() == plans@.len(),
        plans@.len() == 0 ==> r is Ok,
{
    polars::prelude::collect_all(plans)
}

/// What the first row of a result frame holds: each column's name mapped to its first value,
/// by type; empty when the frame has no row (all columns of a frame have the same height, and
/// their names are unique).
pub uninterp spec fn first_row_of(df: DataFrame) -> Map<Seq<char>, AggregateValue>;

/// The first-row value of a frame under `name`, if the frame has such a column and a row.
pub open spec fn row_value(df: DataFrame, name: Seq<char>) -> Option<AggregateValue> {
    if first_row_of(df).dom().contains(name) {
        Some(first_row_of(df)[name])
    } else {
        None
    }
}

/// Relies on polars' `DataFrame::column` and `Column::get`: the named column's first value, by
/// its type, if the frame has that column and a row.
#[verifier::external_body]
pub(crate) fn first_value(df: &DataFrame, name: &str) -> (r: Option<AggregateValue>)
    ensures
        first_row_of(*df).dom().contains(name@) ==> r == Some(first_row_of(*df)[name@]),
        !first_row_of(*df).dom().contains(name@) ==> r is None,
{
    match df.column(name).ok()?.get(0).ok()? {
        AnyValue::Boolean(b) => Some(AggregateValue::Boolean(b)),
        AnyValue::UInt64(v) => Some(AggregateValue::UInt64(v)),
        AnyValue::UInt32(v) => Some(AggregateValue::UInt32(v)),
        AnyValue::Null => Some(AggregateValue::Null),
        _ => Some(AggregateValue::Other),
    }
}

/// The engine's expression for `e`, built node by node.
pub fn to_polars(e: &Expr) -> PlExpr
    decreases e,
{
    match e {
        Expr::Column(name) => pl_col(name.as_str()),
        Expr::Literal(Number::Int(v)) => pl_lit_int(*v),
        Expr::Literal(Number::Float(text)) => pl_cast_to_float(pl_lit_text(text.as_str())),
        Expr::IsNotNull(a) => pl_is_not_null(to_polars(a)),
        Expr::IsNull(a) => pl_is_null(to_polars(a)),
        Expr::IsUnique(a) => pl_is_unique(to_polars(a)),
        Expr::Not(a) => pl_not(to_polars(a)),
        Expr::Gt(a, b) => pl_gt(to_polars(a), to_polars(b)),
        Expr::GtEq(a, b) => pl_gt_eq(to_polars(a), to_polars(b)),
        Expr::Lt(a, b) => pl_lt(to_polars(a), to_polars(b)),
        Expr::LtEq(a, b) => pl_lt_eq(to_polars(a), to_polars(b)),
        Expr::And(a, b) => pl_and(to_polars(a), to_polars(b)),
        Expr::AllNonNull(a) => pl_all_non_null(to_polars(a)),
        Expr::Sum(a) => pl_sum(to_polars(a)),
        Expr::Alias(a, name) => pl_alias(to_polars(a), name.as_str()),
    }
}

} // verus!
