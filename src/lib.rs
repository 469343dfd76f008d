//! Declarative data-quality checks over a columnar dataset: each check becomes four named
//! aggregates of a per-row predicate, all checks run in one batch on the engine, and each
//! one-row result is decoded back into an outcome.
pub mod checks;
pub mod column;
pub mod config;
pub mod engine;
pub mod error;
pub mod expr;
pub mod results;

use vstd::prelude::*;
use polars::prelude::{DataFrame, Expr as PlExpr, LazyFrame};
use crate::checks::{Check, ComputeCheck};
use crate::engine::{pl_collect_all, pl_select, to_polars};
use crate::error::InternalError;
use crate::expr::Expr;
use crate::results::{CheckAndResult, CheckResult};

verus! {

/// Whether `pairs` holds one entry per check, in the order of `checks`.
pub open spec fn pairs_checks(pairs: Seq<CheckAndResult>, checks: Seq<Check>) -> bool {
    &&& pairs.len() == checks.len()
    &&& forall|i: int| 0 <= i < checks.len() ==> #[trigger] pairs[i].check == checks[i]
}

fn engine_expressions(exprs: &Vec<Expr>) -> (r: Vec<PlExpr>)
    ensures
        r@.len() == exprs@.len(),
{
    let mut out: Vec<PlExpr> = Vec::new();
    let mut i: usize = 0;
    while i < exprs.len()
        invariant
            i <= exprs@.len(),
            out@.len() == i,
        decreases exprs@.len() - i,
    {
        out.push(to_polars(&exprs[i]));
        i = i + 1;
    }
    out
}

/// One plan per check, in order: the check's aggregates selected over the dataset.
fn gather_expressions(lf: &LazyFrame, checks: &[Check]) -> (r: Vec<LazyFrame>)
    ensures
        r@.len() == checks@.len(),
{
    let mut plans: Vec<LazyFrame> = Vec::new();
    let mut i: usize = 0;
    while i < checks.len()
        invariant
            i <= checks@.len(),
            plans@.len() == i,
        decreases checks@.len() - i,
    {
        let exprs = checks[i].expressions();
        plans.push(pl_select(lf, engine_expressions(&exprs)));
        i = i + 1;
    }
    plans
}

/// The outcome the check at position `i` reads from the frame at the same position, if it
/// decodes.
pub open spec fn outcome_at(checks: Seq<Check>, frames: Seq<DataFrame>, i: int) -> Option<CheckResult> {
    checks[i].column_map().frame_result(frames[i])
}

/// Whether `pairs` holds, for each check in order, that check with the outcome it reads from
/// the frame at its position.
pub open spec fn decoded_in_order(pairs: Seq<CheckAndResult>, checks: Seq<Check>, frames: Seq<DataFrame>) -> bool {
    &&& pairs_checks(pairs, checks)
    &&& forall|i: int|
        0 <= i < checks.len() ==> outcome_at(checks, frames, i) == Some(#[trigger] pairs[i].result)
}

/// Whether every check decodes its frame.
pub open spec fn all_decode(checks: Seq<Check>, frames: Seq<DataFrame>) -> bool {
    forall|i: int| 0 <= i < checks.len() ==> #[trigger] outcome_at(checks, frames, i) is Some
}

/// Whether `e` is the error of the first check, in order, that cannot decode its frame.
pub open spec fn first_failure(checks: Seq<Check>, frames: Seq<DataFrame>, e: InternalError) -> bool {
    exists|j: int|
        0 <= j < checks.len() && #[trigger] outcome_at(checks, frames, j) is None
            && checks[j].column_map().frame_failure(frames[j], e) && forall|k: int|
            0 <= k < j ==> outcome_at(checks, frames, k) is Some
}

/// Pairs the result frame at each position with the check at the same position and decodes
/// it. Frames and checks must be equally many; the first frame that cannot be decoded fails
/// the whole run.
pub fn process_results(raw_results: &[DataFrame], checks: &[Check]) -> (r: Result<
    Vec<CheckAndResult>,
    InternalError,
>)
    ensures
        raw_results@.len() != checks@.len() ==> (r matches Err(
            InternalError::AggregationCountMismatch { expected, actual },
        ) && expected == checks@.len() && actual == raw_results@.len()),
        raw_results@.len() == checks@.len() ==> (r is Ok <==> all_decode(checks@, raw_results@)),
        r is Ok ==> decoded_in_order(r->Ok_0@, checks@, raw_results@),
        raw_results@.len() == checks@.len() && r is Err ==> first_failure(checks@, raw_results@, r->Err_0),
{
    if raw_results.len() != checks.len() {
        return Err(
            InternalError::AggregationCountMismatch { expected: checks.len(), actual: raw_results.len() },
        );
    }
    let mut out: Vec<CheckAndResult> = Vec::new();
    let mut i: usize = 0;
    while i < checks.len()
        invariant
            i <= checks@.len(),
            raw_results@.len() == checks@.len(),
            decoded_in_order(out@, checks@.subrange(0, i as int), raw_results@.subrange(0, i as int)),
            forall|k: int| 0 <= k < i ==> #[trigger] outcome_at(checks@, raw_results@, k) is Some,
        decreases checks@.len() - i,
    {
        let ghost cs = checks@;
        let ghost fs = raw_results@;
        let result = match checks[i].get_result(&raw_results[i]) {
            Ok(res) => res,
            Err(e) => {
                assert(outcome_at(cs, fs, i as int) is None);
                assert(first_failure(cs, fs, e));
                return Err(e);
            },
        };
        out.push(CheckAndResult::new(result, checks[i].duplicate()));
        i = i + 1;
        assert forall|k: int| 0 <= k < i implies outcome_at(cs.subrange(0, i as int), fs.subrange(0, i as int), k)
            == outcome_at(cs, fs, k) by {}
    }
    assert(checks@.subrange(0, i as int) =~= checks@);
    assert(raw_results@.subrange(0, i as int) =~= raw_results@);
    Ok(out)
}

/// Runs every check against the dataset in one batch and pairs each check with its outcome,
/// in the order of `checks`. A failure of the engine gives its error and no outcome; so does a
/// frame that cannot be decoded. With no checks the run succeeds with no outcome.
pub fn run_computed_checks(lf: &LazyFrame, checks: &[Check]) -> (r: Result<
    Vec<CheckAndResult>,
    InternalError,
>)
    ensures
        checks@.len() == 0 ==> r is Ok && r->Ok_0@.len() == 0,
        r is Ok ==> exists|frames: Seq<DataFrame>|
            frames.len() == checks@.len() && #[trigger] decoded_in_order(r->Ok_0@, checks@, frames),
        r is Err ==> (r->Err_0 is PolarsError || exists|frames: Seq<DataFrame>|
            frames.len() == checks@.len() && #[trigger] first_failure(checks@, frames, r->Err_0)),
{
    let plans = gather_expressions(lf, checks);
    let raw_results = match pl_collect_all(plans) {
        Ok(frames) => frames,
        Err(e) => return Err(InternalError::PolarsError(e)),
    };
    let r = process_results(raw_results.as_slice(), checks);
    proof {
        if checks@.len() == 0 {
            assert(all_decode(checks@, raw_results@));
        }
    }
    r
}

} // verus!
