use vstd::prelude::*;
use crate::checks::Check;

verus! {

/// One value of a check's one-row aggregate result, as the library reads it.
#[derive(Debug, Clone, Copy, PartialEq, Eq, Structural)]
pub enum AggregateValue {
    Boolean(bool),
    UInt64(u64),
    UInt32(u32),
    Null,
    /// Any value of another type.
    Other,
}

/// The outcome of one check.
#[derive(Debug, Clone, Copy, PartialEq, Eq, Structural)]
pub struct CheckResult {
    pub success: bool,
    pub expected_count: u64,
    pub unexpected_count: u64,
    pub null_count: u64,
}

/// A check together with its outcome.
#[derive(Debug)]
pub struct CheckAndResult {
    pub result: CheckResult,
    pub check: Check,
}

impl CheckAndResult {
    pub fn new(result: CheckResult, check: Check) -> (r: CheckAndResult)
        ensures
            r.result == result,
            r.check == check,
    {
        CheckAndResult { result, check }
    }
}

/// Whether every outcome in `results` is a success.
pub open spec fn all_succeed(results: Seq<CheckAndResult>) -> bool {
    forall|i: int| 0 <= i < results.len() ==> #[trigger] results[i].result.success
}

/// The outcomes of a whole suite, with the overall verdict.
#[derive(Debug)]
pub struct CheckResultSuite {
    pub success: bool,
    pub results: Vec<CheckAndResult>,
}

impl CheckResultSuite {
    /// The suite of `results`; it succeeds iff every result does, so an empty suite succeeds.
    pub fn new(results: Vec<CheckAndResult>) -> (r: CheckResultSuite)
        ensures
            r.success == all_succeed(results@),
            results@.len() == 0 ==> r.success,
            r.results@ == results@,
    {
        let mut success = true;
        let mut i: usize = 0;
        while i < results.len()
            invariant
                i <= results@.len(),
                success == all_succeed(results@.subrange(0, i as int)),
            decreases results@.len() - i,
        {
            let ghost prev = results@.subrange(0, i as int);
            let ghost next = results@.subrange(0, i + 1 as int);
            success = success && results[i].result.success;
            assert(next[i as int] == results@[i as int]);
            assert forall|k: int| 0 <= k < i implies next[k] == prev[k] by {}
            assert(all_succeed(next) ==> next[i as int].result.success);
            i = i + 1;
        }
        assert(results@.subrange(0, i as int) =~= results@);
        CheckResultSuite { success, results }
    }
}

/// The number of rows on which the per-row predicate values `p` are true.
pub open spec fn count_true(p: Seq<Option<bool>>) -> nat
    decreases p.len(),
{
    if p.len() == 0 {
        0
    } else {
        count_true(p.drop_last()) + if p.last() == Some(true) { 1nat } else { 0nat }
    }
}

/// The number of rows on which the per-row predicate values `p` are false.
pub open spec fn count_false(p: Seq<Option<bool>>) -> nat
    decreases p.len(),
{
    if p.len() == 0 {
        0
    } else {
        count_false(p.drop_last()) + if p.last() == Some(false) { 1nat } else { 0nat }
    }
}

/// The number of rows on which the per-row predicate values `p` are null.
pub open spec fn count_null(p: Seq<Option<bool>>) -> nat
    decreases p.len(),
{
    if p.len() == 0 {
        0
    } else {
        count_null(p.drop_last()) + if p.last() is None { 1nat } else { 0nat }
    }
}

/// Whether the predicate holds on every row where it is not null.
pub open spec fn holds_on_non_null(p: Seq<Option<bool>>) -> bool {
    forall|i: int| 0 <= i < p.len() ==> p[i] != Some(false)
}

/// The per-row values of the not-null predicate over a column: never null.
pub open spec fn not_null_values(column: Seq<Option<i64>>) -> Seq<Option<bool>> {
    Seq::new(column.len(), |i: int| Some(column[i] is Some))
}

/// Over any sequence of per-row predicate values, the counts of true, false and null values
/// add up to the number of rows, and the predicate holds on every non-null row exactly when
/// the count of false values is zero. This is a fact of the counting model only; the counts
/// in a decoded result are whatever the engine computed.
pub proof fn lemma_counts_cover_rows(p: Seq<Option<bool>>)
    ensures
        count_true(p) + count_false(p) + count_null(p) == p.len(),
        holds_on_non_null(p) <==> count_false(p) == 0,
    decreases p.len(),
{
    if p.len() > 0 {
        lemma_counts_cover_rows(p.drop_last());
        let last = p.last();
        assert(last == Some(true) || last == Some(false) || last is None);
        assert(count_true(p) + count_false(p) + count_null(p) == count_true(p.drop_last()) + count_false(
            p.drop_last(),
        ) + count_null(p.drop_last()) + 1);
        if holds_on_non_null(p) {
            assert(p[p.len() - 1] != Some(false));
            assert forall|i: int| 0 <= i < p.drop_last().len() implies p.drop_last()[i] != Some(false) by {
                assert(p.drop_last()[i] == p[i]);
            }
        }
        if count_false(p) == 0 {
            assert forall|i: int| 0 <= i < p.len() implies p[i] != Some(false) by {
                if i < p.len() - 1 {
                    assert(p.drop_last()[i] == p[i]);
                }
            }
        }
    }
}

/// In the model of a column of integers and nulls, the per-row values of the not-null
/// predicate are never null: their null count is zero and their true and false counts add up
/// to the number of rows. This is a fact of the model only, not of a decoded result.
pub proof fn lemma_not_null_has_no_nulls(column: Seq<Option<i64>>)
    ensures
        count_null(not_null_values(column)) == 0,
        count_true(not_null_values(column)) + count_false(not_null_values(column)) == column.len(),
    decreases column.len(),
{
    let p = not_null_values(column);
    if column.len() > 0 {
        lemma_not_null_has_no_nulls(column.drop_last());
        assert(p.drop_last() =~= not_null_values(column.drop_last()));
    }
    lemma_counts_cover_rows(p);
}

} // verus!
