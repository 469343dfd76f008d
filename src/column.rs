use vstd::prelude::*;
use crate::engine::{first_value, new_identifier, row_value};
use crate::error::InternalError;
use crate::results::{AggregateValue, CheckResult};
use polars::prelude::DataFrame;
use crate::expr::Expr;

verus! {

/// A numeric bound as written in a configuration, keeping its kind.
#[derive(Debug)]
pub enum Number {
    /// An integer bound.
    Int(i64),
    /// A floating-point bound, held as its decimal text (for instance `2.5`).
    Float(String),
}

pub open spec fn is_digit(c: char) -> bool {
    '0' <= c <= '9'
}

/// Whether `s` is decimal text: an optional minus sign, then digits with at most one point,
/// which neither starts nor ends them.
pub open spec fn is_decimal_text(s: Seq<char>) -> bool {
    let b: int = if s.len() > 0 && s[0] == '-' { 1 } else { 0 };
    &&& s.len() > b
    &&& s[b] != '.'
    &&& s[s.len() - 1] != '.'
    &&& forall|i: int| b <= i < s.len() ==> is_digit(#[trigger] s[i]) || s[i] == '.'
    &&& forall|i: int, j: int| b <= i < j < s.len() && #[trigger] s[i] == '.' ==> #[trigger] s[j] != '.'
}

fn decimal_text(t: &str) -> (r: bool)
    ensures
        r == is_decimal_text(t@),
{
    let n = t.unicode_len();
    let b: usize = if n > 0 && t.get_char(0) == '-' {
        1
    } else {
        0
    };
    if n <= b {
        return false;
    }
    if t.get_char(b) == '.' || t.get_char(n - 1) == '.' {
        return false;
    }
    let mut seen = false;
    let mut i: usize = b;
    while i < n
        invariant
            b <= i <= n,
            n == t@.len(),
            b == (if t@.len() > 0 && t@[0] == '-' { 1int } else { 0int }),
            n > b,
            t@[b as int] != '.',
            t@[n - 1] != '.',
            forall|k: int| b <= k < i ==> is_digit(#[trigger] t@[k]) || t@[k] == '.',
            forall|k: int, l: int| b <= k < l < i && #[trigger] t@[k] == '.' ==> #[trigger] t@[l] != '.',
            seen <==> exists|k: int| b <= k < i && #[trigger] t@[k] == '.',
        decreases n - i,
    {
        let c = t.get_char(i);
        if c == '.' {
            if seen {
                return false;
            }
            seen = true;
        } else if !('0' <= c && c <= '9') {
            return false;
        }
        i = i + 1;
    }
    true
}

impl Number {
    /// Whether a floating-point bound's text is decimal text; an integer bound always is.
    pub open spec fn wf(&self) -> bool {
        match self {
            Number::Int(_) => true,
            Number::Float(t) => is_decimal_text(t@),
        }
    }

    pub fn is_well_formed(&self) -> (r: bool)
        ensures
            r == self.wf(),
    {
        match self {
            Number::Int(_) => true,
            Number::Float(t) => decimal_text(t.as_str()),
        }
    }

    /// A copy of the number, equal to it.
    pub fn duplicate(&self) -> (r: Number)
        ensures
            r == *self,
    {
        match self {
            Number::Int(v) => Number::Int(*v),
            Number::Float(t) => Number::Float(t.clone()),
        }
    }

    /// The number as a constant expression.
    pub fn to_expr(self) -> (r: Expr)
        ensures
            r == Expr::Literal(self),
    {
        Expr::Literal(self)
    }
}

impl From<i64> for Number {
    fn from(value: i64) -> (r: Number) {
        Number::Int(value)
    }
}

impl vstd::std_specs::convert::FromSpecImpl<i64> for Number {
    open spec fn obeys_from_spec() -> bool {
        true
    }

    open spec fn from_spec(v: i64) -> Number {
        Number::Int(v)
    }
}

/// Which bounds a range check has: a lower one, an upper one, or both.
#[derive(Debug)]
pub enum MinMaxOpts {
    Min { min: Number },
    Max { max: Number },
    MinMax { min: Number, max: Number },
}

/// The error text when neither bound is given.
pub open spec fn no_bound_message() -> Seq<char> {
    "Either min or max must be set"@
}

/// The error text when a bound is not well formed.
pub open spec fn malformed_bound_message() -> Seq<char> {
    "A bound is not a decimal number"@
}

/// Whether an optional bound is absent or well formed.
pub open spec fn optional_wf(n: Option<Number>) -> bool {
    match n {
        Some(v) => v.wf(),
        None => true,
    }
}

fn optional_well_formed(n: &Option<Number>) -> (r: bool)
    ensures
        r == optional_wf(*n),
{
    match n {
        Some(v) => v.is_well_formed(),
        None => true,
    }
}

impl MinMaxOpts {
    /// Whether every bound that is set is well formed.
    pub open spec fn wf(&self) -> bool {
        match self {
            MinMaxOpts::Min { min } => min.wf(),
            MinMaxOpts::Max { max } => max.wf(),
            MinMaxOpts::MinMax { min, max } => min.wf() && max.wf(),
        }
    }

    /// The bounds made of an optional lower and an optional upper bound; at least one is
    /// needed, and each that is given must be well formed.
    pub fn new(min: Option<Number>, max: Option<Number>) -> (r: Result<MinMaxOpts, String>)
        ensures
            (min is Some || max is Some) && !(optional_wf(min) && optional_wf(max)) ==> r is Err
                && r->Err_0@ == malformed_bound_message(),
            r is Ok ==> r->Ok_0.wf(),
            !(optional_wf(min) && optional_wf(max)) || match (min, max) {
                (None, None) => r is Err && r->Err_0@ == no_bound_message(),
                (None, Some(m)) => r == Ok::<MinMaxOpts, String>(MinMaxOpts::Max { max: m }),
                (Some(m), None) => r == Ok::<MinMaxOpts, String>(MinMaxOpts::Min { min: m }),
                (Some(mi), Some(ma)) => r == Ok::<MinMaxOpts, String>(
                    MinMaxOpts::MinMax { min: mi, max: ma },
                ),
            },
    {
        if (min.is_some() || max.is_some()) && !(optional_well_formed(&min) && optional_well_formed(&max)) {
            return Err(String::from_str("A bound is not a decimal number"));
        }
        match (min, max) {
            (None, None) => Err(String::from_str("Either min or max must be set")),
            (None, Some(m)) => Ok(MinMaxOpts::Max { max: m }),
            (Some(m), None) => Ok(MinMaxOpts::Min { min: m }),
            (Some(mi), Some(ma)) => Ok(MinMaxOpts::MinMax { min: mi, max: ma }),
        }
    }
}

/// The bounds of a range check with the strictness of each.
#[derive(Debug)]
pub struct MinMax {
    pub min_max: MinMaxOpts,
    pub strict_min: bool,
    pub strict_max: bool,
}

/// `e >= min` (or `>` when strict), as an expression.
pub open spec fn lower_bound_expr(e: Expr, min: Number, strict: bool) -> Expr {
    if strict {
        Expr::Gt(Box::new(e), Box::new(Expr::Literal(min)))
    } else {
        Expr::GtEq(Box::new(e), Box::new(Expr::Literal(min)))
    }
}

/// `e <= max` (or `<` when strict), as an expression.
pub open spec fn upper_bound_expr(e: Expr, max: Number, strict: bool) -> Expr {
    if strict {
        Expr::Lt(Box::new(e), Box::new(Expr::Literal(max)))
    } else {
        Expr::LtEq(Box::new(e), Box::new(Expr::Literal(max)))
    }
}

impl MinMax {
    pub open spec fn wf(&self) -> bool {
        self.min_max.wf()
    }

    pub fn new(min_max: MinMaxOpts, strict_min: bool, strict_max: bool) -> (r: MinMax)
        ensures
            r == (MinMax { min_max, strict_min, strict_max }),
    {
        MinMax { min_max, strict_min, strict_max }
    }

    /// The range predicate over `e` that these bounds describe.
    pub open spec fn bounded(&self, e: Expr) -> Expr {
        match self.min_max {
            MinMaxOpts::Min { min } => lower_bound_expr(e, min, self.strict_min),
            MinMaxOpts::Max { max } => upper_bound_expr(e, max, self.strict_max),
            MinMaxOpts::MinMax { min, max } => Expr::And(
                Box::new(lower_bound_expr(e, min, self.strict_min)),
                Box::new(upper_bound_expr(e, max, self.strict_max)),
            ),
        }
    }

    /// Wraps `expr` in the comparisons against the bounds that are set.
    pub fn extend_expr(&self, expr: Expr) -> (r: Expr)
        ensures
            r == self.bounded(expr),
    {
        match &self.min_max {
            MinMaxOpts::Min { min } => expr.at_least(min.duplicate().to_expr(), self.strict_min),
            MinMaxOpts::Max { max } => expr.at_most(max.duplicate().to_expr(), self.strict_max),
            MinMaxOpts::MinMax { min, max } => {
                let lower = expr.duplicate().at_least(min.duplicate().to_expr(), self.strict_min);
                let upper = expr.at_most(max.duplicate().to_expr(), self.strict_max);
                Expr::And(Box::new(lower), Box::new(upper))
            },
        }
    }
}

/// The per-instance identity of a check, used to name the columns its aggregates produce.
#[derive(Debug)]
pub struct MapCheck {
    pub uuid: String,
}

impl MapCheck {
    /// Whether the identifier has the hyphenated form's length.
    pub open spec fn wf(&self) -> bool {
        self.uuid@.len() == 36
    }

    /// A fresh identity.
    pub fn new() -> (r: MapCheck)
        ensures
            r.wf(),
    {
        MapCheck { uuid: new_identifier() }
    }

    /// The identifier as text.
    pub fn uuid(&self) -> (r: String)
        ensures
            r@ == self.uuid@,
    {
        self.uuid.clone()
    }
}

/// The output column name of an aggregate: the identifier, an underscore, then the suffix.
pub open spec fn alias_name(id: Seq<char>, suffix: Seq<char>) -> Seq<char> {
    id + "_"@ + suffix
}

pub open spec fn result_name(id: Seq<char>) -> Seq<char> {
    alias_name(id, "_result"@)
}

pub open spec fn expected_name(id: Seq<char>) -> Seq<char> {
    alias_name(id, "_expected"@)
}

pub open spec fn unexpected_name(id: Seq<char>) -> Seq<char> {
    alias_name(id, "_unexpected"@)
}

pub open spec fn null_name(id: Seq<char>) -> Seq<char> {
    alias_name(id, "_null"@)
}

/// The four output column names derived from an identifier, in the order
/// result, expected, unexpected, null.
pub open spec fn aggregate_names(id: Seq<char>) -> Seq<Seq<char>> {
    seq![result_name(id), expected_name(id), unexpected_name(id), null_name(id)]
}

/// Whether `e` is `inner` under the output column name `name`.
pub open spec fn is_alias(e: Expr, inner: Expr, name: Seq<char>) -> bool {
    e matches Expr::Alias(a, n) && *a == inner && n@ == name
}

/// The four aggregates of a column-map check whose per-row predicate is `core`, named after `id`:
/// whether the predicate holds on every non-null row, the count of rows where it is true,
/// the count where it is false, and the count where it is null.
pub open spec fn aggregates_of(exprs: Seq<Expr>, core: Expr, id: Seq<char>) -> bool {
    &&& exprs.len() == 4
    &&& is_alias(exprs[0], Expr::AllNonNull(Box::new(core)), result_name(id))
    &&& is_alias(exprs[1], Expr::Sum(Box::new(core)), expected_name(id))
    &&& is_alias(exprs[2], Expr::Sum(Box::new(Expr::Not(Box::new(core)))), unexpected_name(id))
    &&& is_alias(exprs[3], Expr::Sum(Box::new(Expr::IsNull(Box::new(core)))), null_name(id))
}

/// A check on one column whose outcome reduces to four aggregates of a per-row predicate.
#[derive(Debug)]
pub struct ColumnMapCheck {
    pub column: String,
    pub map_check: MapCheck,
}

impl ColumnMapCheck {
    pub open spec fn wf(&self) -> bool {
        self.map_check.wf()
    }

    /// The identifier the output names are derived from.
    pub open spec fn id(&self) -> Seq<char> {
        self.map_check.uuid@
    }

    /// A check on `column` with a fresh identity.
    pub fn new(column: &str) -> (r: ColumnMapCheck)
        ensures
            r.column@ == column@,
            r.wf(),
    {
        ColumnMapCheck { column: String::from_str(column), map_check: MapCheck::new() }
    }

    fn column_alias(&self, suffix: &str) -> (r: String)
        ensures
            r@ == alias_name(self.id(), suffix@),
    {
        self.map_check.uuid().concat("_").concat(suffix)
    }

    pub fn result_column(&self) -> (r: String)
        ensures
            r@ == result_name(self.id()),
    {
        self.column_alias("_result")
    }

    pub fn expected_column(&self) -> (r: String)
        ensures
            r@ == expected_name(self.id()),
    {
        self.column_alias("_expected")
    }

    pub fn unexpected_column(&self) -> (r: String)
        ensures
            r@ == unexpected_name(self.id()),
    {
        self.column_alias("_unexpected")
    }

    pub fn null_column(&self) -> (r: String)
        ensures
            r@ == null_name(self.id()),
    {
        self.column_alias("_null")
    }

    /// The four named aggregates over the per-row predicate `core`.
    pub fn expressions(&self, core: Expr) -> (r: Vec<Expr>)
        ensures
            aggregates_of(r@, core, self.id()),
    {
        let result = Expr::Alias(Box::new(Expr::AllNonNull(Box::new(core.duplicate()))), self.result_column());
        let expected = Expr::Alias(Box::new(Expr::Sum(Box::new(core.duplicate()))), self.expected_column());
        let unexpected = Expr::Alias(
            Box::new(Expr::Sum(Box::new(Expr::Not(Box::new(core.duplicate()))))),
            self.unexpected_column(),
        );
        let null = Expr::Alias(Box::new(Expr::Sum(Box::new(Expr::IsNull(Box::new(core))))), self.null_column());
        vec![result, expected, unexpected, null]
    }
}

/// The flag an aggregate value holds, if it is one.
pub open spec fn flag_of(v: Option<AggregateValue>) -> Option<bool> {
    match v {
        Some(AggregateValue::Boolean(b)) => Some(b),
        _ => None,
    }
}

/// The count an aggregate value holds, if it is one.
pub open spec fn count_of(v: Option<AggregateValue>) -> Option<u64> {
    match v {
        Some(AggregateValue::UInt64(c)) => Some(c),
        Some(AggregateValue::UInt32(c)) => Some(c as u64),
        _ => None,
    }
}

/// The error for an aggregate value under `name` that cannot be decoded: missing when absent,
/// of an unexpected type otherwise.
pub open spec fn decode_error(v: Option<AggregateValue>, name: Seq<char>, e: InternalError) -> bool {
    match v {
        None => e matches InternalError::MissingResultValue(n) && n@ == name,
        Some(_) => e matches InternalError::UnexpectedResultType(n) && n@ == name,
    }
}

fn decode_flag(name: String, v: Option<AggregateValue>) -> (r: Result<bool, InternalError>)
    ensures
        match flag_of(v) {
            Some(b) => r == Ok::<bool, InternalError>(b),
            None => r is Err && decode_error(v, name@, r->Err_0),
        },
{
    match v {
        Some(AggregateValue::Boolean(b)) => Ok(b),
        Some(_) => Err(InternalError::UnexpectedResultType(name)),
        None => Err(InternalError::MissingResultValue(name)),
    }
}

fn decode_count(name: String, v: Option<AggregateValue>) -> (r: Result<u64, InternalError>)
    ensures
        match count_of(v) {
            Some(c) => r == Ok::<u64, InternalError>(c),
            None => r is Err && decode_error(v, name@, r->Err_0),
        },
{
    match v {
        Some(AggregateValue::UInt64(c)) => Ok(c),
        Some(AggregateValue::UInt32(c)) => Ok(c as u64),
        Some(_) => Err(InternalError::UnexpectedResultType(name)),
        None => Err(InternalError::MissingResultValue(name)),
    }
}

/// The outcome four aggregate values hold, when the first is a flag and the others counts.
pub open spec fn decoded(
    success: Option<AggregateValue>,
    expected: Option<AggregateValue>,
    unexpected: Option<AggregateValue>,
    null: Option<AggregateValue>,
) -> Option<CheckResult> {
    if flag_of(success) is Some && count_of(expected) is Some && count_of(unexpected) is Some
        && count_of(null) is Some {
        Some(
            CheckResult {
                success: flag_of(success)->Some_0,
                expected_count: count_of(expected)->Some_0,
                unexpected_count: count_of(unexpected)->Some_0,
                null_count: count_of(null)->Some_0,
            },
        )
    } else {
        None
    }
}

impl ColumnMapCheck {
    /// The error reported for the first of the four values, in the order result, expected,
    /// unexpected, null, that cannot be decoded.
    pub open spec fn decode_failure(
        &self,
        success: Option<AggregateValue>,
        expected: Option<AggregateValue>,
        unexpected: Option<AggregateValue>,
        null: Option<AggregateValue>,
        e: InternalError,
    ) -> bool {
        if flag_of(success) is None {
            decode_error(success, result_name(self.id()), e)
        } else if count_of(expected) is None {
            decode_error(expected, expected_name(self.id()), e)
        } else if count_of(unexpected) is None {
            decode_error(unexpected, unexpected_name(self.id()), e)
        } else {
            decode_error(null, null_name(self.id()), e)
        }
    }

    /// Whether `r` is what the four values decode to: the outcome when all decode, else the
    /// error for the first that does not.
    pub open spec fn decodes_to(
        &self,
        success: Option<AggregateValue>,
        expected: Option<AggregateValue>,
        unexpected: Option<AggregateValue>,
        null: Option<AggregateValue>,
        r: Result<CheckResult, InternalError>,
    ) -> bool {
        match decoded(success, expected, unexpected, null) {
            Some(v) => r == Ok::<CheckResult, InternalError>(v),
            None => r is Err && self.decode_failure(success, expected, unexpected, null, r->Err_0),
        }
    }

    /// The outcome held by a result frame's first row under this check's four names, if
    /// all of them decode.
    pub open spec fn frame_result(&self, df: DataFrame) -> Option<CheckResult> {
        decoded(
            row_value(df, result_name(self.id())),
            row_value(df, expected_name(self.id())),
            row_value(df, unexpected_name(self.id())),
            row_value(df, null_name(self.id())),
        )
    }

    /// Whether `e` is the error for the first of this check's four values in `df` that
    /// cannot be decoded.
    pub open spec fn frame_failure(&self, df: DataFrame, e: InternalError) -> bool {
        self.decode_failure(
            row_value(df, result_name(self.id())),
            row_value(df, expected_name(self.id())),
            row_value(df, unexpected_name(self.id())),
            row_value(df, null_name(self.id())),
            e,
        )
    }

    /// Whether `r` is what this check reads from the frame `df`.
    pub open spec fn reads_frame(&self, df: DataFrame, r: Result<CheckResult, InternalError>) -> bool {
        match self.frame_result(df) {
            Some(v) => r == Ok::<CheckResult, InternalError>(v),
            None => r is Err && self.frame_failure(df, r->Err_0),
        }
    }

    /// The outcome held by the four aggregate values read back under this check's names, in
    /// the order result, expected, unexpected, null; the first that cannot be decoded is
    /// reported.
    pub fn decode_result(
        &self,
        success: Option<AggregateValue>,
        expected: Option<AggregateValue>,
        unexpected: Option<AggregateValue>,
        null: Option<AggregateValue>,
    ) -> (r: Result<CheckResult, InternalError>)
        ensures
            self.decodes_to(success, expected, unexpected, null, r),
    {
        let success = match decode_flag(self.result_column(), success) {
            Ok(b) => b,
            Err(e) => return Err(e),
        };
        let expected_count = match decode_count(self.expected_column(), expected) {
            Ok(c) => c,
            Err(e) => return Err(e),
        };
        let unexpected_count = match decode_count(self.unexpected_column(), unexpected) {
            Ok(c) => c,
            Err(e) => return Err(e),
        };
        let null_count = match decode_count(self.null_column(), null) {
            Ok(c) => c,
            Err(e) => return Err(e),
        };
        Ok(CheckResult { success, expected_count, unexpected_count, null_count })
    }

    /// Reads this check's four aggregates out of its one-row result frame and decodes them.
    pub fn get_result(&self, result_df: &DataFrame) -> (r: Result<CheckResult, InternalError>)
        ensures
            self.reads_frame(*result_df, r),
    {
        let success = first_value(result_df, self.result_column().as_str());
        let expected = first_value(result_df, self.expected_column().as_str());
        let unexpected = first_value(result_df, self.unexpected_column().as_str());
        let null = first_value(result_df, self.null_column().as_str());
        self.decode_result(success, expected, unexpected, null)
    }
}

/// Two checks whose identifiers differ never share an output column name, and the four
/// output names of one check are pairwise different: checks on the same column in one
/// batch cannot collide.
pub proof fn lemma_aggregate_names_distinct(x: ColumnMapCheck, y: ColumnMapCheck)
    requires
        x.wf(),
        y.wf(),
        x.id() != y.id(),
    ensures
        forall|i: int, j: int|
            0 <= i < 4 && 0 <= j < 4 ==> aggregate_names(x.id())[i] != aggregate_names(y.id())[j],
        forall|i: int, j: int|
            0 <= i < 4 && 0 <= j < 4 && i != j ==> aggregate_names(x.id())[i] != aggregate_names(x.id())[j],
{
    reveal_strlit("_");
    reveal_strlit("_result");
    reveal_strlit("_expected");
    reveal_strlit("_unexpected");
    reveal_strlit("_null");
    let a = x.id();
    let b = y.id();
    let na = aggregate_names(a);
    let nb = aggregate_names(b);
    assert(na[0].len() == 44 && na[1].len() == 46 && na[2].len() == 48 && na[3].len() == 42);
    assert(nb[0].len() == 44 && nb[1].len() == 46 && nb[2].len() == 48 && nb[3].len() == 42);
    assert forall|i: int| 0 <= i < 4 implies na[i].subrange(0, 36) =~= a && nb[i].subrange(0, 36) =~= b by {}
    assert forall|i: int, j: int| 0 <= i < 4 && 0 <= j < 4 implies na[i] != nb[j] by {
        if na[i] == nb[j] {
            assert(na[i].subrange(0, 36) == nb[j].subrange(0, 36));
        }
    }
}

} // verus!
