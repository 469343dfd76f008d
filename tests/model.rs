use check::checks::{Check, IsNotNull};
use check::column::{ColumnMapCheck, MinMax, MinMaxOpts, Number};
use check::config::{CheckSuiteConfig, CheckSuiteMetadata};
use check::error::InternalError;
use check::expr::Expr;
use check::process_results;
use check::results::{AggregateValue, CheckAndResult, CheckResult, CheckResultSuite};

fn outcome(success: bool) -> CheckResult {
    CheckResult { success, expected_count: 1, unexpected_count: 0, null_count: 0 }
}

#[test]
fn min_max_needs_a_bound() {
    let r = MinMaxOpts::new(None, None);
    assert_eq!(r.unwrap_err(), "Either min or max must be set");
}

#[test]
fn min_max_variants() {
    assert!(matches!(MinMaxOpts::new(Some(Number::Int(1)), None), Ok(MinMaxOpts::Min { min: Number::Int(1) })));
    assert!(matches!(MinMaxOpts::new(None, Some(Number::Int(2))), Ok(MinMaxOpts::Max { max: Number::Int(2) })));
    assert!(matches!(
        MinMaxOpts::new(Some(Number::Int(1)), Some(Number::Int(2))),
        Ok(MinMaxOpts::MinMax { min: Number::Int(1), max: Number::Int(2) })
    ));
}

#[test]
fn extend_expr_builds_both_comparisons() {
    let opts = MinMaxOpts::new(Some(Number::Int(1)), Some(Number::Int(6))).unwrap();
    let e = MinMax::new(opts, true, false).extend_expr(Expr::Column("a".to_string()));
    match e {
        Expr::And(lower, upper) => {
            assert!(matches!(*lower, Expr::Gt(_, ref b) if matches!(**b, Expr::Literal(Number::Int(1)))));
            assert!(matches!(*upper, Expr::LtEq(_, ref b) if matches!(**b, Expr::Literal(Number::Int(6)))));
        }
        other => panic!("unexpected expression {:?}", other),
    }
}

#[test]
fn column_names_follow_the_identifier() {
    let c = ColumnMapCheck::new("a");
    let id = c.map_check.uuid();
    assert_eq!(id.len(), 36);
    assert_eq!(c.result_column(), format!("{}__result", id));
    assert_eq!(c.expected_column(), format!("{}__expected", id));
    assert_eq!(c.unexpected_column(), format!("{}__unexpected", id));
    assert_eq!(c.null_column(), format!("{}__null", id));
    let other = ColumnMapCheck::new("a");
    assert_ne!(other.result_column(), c.result_column());
}

#[test]
fn expressions_are_four_named_aggregates() {
    let c = ColumnMapCheck::new("a");
    let exprs = c.expressions(Expr::Column("a".to_string()));
    assert_eq!(exprs.len(), 4);
    assert!(matches!(&exprs[0], Expr::Alias(inner, n) if matches!(**inner, Expr::AllNonNull(_)) && *n == c.result_column()));
    assert!(matches!(&exprs[1], Expr::Alias(inner, n) if matches!(**inner, Expr::Sum(_)) && *n == c.expected_column()));
    assert!(matches!(&exprs[3], Expr::Alias(_, n) if *n == c.null_column()));
}

#[test]
fn decode_reads_all_four_values() {
    let c = ColumnMapCheck::new("a");
    let r = c.decode_result(
        Some(AggregateValue::Boolean(false)),
        Some(AggregateValue::UInt32(3)),
        Some(AggregateValue::UInt64(1)),
        Some(AggregateValue::UInt32(0)),
    );
    assert_eq!(r.unwrap(), CheckResult { success: false, expected_count: 3, unexpected_count: 1, null_count: 0 });
}

#[test]
fn decode_reports_missing_value() {
    let c = ColumnMapCheck::new("a");
    let r = c.decode_result(Some(AggregateValue::Boolean(true)), None, None, None);
    match r {
        Err(InternalError::MissingResultValue(n)) => assert_eq!(n, c.expected_column()),
        other => panic!("unexpected {:?}", other),
    }
}

#[test]
fn decode_reports_unexpected_type() {
    let c = ColumnMapCheck::new("a");
    let r = c.decode_result(Some(AggregateValue::Null), None, None, None);
    match r {
        Err(InternalError::UnexpectedResultType(n)) => assert_eq!(n, c.result_column()),
        other => panic!("unexpected {:?}", other),
    }
}

#[test]
fn process_results_needs_one_frame_per_check() {
    let checks = vec![Check::IsNotNull(IsNotNull::new("a"))];
    let r = process_results(&[], &checks);
    assert!(matches!(r, Err(InternalError::AggregationCountMismatch { expected: 1, actual: 0 })));
}

#[test]
fn suite_success_is_conjunction() {
    let empty = CheckResultSuite::new(vec![]);
    assert!(empty.success);
    let all = CheckResultSuite::new(vec![
        CheckAndResult::new(outcome(true), Check::IsNotNull(IsNotNull::new("a"))),
        CheckAndResult::new(outcome(true), Check::IsNotNull(IsNotNull::new("b"))),
    ]);
    assert!(all.success);
    let one_fails = CheckResultSuite::new(vec![
        CheckAndResult::new(outcome(true), Check::IsNotNull(IsNotNull::new("a"))),
        CheckAndResult::new(outcome(false), Check::IsNotNull(IsNotNull::new("b"))),
    ]);
    assert!(!one_fails.success);
    assert_eq!(one_fails.results.len(), 2);
}

#[test]
fn result_path_joins_directory_and_name() {
    let m = CheckSuiteMetadata::new("suite".to_string(), "data.parquet".to_string(), "out".to_string());
    assert_eq!(m.result_path(), "out/suite_results.json");
    let m = CheckSuiteMetadata::new("suite".to_string(), "data.parquet".to_string(), "out/".to_string());
    assert_eq!(m.result_path(), "out/suite_results.json");
    let m = CheckSuiteMetadata::new("suite".to_string(), "data.parquet".to_string(), "".to_string());
    assert_eq!(m.result_path(), "suite_results.json");
    assert_eq!(m.name(), "suite");
    assert_eq!(m.path(), "data.parquet");
}

#[test]
fn config_keeps_checks_in_order() {
    let m = CheckSuiteMetadata::new("s".to_string(), "p".to_string(), "r".to_string());
    let cfg = CheckSuiteConfig::new(m, vec![Check::IsNotNull(IsNotNull::new("x")), Check::IsNotNull(IsNotNull::new("y"))]);
    assert_eq!(cfg.checks().len(), 2);
    assert_eq!(cfg.metadata().name(), "s");
    match &cfg.checks()[1] {
        Check::IsNotNull(c) => assert_eq!(c.column.column, "y"),
        other => panic!("unexpected {:?}", other),
    }
}

#[test]
fn malformed_float_bound_is_rejected() {
    for text in ["abc", "1.2.3", ".", "3.", ".5", "-", "", "NaN", "1e5"] {
        let r = MinMaxOpts::new(Some(Number::Float(text.to_string())), None);
        assert_eq!(r.unwrap_err(), "A bound is not a decimal number", "text {:?}", text);
    }
    let r = MinMaxOpts::new(Some(Number::Int(0)), Some(Number::Float("x".to_string())));
    assert_eq!(r.unwrap_err(), "A bound is not a decimal number");
}

#[test]
fn well_formed_float_bounds_are_accepted() {
    for text in ["2.5", "-2.5", "10", "-0.001", "007"] {
        let n = Number::Float(text.to_string());
        assert!(n.is_well_formed(), "text {:?}", text);
        assert!(MinMaxOpts::new(None, Some(n)).is_ok());
    }
    assert!(Number::Int(-3).is_well_formed());
}
