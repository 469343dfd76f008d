use check::checks::{Check, IsBetween, IsNotNull, IsUnique};
use check::column::{MinMax, MinMaxOpts, Number};
use check::error::InternalError;
use check::results::CheckAndResult;
use check::run_computed_checks;
use polars::prelude::{Column, DataFrame, IntoLazy, LazyFrame};

fn ints(values: &[i64]) -> LazyFrame {
    DataFrame::new(vec![Column::new("a".into(), values.to_vec())]).unwrap().lazy()
}

fn optional_ints(values: &[Option<i64>]) -> LazyFrame {
    DataFrame::new(vec![Column::new("a".into(), values.to_vec())]).unwrap().lazy()
}

fn run(lf: &LazyFrame, checks: &[Check]) -> Vec<CheckAndResult> {
    run_computed_checks(lf, checks).unwrap()
}

fn between(min: Option<i64>, max: Option<i64>, strict_min: bool, strict_max: bool) -> Check {
    let opts = MinMaxOpts::new(min.map(Number::from), max.map(Number::from)).unwrap();
    Check::IsBetween(IsBetween::new("a", MinMax { min_max: opts, strict_min, strict_max }))
}

#[test]
fn run_is_not_null_success() {
    let checks = &[Check::IsNotNull(IsNotNull::new("a"))];
    let result = run(&ints(&[1, 2, 3]), checks);
    assert!(result[0].result.success);
}

#[test]
fn run_is_not_null_failure() {
    let checks = &[Check::IsNotNull(IsNotNull::new("a"))];
    let result = run(&optional_ints(&[Some(1), Some(2), Some(3), None]), checks);
    assert!(!result[0].result.success);
}

#[test]
fn run_is_unique_success() {
    let checks = &[Check::IsUnique(IsUnique::new("a"))];
    let result = run(&ints(&[1, 2, 3]), checks);
    assert!(result[0].result.success);
}

#[test]
fn run_is_unique_failure() {
    let checks = &[Check::IsUnique(IsUnique::new("a"))];
    let result = run(&ints(&[1, 2, 3, 3]), checks);
    assert!(!result[0].result.success);
}

#[test]
fn is_between_i64() {
    let cases = [
        (Some(0), None, false, false, true),
        (Some(0), Some(10), false, false, true),
        (None, Some(2), false, false, false),
        (Some(2), None, false, false, false),
        (Some(1), None, true, false, false),
        (Some(1), Some(6), true, false, false),
    ];
    for (min, max, strict_min, strict_max, success) in cases {
        let checks = &[between(min, max, strict_min, strict_max)];
        let result = run(&ints(&[1, 2, 3]), checks);
        assert_eq!(result[0].result.success, success);
    }
}

#[test]
fn is_not_null_pass_counts() {
    let result = run(&ints(&[1, 2, 3]), &[Check::IsNotNull(IsNotNull::new("a"))]);
    let r = result[0].result;
    assert!(r.success);
    assert_eq!((r.expected_count, r.unexpected_count, r.null_count), (3, 0, 0));
}

#[test]
fn is_not_null_fail_counts() {
    let lf = optional_ints(&[Some(1), Some(2), Some(3), None]);
    let result = run(&lf, &[Check::IsNotNull(IsNotNull::new("a"))]);
    let r = result[0].result;
    assert!(!r.success);
    assert_eq!((r.expected_count, r.unexpected_count, r.null_count), (3, 1, 0));
}

#[test]
fn is_unique_flags_every_duplicate() {
    let result = run(&ints(&[1, 2, 3, 3]), &[Check::IsUnique(IsUnique::new("a"))]);
    let r = result[0].result;
    assert!(!r.success);
    assert_eq!((r.expected_count, r.unexpected_count, r.null_count), (2, 2, 0));
}

#[test]
fn is_between_counts_nulls_apart() {
    let lf = optional_ints(&[Some(1), None, Some(3), Some(7)]);
    let result = run(&lf, &[between(Some(0), Some(5), false, false)]);
    let r = result[0].result;
    assert!(!r.success);
    assert_eq!((r.expected_count, r.unexpected_count, r.null_count), (2, 1, 1));
    assert_eq!(r.expected_count + r.unexpected_count + r.null_count, 4);
}

#[test]
fn is_between_ignores_nulls_for_success() {
    let lf = optional_ints(&[Some(1), None, Some(3)]);
    let result = run(&lf, &[between(Some(1), None, false, false)]);
    let r = result[0].result;
    assert!(r.success);
    assert_eq!((r.expected_count, r.unexpected_count, r.null_count), (2, 0, 1));
}

#[test]
fn is_between_strict_max() {
    let result = run(&ints(&[1, 2, 3]), &[between(None, Some(3), false, true)]);
    assert!(!result[0].result.success);
    let result = run(&ints(&[1, 2, 3]), &[between(None, Some(3), false, false)]);
    assert!(result[0].result.success);
}

#[test]
fn is_between_float_bounds() {
    let opts = MinMaxOpts::new(None, Some(Number::Float("2.5".to_string()))).unwrap();
    let check = Check::IsBetween(IsBetween::new("a", MinMax::new(opts, false, false)));
    let result = run(&ints(&[1, 2, 3]), &[check]);
    assert!(!result[0].result.success);
    assert_eq!(result[0].result.unexpected_count, 1);

    let opts = MinMaxOpts::new(Some(Number::Float("0.5".to_string())), Some(Number::Float("3.5".to_string())))
        .unwrap();
    let check = Check::IsBetween(IsBetween::new("a", MinMax::new(opts, true, true)));
    let result = run(&ints(&[1, 2, 3]), &[check]);
    assert!(result[0].result.success);
}

#[test]
fn same_column_checks_do_not_collide() {
    let checks = &[
        Check::IsNotNull(IsNotNull::new("a")),
        Check::IsUnique(IsUnique::new("a")),
        Check::IsNotNull(IsNotNull::new("a")),
    ];
    let result = run(&ints(&[1, 2, 3, 3]), checks);
    assert_eq!(result.len(), 3);
    assert!(result[0].result.success);
    assert_eq!(result[0].result.expected_count, 4);
    assert!(!result[1].result.success);
    assert_eq!(result[1].result.unexpected_count, 2);
    assert!(result[2].result.success);
    assert!(matches!(result[0].check, Check::IsNotNull(_)));
    assert!(matches!(result[1].check, Check::IsUnique(_)));
}

#[test]
fn empty_check_list_runs() {
    let result = run(&ints(&[1, 2, 3]), &[]);
    assert!(result.is_empty());
}

#[test]
fn missing_column_is_an_engine_error() {
    let checks = &[Check::IsNotNull(IsNotNull::new("b"))];
    let r = run_computed_checks(&ints(&[1, 2, 3]), checks);
    assert!(matches!(r, Err(InternalError::PolarsError(_))));
}

fn frame_for(c: &check::column::ColumnMapCheck, with_null_column: bool) -> DataFrame {
    let mut columns = vec![
        Column::new(c.result_column().as_str().into(), [true]),
        Column::new(c.expected_column().as_str().into(), [3u32]),
        Column::new(c.unexpected_column().as_str().into(), [0u64]),
        Column::new("other".into(), [7u32]),
    ];
    if with_null_column {
        columns.push(Column::new(c.null_column().as_str().into(), [1u32]));
    }
    DataFrame::new(columns).unwrap()
}

#[test]
fn process_results_decodes_each_frame() {
    let checks = vec![Check::IsNotNull(IsNotNull::new("a")), Check::IsUnique(IsUnique::new("a"))];
    let (first, second) = match (&checks[0], &checks[1]) {
        (Check::IsNotNull(x), Check::IsUnique(y)) => (&x.column, &y.column),
        _ => unreachable!(),
    };
    let frames = vec![frame_for(first, true), frame_for(second, true)];
    let r = check::process_results(&frames, &checks).unwrap();
    assert_eq!(r.len(), 2);
    for pair in &r {
        assert_eq!(
            pair.result,
            check::results::CheckResult { success: true, expected_count: 3, unexpected_count: 0, null_count: 1 }
        );
    }

    let frames = vec![frame_for(first, true), frame_for(second, false)];
    match check::process_results(&frames, &checks) {
        Err(InternalError::MissingResultValue(n)) => assert_eq!(n, second.null_column()),
        other => panic!("unexpected {:?}", other.map(|v| v.len())),
    }

    let swapped = vec![frame_for(second, true), frame_for(first, true)];
    assert!(matches!(
        check::process_results(&swapped, &checks),
        Err(InternalError::MissingResultValue(_))
    ));
}
