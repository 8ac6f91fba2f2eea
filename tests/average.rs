use rustffi::numbers::FFIDecimal;
use rustffi::slice::FFISlice;
use rustffi::transmuter::{compressed_moving_average, FFIDivision};
use transmuter_math::{Decimal, Division, Timestamp};

const ONE: u128 = 1_000_000_000_000_000_000;

fn division(started_at: u64, updated_at: u64, latest: u128, integral: u128) -> FFIDivision {
    FFIDivision {
        started_at,
        updated_at,
        latest_value: FFIDecimal::from_atomics(latest),
        integral: FFIDecimal::from_atomics(integral),
    }
}

fn average(
    removed: Option<FFIDivision>,
    divisions: Vec<FFIDivision>,
    division_size: u64,
    window_size: u64,
    block_time: u64,
) -> (Option<u128>, Option<String>) {
    let slice = FFISlice::new(divisions);
    let r = compressed_moving_average(removed, &slice, division_size, window_size, block_time);
    let (ok, err) = r.into_parts();
    (ok.map(|d| d.atomics()), err)
}

#[test]
fn single_bucket_average() {
    let v = 5 * ONE;
    let d = division(0, 100, v, 100 * v);
    assert_eq!(average(None, vec![d], 100, 100, 100), (Some(v), None));
}

#[test]
fn partial_overlap_prorated() {
    let v = 3 * ONE;
    let d = division(0, 200, v, 200 * v);
    assert_eq!(average(None, vec![d], 200, 100, 200), (Some(v), None));
}

const ZERO_WINDOW: &str = "Moving average is undefined over a window of zero length";

#[test]
fn zero_window_is_error() {
    let d = division(0, 100, ONE, 100 * ONE);
    assert_eq!(average(None, vec![d], 100, 0, 100), (None, Some(ZERO_WINDOW.to_string())));
    assert_eq!(average(Some(d), vec![d], 100, 0, 100), (None, Some(ZERO_WINDOW.to_string())));
    assert_eq!(average(Some(d), vec![], 100, 0, 100), (None, Some(ZERO_WINDOW.to_string())));
}

#[test]
fn zero_division_size_is_error() {
    let d = division(0, 100, ONE, 100 * ONE);
    assert_eq!(average(Some(d), vec![], 0, 100, 100), (None, Some(ZERO_WINDOW.to_string())));
    assert_eq!(average(None, vec![d], 0, 100, 100), (None, Some(ZERO_WINDOW.to_string())));
}

#[test]
fn zero_covered_duration_is_error() {
    let d = division(100, 100, ONE, 0);
    let (ok, err) = average(None, vec![d], 100, 50, 100);
    assert_eq!(ok, None);
    assert_eq!(
        err,
        Some("Moving average is undefined due to zero elapsed time since limiter started tracking".to_string())
    );
}

#[test]
fn empty_input_without_evicted_is_error() {
    let (ok, err) = average(None, vec![], 100, 100, 1000);
    assert_eq!(ok, None);
    assert_eq!(err, Some("Missing data points to calculate moving average".to_string()));
}

#[test]
fn empty_input_uses_evicted_latest_value() {
    let evicted = division(0, 50, 7 * ONE, 350 * ONE);
    assert_eq!(average(Some(evicted), vec![], 100, 100, 1000), (Some(7 * ONE), None));
}

#[test]
fn zero_covered_duration_after_first_division_is_error() {
    let d = division(150, 150, ONE, 0);
    let (ok, err) = average(None, vec![d], 100, 100, 120);
    assert_eq!(ok, None);
    assert_eq!(err, Some("Cannot Sub with 120 and 150".to_string()));
}

#[test]
fn window_before_epoch_is_error() {
    let (ok, err) = average(None, vec![division(0, 10, ONE, 10 * ONE)], 100, 100, 50);
    assert_eq!(ok, None);
    assert_eq!(err, Some("Cannot Sub with 50 and 100".to_string()));
}

#[test]
fn into_division_keeps_fields() {
    let d = division(10, 20, 2 * ONE, 20 * ONE);
    let expected = Division::unchecked_new(
        Timestamp::from_nanos(10),
        Timestamp::from_nanos(20),
        Decimal::raw(2 * ONE),
        Decimal::raw(20 * ONE),
    );
    assert_eq!(d.into_division(), expected);
}

#[test]
fn slice_copies_in_order() {
    let a = division(0, 1, 1, 1);
    let b = division(1, 2, 2, 2);
    let s = FFISlice::new(vec![a, b]);
    assert_eq!(s.len(), 2);
    assert_eq!(s.as_slice(), &[a, b]);
    let empty: FFISlice<FFIDivision> = FFISlice::new(vec![]);
    assert_eq!(empty.len(), 0);
}
