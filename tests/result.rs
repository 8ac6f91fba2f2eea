use rustffi::errors::MathError;
use rustffi::result::FFIResult;

#[test]
fn ok_envelope_holds_value_only() {
    let r = FFIResult::ok(7u8);
    assert!(r.is_ok());
    let (ok, err) = r.into_parts();
    assert_eq!(ok, Some(7u8));
    assert_eq!(err, None);
}

#[test]
fn err_envelope_holds_message_only() {
    let r: FFIResult<u8> = FFIResult::err("bad window".to_string());
    assert!(!r.is_ok());
    let (ok, err) = r.into_parts();
    assert_eq!(ok, None);
    assert_eq!(err, Some("bad window".to_string()));
}

#[test]
fn result_lifts_into_envelope() {
    let good: FFIResult<u32> = FFIResult::from(Ok::<u32, String>(3));
    assert_eq!(good.into_parts(), (Some(3), None));
    let bad: FFIResult<u32> = FFIResult::from(Err::<u32, String>("nope".to_string()));
    assert_eq!(bad.into_parts(), (None, Some("nope".to_string())));
}

#[test]
fn error_messages() {
    assert_eq!(
        MathError::ZeroWindow.message(),
        "Moving average is undefined over a window of zero length"
    );
    assert_eq!(
        MathError::MissingDataPoints("Missing data points to calculate moving average".to_string()).message(),
        "Missing data points to calculate moving average"
    );
    assert_eq!(MathError::Overflow("Cannot Sub with 1 and 2".to_string()).message(), "Cannot Sub with 1 and 2");
    assert_eq!(MathError::DivideByZero("Cannot divide 1 by zero".to_string()).message(), "Cannot divide 1 by zero");
}
