use transmuter_math::TransmuterMathError;
use vstd::prelude::*;

verus! {

/// Why no average could be computed. Each engine error keeps the text that
/// the engine renders for it.
#[derive(Clone, Debug, PartialEq, Eq)]
pub enum MathError {
    /// The window or the division size is zero, so the window has no length.
    ZeroWindow,
    /// A division's timestamps run backwards.
    NonMonotonicTime(String),
    /// No time has elapsed over which to average.
    UndefinedMovingAverage(String),
    /// There is nothing to average.
    MissingDataPoints(String),
    /// An arithmetic operation overflowed.
    Overflow(String),
    /// A division by zero.
    DivideByZero(String),
    /// A ratio could not be formed.
    CheckedFromRatio(String),
}

/// The text of the error for a window without length.
pub open spec fn zero_window_message() -> Seq<char> {
    "Moving average is undefined over a window of zero length"@
}

impl MathError {
    /// The readable message of the error.
    pub open spec fn message_spec(&self) -> Seq<char> {
        match self {
            MathError::ZeroWindow => zero_window_message(),
            MathError::NonMonotonicTime(m) => m@,
            MathError::UndefinedMovingAverage(m) => m@,
            MathError::MissingDataPoints(m) => m@,
            MathError::Overflow(m) => m@,
            MathError::DivideByZero(m) => m@,
            MathError::CheckedFromRatio(m) => m@,
        }
    }

    /// Renders the error as the message handed across the boundary.
    pub fn message(&self) -> (r: String)
        ensures
            r@ == self.message_spec(),
    {
        match self {
            MathError::ZeroWindow => {
                "Moving average is undefined over a window of zero length".to_string()
            },
            MathError::NonMonotonicTime(m) => m.clone(),
            MathError::UndefinedMovingAverage(m) => m.clone(),
            MathError::MissingDataPoints(m) => m.clone(),
            MathError::Overflow(m) => m.clone(),
            MathError::DivideByZero(m) => m.clone(),
            MathError::CheckedFromRatio(m) => m.clone(),
        }
    }
}

#[verifier::external_type_specification]
#[verifier::external_body]
pub struct ExTransmuterMathError(TransmuterMathError);

/// The text that an engine error renders to.
pub uninterp spec fn math_error_text(e: TransmuterMathError) -> Seq<char>;

/// Relies on the variants of `TransmuterMathError` and on its `Display`
/// (derived by thiserror from the variant and, for the wrapped arithmetic
/// errors, from their own fields): one arm each, each keeping the rendered
/// text.
#[verifier::external_body]
pub(crate) fn classify(e: TransmuterMathError) -> (r: MathError)
    ensures
        r.message_spec() == math_error_text(e),
        !(r is ZeroWindow),
{
    let text = e.to_string();
    match e {
        TransmuterMathError::NonMonotonicTime => MathError::NonMonotonicTime(text),
        TransmuterMathError::UndefinedMovingAverage => MathError::UndefinedMovingAverage(text),
        TransmuterMathError::MissingDataPoints => MathError::MissingDataPoints(text),
        TransmuterMathError::OverflowError(_) => MathError::Overflow(text),
        TransmuterMathError::DivideByZeroError(_) => MathError::DivideByZero(text),
        TransmuterMathError::CheckedFromRatioError(_) => MathError::CheckedFromRatio(text),
    }
}

} // verus!
