use crate::errors::{classify, math_error_text, zero_window_message, MathError};
use crate::numbers::{decimal_atomics, FFIDecimal};
use crate::result::FFIResult;
use crate::slice::FFISlice;
use transmuter_math::{Decimal, Division, Timestamp, TransmuterMathError, Uint64};
use vstd::prelude::*;

verus! {

/// A division as plain values: started at, updated at, the raw magnitudes of
/// the latest value and of the integral.
pub type DivisionModel = (u64, u64, u128, u128);

/// One bucket of a time series, as it crosses the boundary.
#[derive(Clone, Copy, Debug, PartialEq, Eq, Structural)]
pub struct FFIDivision {
    /// Time (nanoseconds) at which the division was opened.
    pub started_at: u64,
    /// Time (nanoseconds) of the last observation folded into it.
    pub updated_at: u64,
    /// The most recently observed value.
    pub latest_value: FFIDecimal,
    /// Sum of each observed value times the time it held.
    pub integral: FFIDecimal,
}

impl FFIDivision {
    /// The division as plain values.
    pub open spec fn model(self) -> DivisionModel {
        (self.started_at, self.updated_at, self.latest_value.value(), self.integral.value())
    }

    /// The engine's division with the same timestamps and decimals.
    pub fn into_division(self) -> (r: Division)
        ensures
            division_content(r) == self.model(),
    {
        new_division(
            self.started_at,
            self.updated_at,
            self.latest_value.to_decimal(),
            self.integral.to_decimal(),
        )
    }
}

#[verifier::external_type_specification]
#[verifier::external_body]
pub struct ExDivision(Division);

/// The timestamps and atomic units that an engine division holds.
pub uninterp spec fn division_content(d: Division) -> DivisionModel;

/// Relies on `Division::unchecked_new` and `Timestamp::from_nanos`: the
/// division stores the given timestamps and decimals as they are.
#[verifier::external_body]
fn new_division(started_at: u64, updated_at: u64, latest_value: Decimal, integral: Decimal) -> (r:
    Division)
    ensures
        division_content(r) == (
            started_at,
            updated_at,
            decimal_atomics(latest_value),
            decimal_atomics(integral),
        ),
{
    Division::unchecked_new(
        Timestamp::from_nanos(started_at),
        Timestamp::from_nanos(updated_at),
        latest_value,
        integral,
    )
}

/// The atomic units of the engine's windowed average, or the text of the
/// error that the engine reports.
pub uninterp spec fn moving_average_of(
    removed: Option<DivisionModel>,
    divisions: Seq<DivisionModel>,
    division_size: u64,
    window_size: u64,
    block_time: u64,
) -> Result<u128, Seq<char>>;

/// The length of time that the window's integral is averaged over: the whole
/// window when an evicted division is given; otherwise from the later of the
/// window start and the first division's start up to `block_time`, zero when
/// that start is not before `block_time` or when there is no division.
pub open spec fn covered_duration(
    removed_given: bool,
    divisions: Seq<DivisionModel>,
    window_size: u64,
    block_time: u64,
) -> int {
    if removed_given {
        window_size as int
    } else if divisions.len() == 0 {
        0
    } else {
        let window_start = block_time - window_size;
        let start = if window_start >= divisions[0].0 {
            window_start
        } else {
            divisions[0].0 as int
        };
        if start < block_time {
            block_time - start
        } else {
            0
        }
    }
}

/// The plain values of an optional engine division.
pub open spec fn removed_content(removed: Option<Division>) -> Option<DivisionModel> {
    match removed {
        Some(d) => Some(division_content(d)),
        None => None,
    }
}

/// The plain values of an optional boundary division.
pub open spec fn removed_model(removed: Option<FFIDivision>) -> Option<DivisionModel> {
    match removed {
        Some(d) => Some(d.model()),
        None => None,
    }
}

/// The plain values of a run of boundary divisions, in order.
pub open spec fn divisions_model(divisions: Seq<FFIDivision>) -> Seq<DivisionModel> {
    divisions.map_values(|d: FFIDivision| d.model())
}

/// Relies on `transmuter_math::compressed_moving_average`: its result depends
/// on its arguments alone. Before any averaging it takes
/// `block_time - window_size` and fails if that underflows; with no current
/// division it returns the evicted division's latest value, or fails when
/// there is none. It fails when it would divide by a zero window (with an
/// evicted division) or by zero elapsed time since the first division
/// (without one).
#[verifier::external_body]
fn engine_moving_average(
    removed: Option<Division>,
    divisions: &[Division],
    division_size: u64,
    window_size: u64,
    block_time: u64,
) -> (r: Result<Decimal, TransmuterMathError>)
    ensures
        r is Ok ==> moving_average_of(
            removed_content(removed),
            divisions@.map_values(|d: Division| division_content(d)),
            division_size,
            window_size,
            block_time,
        ) == Ok::<u128, Seq<char>>(decimal_atomics(r->Ok_0)),
        r is Err ==> moving_average_of(
            removed_content(removed),
            divisions@.map_values(|d: Division| division_content(d)),
            division_size,
            window_size,
            block_time,
        ) == Err::<u128, Seq<char>>(math_error_text(r->Err_0)),
        block_time < window_size ==> r is Err,
        divisions@.len() == 0 && removed is None ==> r is Err,
        divisions@.len() == 0 && removed is Some && window_size <= block_time ==> r is Ok
            && decimal_atomics(r->Ok_0) == division_content(removed->Some_0).2,
        divisions@.len() > 0 && removed is None && division_content(divisions@[0]).0 >= block_time
            ==> r is Err,
{
    transmuter_math::compressed_moving_average(
        removed,
        divisions,
        Uint64::from(division_size),
        Uint64::from(window_size),
        Timestamp::from_nanos(block_time),
    )
}

/// The time-weighted average over the window that ends at `block_time`,
/// computed by the engine from the current divisions and the most recently
/// evicted one, as a success envelope; an error envelope with the engine's
/// message where no average can be formed. A window or division size of zero
/// leaves the window without length: that is an error of its own, and the
/// engine is not asked.
pub fn compressed_moving_average(
    latest_removed_division: Option<FFIDivision>,
    divisions: &FFISlice<FFIDivision>,
    division_size: u64,
    window_size: u64,
    block_time: u64,
) -> (r: FFIResult<FFIDecimal>)
    ensures
        window_size == 0 || division_size == 0 ==> r.ok_handle() is None && r.err_handle()
            == Some(zero_window_message()),
        window_size > 0 && division_size > 0 ==> match moving_average_of(
            removed_model(latest_removed_division),
            divisions_model(divisions@),
            division_size,
            window_size,
            block_time,
        ) {
            Ok(v) => r.ok_handle() == Some(FFIDecimal::encode(v)) && r.err_handle() is None,
            Err(m) => r.ok_handle() is None && r.err_handle() == Some(m),
        },
        block_time < window_size ==> r.ok_handle() is None && r.err_handle() is Some,
        divisions@.len() == 0 && latest_removed_division is None ==> r.ok_handle() is None
            && r.err_handle() is Some,
        divisions@.len() == 0 && latest_removed_division is Some && 0 < window_size <= block_time
            && division_size > 0 ==> r.ok_handle() == Some(
            latest_removed_division->Some_0.latest_value,
        ) && r.err_handle() is None,
        covered_duration(
            latest_removed_division is Some,
            divisions_model(divisions@),
            window_size,
            block_time,
        ) == 0 ==> r.ok_handle() is None && r.err_handle() is Some,
{
    if window_size == 0 || division_size == 0 {
        return FFIResult::err(MathError::ZeroWindow.message());
    }
    let removed = match latest_removed_division {
        Some(d) => Some(d.into_division()),
        None => None,
    };
    let items = divisions.as_slice();
    let mut converted: Vec<Division> = Vec::new();
    let mut i: usize = 0;
    while i < items.len()
        invariant
            i <= items@.len(),
            items@ == divisions@,
            converted@.len() == i,
            forall|j: int|
                0 <= j < i ==> #[trigger] division_content(converted@[j]) == items@[j].model(),
        decreases items@.len() - i,
    {
        converted.push(items[i].into_division());
        i = i + 1;
    }
    proof {
        assert(converted@.map_values(|d: Division| division_content(d)) =~= divisions_model(
            divisions@,
        ));
    }
    let res = engine_moving_average(
        removed,
        converted.as_slice(),
        division_size,
        window_size,
        block_time,
    );
    let outcome: Result<FFIDecimal, String> = match res {
        Ok(d) => Ok(FFIDecimal::from(d)),
        Err(e) => Err(classify(e).message()),
    };
    FFIResult::from(outcome)
}

} // verus!
