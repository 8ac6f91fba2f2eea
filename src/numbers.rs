use transmuter_math::Decimal;
use vstd::prelude::*;

verus! {

/// Two to the sixty-fourth: the weight of the high limb.
pub open spec fn limb_base() -> int {
    0x1_0000_0000_0000_0000int
}

/// A 128-bit unsigned magnitude carried as two 64-bit limbs, low limb first.
#[derive(Clone, Copy, Debug, PartialEq, Eq, Structural)]
pub struct FFIU128 {
    pub low: u64,
    pub high: u64,
}

impl FFIU128 {
    /// The magnitude that the two limbs stand for: `low | (high << 64)`.
    pub open spec fn value(self) -> u128 {
        (self.low as int + self.high as int * limb_base()) as u128
    }

    /// The limbs of a magnitude: its low and its high 64 bits.
    pub open spec fn encode(v: u128) -> FFIU128 {
        FFIU128 { low: (v as int % limb_base()) as u64, high: (v as int / limb_base()) as u64 }
    }
}

impl From<u128> for FFIU128 {
    fn from(value: u128) -> (r: FFIU128)
        ensures
            r == FFIU128::encode(value),
    {
        let low = #[verifier::truncate] (value as u64);
        let high = #[verifier::truncate] ((value >> 64u128) as u64);
        proof {
            assert(low == (value % 0x1_0000_0000_0000_0000u128) as u64) by (bit_vector)
                requires
                    low == #[verifier::truncate] (value as u64),
            ;
            assert(high == (value / 0x1_0000_0000_0000_0000u128) as u64) by (bit_vector)
                requires
                    high == #[verifier::truncate] ((value >> 64u128) as u64),
            ;
        }
        FFIU128 { low, high }
    }
}

impl vstd::std_specs::convert::FromSpecImpl<u128> for FFIU128 {
    open spec fn obeys_from_spec() -> bool {
        true
    }

    open spec fn from_spec(v: u128) -> FFIU128 {
        FFIU128::encode(v)
    }
}

impl From<FFIU128> for u128 {
    fn from(value: FFIU128) -> (r: u128)
        ensures
            r == value.value(),
    {
        let low = value.low;
        let high = value.high;
        let r = low as u128 | (high as u128) << 64u128;
        proof {
            assert(r == low as u128 + (high as u128) * 0x1_0000_0000_0000_0000u128) by (bit_vector)
                requires
                    r == low as u128 | (high as u128) << 64u128,
            ;
            assert((high as u128) * 0x1_0000_0000_0000_0000u128 == high as int * limb_base())
                by (nonlinear_arith)
                requires
                    high <= u64::MAX,
            ;
        }
        r
    }
}

impl vstd::std_specs::convert::FromSpecImpl<FFIU128> for u128 {
    open spec fn obeys_from_spec() -> bool {
        true
    }

    open spec fn from_spec(v: FFIU128) -> u128 {
        v.value()
    }
}

/// Decoding the limbs of any magnitude gives that magnitude back.
pub proof fn lemma_decode_encode(v: u128)
    ensures
        FFIU128::encode(v).value() == v,
{
}

/// Encoding the magnitude of any pair of limbs gives those limbs back.
pub proof fn lemma_encode_decode(w: FFIU128)
    ensures
        FFIU128::encode(w.value()) == w,
{
    assert(w.low as int + w.high as int * limb_base() < 0x1_0000_0000_0000_0000_0000_0000_0000_0000int)
        by (nonlinear_arith)
        requires
            w.low <= u64::MAX,
            w.high <= u64::MAX,
            limb_base() == 0x1_0000_0000_0000_0000int,
    ;
    let n = w.low as int + w.high as int * limb_base();
    assert(n % limb_base() == w.low as int && n / limb_base() == w.high as int) by (nonlinear_arith)
        requires
            n == w.low as int + w.high as int * limb_base(),
            0 <= w.low < limb_base(),
            limb_base() == 0x1_0000_0000_0000_0000int,
    ;
}

/// The engine's fixed-point decimal: an unsigned 128-bit count of atomic
/// units, each worth `10^-18`.
#[verifier::external_type_specification]
#[verifier::external_body]
pub struct ExDecimal(Decimal);

/// The atomic units that a `Decimal` holds.
pub uninterp spec fn decimal_atomics(d: Decimal) -> u128;

/// Relies on `Decimal::raw`: it wraps the given atomic units unchanged.
#[verifier::external_body]
fn decimal_from_atomics(value: u128) -> (d: Decimal)
    ensures
        decimal_atomics(d) == value,
{
    Decimal::raw(value)
}

/// Relies on `Decimal::atomics` and `Uint128::u128`: they hand back the
/// atomic units unchanged.
#[verifier::external_body]
fn atomics_of(d: &Decimal) -> (r: u128)
    ensures
        r == decimal_atomics(*d),
{
    d.atomics().u128()
}

/// A fixed-point decimal on the wire: its raw magnitude (the value times
/// `10^18`) as two 64-bit limbs. The scale is agreed on out of band and never
/// carried.
#[derive(Clone, Copy, Debug, PartialEq, Eq, Structural)]
pub struct FFIDecimal(pub FFIU128);

impl FFIDecimal {
    /// The raw scaled magnitude.
    pub open spec fn value(self) -> u128 {
        self.0.value()
    }

    /// The wire form of a raw scaled magnitude.
    pub open spec fn encode(raw: u128) -> FFIDecimal {
        FFIDecimal(FFIU128::encode(raw))
    }

    /// Puts a raw scaled magnitude on the wire.
    pub fn from_atomics(raw: u128) -> (r: FFIDecimal)
        ensures
            r == FFIDecimal::encode(raw),
            r.value() == raw,
    {
        proof {
            lemma_decode_encode(raw);
        }
        FFIDecimal(FFIU128::from(raw))
    }

    /// The raw scaled magnitude that the wire form carries.
    pub fn atomics(&self) -> (r: u128)
        ensures
            r == self.value(),
    {
        u128::from(self.0)
    }

    /// The engine's decimal with the same atomic units.
    pub fn to_decimal(&self) -> (d: Decimal)
        ensures
            decimal_atomics(d) == self.value(),
    {
        decimal_from_atomics(self.atomics())
    }
}

impl From<Decimal> for FFIDecimal {
    fn from(value: Decimal) -> (r: FFIDecimal)
        ensures
            r == FFIDecimal::encode(decimal_atomics(value)),
            r.value() == decimal_atomics(value),
    {
        FFIDecimal::from_atomics(atomics_of(&value))
    }
}

impl vstd::std_specs::convert::FromSpecImpl<Decimal> for FFIDecimal {
    open spec fn obeys_from_spec() -> bool {
        true
    }

    open spec fn from_spec(v: Decimal) -> FFIDecimal {
        FFIDecimal::encode(decimal_atomics(v))
    }
}

impl From<FFIDecimal> for Decimal {
    fn from(value: FFIDecimal) -> (r: Decimal)
        ensures
            decimal_atomics(r) == value.value(),
    {
        value.to_decimal()
    }
}

// A decimal is determined by its atomic units, but the declared type is
// opaque, so the result is given by the atomic units alone and not as a value.
impl vstd::std_specs::convert::FromSpecImpl<FFIDecimal> for Decimal {
    open spec fn obeys_from_spec() -> bool {
        false
    }

    open spec fn from_spec(v: FFIDecimal) -> Decimal {
        choose|d: Decimal| decimal_atomics(d) == v.value()
    }
}

/// A raw magnitude put on the wire as a decimal and read back is unchanged,
/// and so is a wire form read and put back.
pub proof fn lemma_decimal_round_trip(raw: u128, w: FFIDecimal)
    ensures
        FFIDecimal::encode(raw).value() == raw,
        FFIDecimal::encode(w.value()) == w,
{
    lemma_decode_encode(raw);
    lemma_encode_decode(w.0);
}

} // verus!
