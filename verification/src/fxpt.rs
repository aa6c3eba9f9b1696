//! Fixed-point numbers: signed integers scaled by a power-of-two divisor.

use vstd::prelude::*;

verus! {

/// Number of fractional bits in a fixed-point value.
pub const FIXED_POINT_SHIFT: u32 = 5;

/// The divisor implied by `FIXED_POINT_SHIFT`: a fixed-point value denotes
/// the stored integer divided by this constant.
pub const FIXED_POINT_DIVISOR: i16 = 32;

/// Smallest whole number whose scaled form fits in the backing integer.
pub const FXPT_MIN_UNITS: i16 = -1024;

/// Largest whole number whose scaled form fits in the backing integer.
pub const FXPT_MAX_UNITS: i16 = 1023;

/// A fixed-point number, denoting the rational `self.0 / FIXED_POINT_DIVISOR`.
#[derive(Clone, Copy, PartialEq, Eq, Structural, Debug)]
pub struct Fxpt(pub i16);

/// Scaling a whole number would overflow the backing integer.
#[derive(Clone, Copy, PartialEq, Eq, Structural, Debug)]
pub struct FxptOverflow;

/// An arithmetic right shift by `FIXED_POINT_SHIFT` is division by
/// `FIXED_POINT_DIVISOR` rounded toward negative infinity, which for this
/// positive divisor is exactly the Euclidean division of the specification
/// language.
pub proof fn lemma_shr_is_div(x: i16)
    ensures
        x >> FIXED_POINT_SHIFT == x as int / FIXED_POINT_DIVISOR as int,
{
    let q = x >> FIXED_POINT_SHIFT;
    assert(32 * (x >> FIXED_POINT_SHIFT) <= x && x < 32 * (x >> FIXED_POINT_SHIFT) + 32)
        by (bit_vector);
    vstd::arithmetic::div_mod::lemma_fundamental_div_mod_converse(
        x as int,
        32,
        q as int,
        x - 32 * q,
    );
}

impl Fxpt {
    /// Builds the fixed-point value for the whole number `units`; reports
    /// overflow instead of scaling out of range.
    pub fn try_from_units(units: i16) -> (r: Result<Fxpt, FxptOverflow>)
        ensures
            FXPT_MIN_UNITS <= units <= FXPT_MAX_UNITS ==> (r matches Ok(f)
                && f.0 == units * FIXED_POINT_DIVISOR),
            !(FXPT_MIN_UNITS <= units <= FXPT_MAX_UNITS) ==> r is Err,
    {
        if FXPT_MIN_UNITS <= units && units <= FXPT_MAX_UNITS {
            Ok(Fxpt(units * FIXED_POINT_DIVISOR))
        } else {
            Err(FxptOverflow)
        }
    }

    /// Builds the fixed-point value for the whole number `units`; the caller
    /// guarantees the scaled form fits.
    pub fn from_units(units: i16) -> (r: Fxpt)
        requires
            FXPT_MIN_UNITS <= units <= FXPT_MAX_UNITS,
        ensures
            r.0 == units * FIXED_POINT_DIVISOR,
    {
        Fxpt(units * FIXED_POINT_DIVISOR)
    }

    /// Recovers the whole-number part, rounding toward negative infinity.
    pub fn to_units(self) -> (r: i16)
        ensures
            r == self.0 as int / FIXED_POINT_DIVISOR as int,
    {
        proof {
            lemma_shr_is_div(self.0);
        }
        self.0 >> FIXED_POINT_SHIFT
    }
}

/// A whole number within range survives the trip into fixed point and back.
pub proof fn lemma_units_round_trip(units: i16)
    requires
        FXPT_MIN_UNITS <= units <= FXPT_MAX_UNITS,
    ensures
        (units * FIXED_POINT_DIVISOR) as i16 as int / FIXED_POINT_DIVISOR as int == units,
{
    assert((units * FIXED_POINT_DIVISOR) as i16 == units * 32);
    vstd::arithmetic::div_mod::lemma_fundamental_div_mod_converse(
        units * 32,
        32,
        units as int,
        0,
    );
}

} // verus!
