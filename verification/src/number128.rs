use vstd::prelude::*;

use crate::error::ErrorCode;

verus! {

/// Scale of the fixed-point accrual counter: 64 fractional bits, so a raw
/// value of `FIXED_POINT_SCALE` stands for exactly 1 reward unit per gem.
pub const FIXED_POINT_SCALE: u128 = 0x1_0000_0000_0000_0000;

/// High-precision fractional "reward per staked unit" counter.
///
/// The raw `value` holds the counter scaled by [`FIXED_POINT_SCALE`], giving
/// 64 integer and 64 fractional bits. Sub-unit precision avoids rounding loss
/// when unit counts are large and rates are small. Only the variable-rate
/// reward stream uses this type.
#[derive(Clone, Copy, Debug, PartialEq, Eq, Structural)]
pub struct Number128 {
    /// The counter multiplied by `FIXED_POINT_SCALE`.
    pub value: u128,
}

impl From<u64> for Number128 {
    /// Builds the counter from a whole number of reward units per gem; the
    /// fractional part is zero.
    fn from(n: u64) -> (r: Number128) {
        Number128 { value: (n as u128) * FIXED_POINT_SCALE }
    }
}

impl vstd::std_specs::convert::FromSpecImpl<u64> for Number128 {
    open spec fn obeys_from_spec() -> bool {
        true
    }

    open spec fn from_spec(n: u64) -> Number128 {
        Number128 { value: (n * FIXED_POINT_SCALE) as u128 }
    }
}

impl Number128 {
    /// Checked addition of two counters; fails instead of wrapping.
    pub fn try_add(self, other: Number128) -> (r: Result<Number128, ErrorCode>)
        ensures
            self.value + other.value <= u128::MAX ==> r == Ok::<Number128, ErrorCode>(
                Number128 { value: (self.value + other.value) as u128 },
            ),
            self.value + other.value > u128::MAX ==> r == Err::<Number128, ErrorCode>(
                ErrorCode::ArithmeticOverflow,
            ),
    {
        match self.value.checked_add(other.value) {
            Some(v) => Ok(Number128 { value: v }),
            None => Err(ErrorCode::ArithmeticOverflow),
        }
    }

    /// Checked subtraction of two counters; fails instead of wrapping.
    pub fn try_sub(self, other: Number128) -> (r: Result<Number128, ErrorCode>)
        ensures
            other.value <= self.value ==> r == Ok::<Number128, ErrorCode>(
                Number128 { value: (self.value - other.value) as u128 },
            ),
            other.value > self.value ==> r == Err::<Number128, ErrorCode>(
                ErrorCode::ArithmeticUnderflow,
            ),
    {
        match self.value.checked_sub(other.value) {
            Some(v) => Ok(Number128 { value: v }),
            None => Err(ErrorCode::ArithmeticUnderflow),
        }
    }

    /// True when this counter is at most `other`.
    pub fn le(self, other: Number128) -> (b: bool)
        ensures
            b == (self.value <= other.value),
    {
        self.value <= other.value
    }

    /// Multiplies the per-gem counter by a unit count and truncates to a whole
    /// reward amount, dropping the fractional part; fails when the scaled
    /// product exceeds the counter's width.
    pub fn try_scaled_amount(self, units: u64) -> (r: Result<u64, ErrorCode>)
        ensures
            self.value * units <= u128::MAX ==> r == Ok::<u64, ErrorCode>(
                ((self.value * units) / (FIXED_POINT_SCALE as int)) as u64,
            ),
            self.value * units > u128::MAX ==> r == Err::<u64, ErrorCode>(
                ErrorCode::ArithmeticOverflow,
            ),
    {
        match self.value.checked_mul(units as u128) {
            Some(scaled) => {
                let amount: u128 = scaled / FIXED_POINT_SCALE;
                assert(amount <= u64::MAX) by {
                    vstd::arithmetic::div_mod::lemma_div_is_ordered(
                        scaled as int,
                        u128::MAX as int,
                        FIXED_POINT_SCALE as int,
                    );
                };
                Ok(amount as u64)
            },
            None => Err(ErrorCode::ArithmeticOverflow),
        }
    }
}

} // verus!
