use vstd::prelude::*;

use crate::error::ErrorCode;

verus! {

/// One tier of a fixed-rate schedule: `reward_rate` applies once cumulative
/// tenure since the original staking start reaches `required_tenure`.
#[derive(Clone, Copy, Debug, PartialEq, Eq, Structural)]
pub struct TierConfig {
    /// Reward per gem per second while this tier is the highest one reached.
    pub reward_rate: u64,
    /// Tenure (seconds since staking start) at which this tier takes effect.
    pub required_tenure: u64,
}

/// A tenure-tiered reward-rate table: a base rate plus up to three optional
/// tiers ordered by `required_tenure`, and a `denominator` scaling factor
/// applied to every computed amount.
///
/// The rate at a given instant is the rate of the highest tier whose
/// `required_tenure` has been reached, or `base_rate` before the first tier.
#[derive(Clone, Copy, Debug, PartialEq, Eq, Structural)]
pub struct FixedRateSchedule {
    /// Rate in effect before any tier's tenure is reached.
    pub base_rate: u64,
    pub tier1: Option<TierConfig>,
    pub tier2: Option<TierConfig>,
    pub tier3: Option<TierConfig>,
    /// Scaling factor every amount is divided by; at least 1.
    pub denominator: u64,
}

impl FixedRateSchedule {
    /// Well-formedness: tiers are filled in order, their tenures ascend, and
    /// the scaling factor is nonzero. Constructors of schedules must
    /// establish this; all reward math assumes it.
    pub open spec fn wf(self) -> bool {
        &&& self.denominator >= 1
        &&& self.tier2 is Some ==> self.tier1 is Some
        &&& self.tier3 is Some ==> self.tier2 is Some
        &&& self.tier1 is Some && self.tier2 is Some ==> self.tier1->0.required_tenure
            <= self.tier2->0.required_tenure
        &&& self.tier2 is Some && self.tier3 is Some ==> self.tier2->0.required_tenure
            <= self.tier3->0.required_tenure
    }

    /// Runtime check of [`FixedRateSchedule::wf`], for callers that receive a
    /// schedule from outside verified code.
    pub fn is_well_formed(&self) -> (b: bool)
        ensures
            b == self.wf(),
    {
        if self.denominator == 0 {
            return false;
        }
        if self.tier2.is_some() && self.tier1.is_none() {
            return false;
        }
        if self.tier3.is_some() && self.tier2.is_none() {
            return false;
        }
        if let (Some(t1), Some(t2)) = (&self.tier1, &self.tier2) {
            if t1.required_tenure > t2.required_tenure {
                return false;
            }
        }
        if let (Some(t2), Some(t3)) = (&self.tier2, &self.tier3) {
            if t2.required_tenure > t3.required_tenure {
                return false;
            }
        }
        true
    }

    /// The reward rate in effect at tenure instant `t`: the highest tier whose
    /// required tenure has been reached, else the base rate.
    pub open spec fn rate_at(self, t: int) -> int {
        if self.tier3 is Some && t >= self.tier3->0.required_tenure {
            self.tier3->0.reward_rate as int
        } else if self.tier2 is Some && t >= self.tier2->0.required_tenure {
            self.tier2->0.reward_rate as int
        } else if self.tier1 is Some && t >= self.tier1->0.required_tenure {
            self.tier1->0.reward_rate as int
        } else {
            self.base_rate as int
        }
    }

    /// The per-gem reward integrated over the tenure interval `[start, end)`:
    /// the sum of the instantaneous rate over every second of the interval.
    /// This is the mathematical meaning the executable closed-form
    /// computation is proved against.
    pub open spec fn reward_between(self, start: int, end: int) -> int
        decreases end - start,
    {
        if end <= start {
            0
        } else {
            self.rate_at(start) + self.reward_between(start + 1, end)
        }
    }

    /// What `reward_amount` returns: the per-gem integral over
    /// `[start_from, end_at)`, multiplied by the gem count and divided by the
    /// scaling denominator, or the exact error when the interval is reversed
    /// or an intermediate product leaves the integer width.
    pub open spec fn reward_amount_result(self, start_from: u64, end_at: u64, gems: u64) -> Result<
        u64,
        ErrorCode,
    > {
        if end_at < start_from {
            Err(ErrorCode::InvalidInterval)
        } else {
            let per_gem = self.reward_between(start_from as int, end_at as int);
            if per_gem > u64::MAX || per_gem * gems > u64::MAX {
                Err(ErrorCode::ArithmeticOverflow)
            } else {
                Ok(((per_gem * gems) / (self.denominator as int)) as u64)
            }
        }
    }
}

/// The integral of a nonnegative rate is nonnegative.
pub proof fn lemma_reward_between_nonneg(s: FixedRateSchedule, a: int, b: int)
    ensures
        s.reward_between(a, b) >= 0,
    decreases b - a,
{
    if a < b {
        lemma_reward_between_nonneg(s, a + 1, b);
    }
}

/// The integral over `[a, b)` splits at any interior point `m`.
pub proof fn lemma_reward_between_split(s: FixedRateSchedule, a: int, m: int, b: int)
    requires
        a <= m <= b,
    ensures
        s.reward_between(a, b) == s.reward_between(a, m) + s.reward_between(m, b),
    decreases m - a,
{
    if a < m {
        lemma_reward_between_split(s, a + 1, m, b);
    }
}

/// Over an interval on which the rate is constantly `r`, the integral is
/// `r` times the interval's length.
proof fn lemma_reward_between_const(s: FixedRateSchedule, a: int, b: int, r: int)
    requires
        a <= b,
        forall|t: int| a <= t < b ==> s.rate_at(t) == r,
    ensures
        s.reward_between(a, b) == r * (b - a),
    decreases b - a,
{
    if a < b {
        lemma_reward_between_const(s, a + 1, b, r);
        assert(r * (b - a) == r * (b - a - 1) + r) by (nonlinear_arith);
    } else {
        assert(r * (b - a) == 0) by (nonlinear_arith)
            requires
                a == b,
        ;
    }
}

/// Extending the interval never loses reward: the integral is monotone in its
/// right endpoint.
pub proof fn lemma_reward_between_monotonic(s: FixedRateSchedule, a: int, b1: int, b2: int)
    requires
        a <= b1 <= b2,
    ensures
        s.reward_between(a, b1) <= s.reward_between(a, b2),
{
    lemma_reward_between_split(s, a, b1, b2);
    lemma_reward_between_nonneg(s, b1, b2);
}

/// The product of two values within the 64-bit range fits the 128-bit range.
proof fn lemma_u64_mul_fits(x: int, y: int)
    requires
        0 <= x <= u64::MAX,
        0 <= y <= u64::MAX,
    ensures
        0 <= x * y <= u64::MAX * u64::MAX,
{
    assert(0 <= x * y <= u64::MAX * u64::MAX) by (nonlinear_arith)
        requires
            0 <= x <= u64::MAX,
            0 <= y <= u64::MAX,
    ;
}

/// Clamps `x` into the interval `[lo, hi]`.
fn clamp_to(x: u64, lo: u64, hi: u64) -> (r: u64)
    requires
        lo <= hi,
    ensures
        r == if x < lo {
            lo
        } else if x > hi {
            hi
        } else {
            x
        },
        lo <= r <= hi,
{
    if x < lo {
        lo
    } else if x > hi {
        hi
    } else {
        x
    }
}

impl FixedRateSchedule {
    /// The per-gem reward over `[start_from, end_at)`, computed in closed form
    /// as at most four constant-rate segments cut at the tier boundaries that
    /// fall inside the interval — never iterated per second.
    fn reward_per_gem(&self, start_from: u64, end_at: u64) -> (r: Result<u64, ErrorCode>)
        requires
            self.wf(),
            start_from <= end_at,
        ensures
            self.reward_between(start_from as int, end_at as int) >= 0,
            ({
                let total = self.reward_between(start_from as int, end_at as int);
                if total > u64::MAX {
                    r == Err::<u64, ErrorCode>(ErrorCode::ArithmeticOverflow)
                } else {
                    r == Ok::<u64, ErrorCode>(total as u64)
                }
            }),
    {
        let ghost s = start_from as int;
        let ghost e = end_at as int;
        let ghost total = self.reward_between(s, e);
        // Tier boundaries clamped into the interval; an absent tier
        // contributes an empty segment at the right end.
        let c1: u64 = match &self.tier1 {
            Some(t) => clamp_to(t.required_tenure, start_from, end_at),
            None => end_at,
        };
        let c2: u64 = match &self.tier2 {
            Some(t) => clamp_to(t.required_tenure, start_from, end_at),
            None => end_at,
        };
        let c3: u64 = match &self.tier3 {
            Some(t) => clamp_to(t.required_tenure, start_from, end_at),
            None => end_at,
        };
        assert(start_from <= c1 && c1 <= c2 && c2 <= c3 && c3 <= end_at);
        let rate1: u64 = match &self.tier1 {
            Some(t) => t.reward_rate,
            None => 0,
        };
        let rate2: u64 = match &self.tier2 {
            Some(t) => t.reward_rate,
            None => 0,
        };
        let rate3: u64 = match &self.tier3 {
            Some(t) => t.reward_rate,
            None => 0,
        };
        proof {
            lemma_reward_between_nonneg(*self, s, e);
            lemma_reward_between_split(*self, s, c1 as int, e);
            lemma_reward_between_split(*self, c1 as int, c2 as int, e);
            lemma_reward_between_split(*self, c2 as int, c3 as int, e);
            assert forall|t: int| s <= t < c1 implies self.rate_at(t) == self.base_rate by {}
            lemma_reward_between_const(*self, s, c1 as int, self.base_rate as int);
            assert forall|t: int| c1 <= t < c2 implies self.rate_at(t) == rate1 by {}
            lemma_reward_between_const(*self, c1 as int, c2 as int, rate1 as int);
            assert forall|t: int| c2 <= t < c3 implies self.rate_at(t) == rate2 by {}
            lemma_reward_between_const(*self, c2 as int, c3 as int, rate2 as int);
            assert forall|t: int| c3 <= t < e implies self.rate_at(t) == rate3 by {}
            lemma_reward_between_const(*self, c3 as int, e, rate3 as int);
            assert(total == (c1 - s) * self.base_rate + (c2 - c1) * rate1 + (c3 - c2) * rate2 + (e
                - c3) * rate3) by (nonlinear_arith)
                requires
                    self.reward_between(s, c1 as int) == self.base_rate as int * (c1 - s),
                    self.reward_between(c1 as int, c2 as int) == rate1 as int * (c2 - c1),
                    self.reward_between(c2 as int, c3 as int) == rate2 as int * (c3 - c2),
                    self.reward_between(c3 as int, e) == rate3 as int * (e - c3),
                    total == self.reward_between(s, c1 as int) + self.reward_between(
                        c1 as int,
                        c2 as int,
                    ) + self.reward_between(c2 as int, c3 as int) + self.reward_between(
                        c3 as int,
                        e,
                    ),
            ;
        }
        proof {
            lemma_u64_mul_fits((c1 - start_from) as int, self.base_rate as int);
            lemma_u64_mul_fits((c2 - c1) as int, rate1 as int);
            lemma_u64_mul_fits((c3 - c2) as int, rate2 as int);
            lemma_u64_mul_fits((end_at - c3) as int, rate3 as int);
        }
        let term0: u128 = ((c1 - start_from) as u128) * (self.base_rate as u128);
        let term1: u128 = ((c2 - c1) as u128) * (rate1 as u128);
        let term2: u128 = ((c3 - c2) as u128) * (rate2 as u128);
        let term3: u128 = ((end_at - c3) as u128) * (rate3 as u128);
        let limit: u128 = u64::MAX as u128;
        let mut acc: u128 = term0;
        if acc > limit {
            return Err(ErrorCode::ArithmeticOverflow);
        }
        acc = acc + term1;
        if acc > limit {
            return Err(ErrorCode::ArithmeticOverflow);
        }
        acc = acc + term2;
        if acc > limit {
            return Err(ErrorCode::ArithmeticOverflow);
        }
        acc = acc + term3;
        if acc > limit {
            return Err(ErrorCode::ArithmeticOverflow);
        }
        Ok(acc as u64)
    }

    /// Integrates the tiered rate over the tenure interval
    /// `[start_from, end_at)`, multiplies by the gem count and divides by the
    /// scaling denominator. Fails with `InvalidInterval` on a reversed
    /// interval and with `ArithmeticOverflow` when an intermediate product
    /// exceeds the integer width; a zero-length interval yields zero.
    pub fn reward_amount(&self, start_from: u64, end_at: u64, gems: u64) -> (r: Result<
        u64,
        ErrorCode,
    >)
        requires
            self.wf(),
        ensures
            r == self.reward_amount_result(start_from, end_at, gems),
    {
        if end_at < start_from {
            return Err(ErrorCode::InvalidInterval);
        }
        let per_gem: u64 = match self.reward_per_gem(start_from, end_at) {
            Ok(v) => v,
            Err(err) => {
                return Err(err);
            },
        };
        proof {
            lemma_u64_mul_fits(per_gem as int, gems as int);
        }
        let wide: u128 = (per_gem as u128) * (gems as u128);
        if wide > (u64::MAX as u128) {
            return Err(ErrorCode::ArithmeticOverflow);
        }
        let total: u64 = wide as u64;
        assert((per_gem * gems) / (self.denominator as int) <= u64::MAX) by (nonlinear_arith)
            requires
                0 <= per_gem * gems <= u64::MAX,
                self.denominator >= 1,
        ;
        Ok(total / self.denominator)
    }
}

} // verus!
