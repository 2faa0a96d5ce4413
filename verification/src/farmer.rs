use vstd::prelude::*;

use crate::error::ErrorCode;
use crate::number128::Number128;
use crate::schedule::FixedRateSchedule;
use crate::schedule::lemma_reward_between_monotonic;
use crate::schedule::lemma_reward_between_nonneg;
use crate::try_math::try_add;
use crate::try_math::try_sub;

verus! {

/// Lifecycle of a farmer's principal: resting, earning, or cooling down
/// before withdrawal.
#[derive(Clone, Copy, Debug, PartialEq, Eq, Structural)]
pub enum FarmerState {
    Unstaked,
    Staked,
    PendingCooldown,
}

/// Per-participant record: identity references, lifecycle state, the staked
/// unit count with its lock and cooldown deadlines, and two independent
/// reward ledgers so the farm can run two simultaneous reward programs.
#[derive(Clone, Copy, Debug)]
pub struct Farmer {
    /// The farm this record belongs to.
    pub farm: [u8; 32],
    /// The participant's identity: their public key.
    pub identity: [u8; 32],
    /// The vault holding all of the farmer's gems.
    pub vault: [u8; 32],
    pub state: FarmerState,
    /// Total number of gems at the time the vault was locked; earns reward
    /// only while `Staked`.
    pub gems_staked: u64,
    /// Earliest time an unstake is allowed.
    pub min_staking_ends_ts: u64,
    /// Earliest time a withdrawal is allowed after an unstake.
    pub cooldown_ends_ts: u64,
    pub reward_a: FarmerReward,
    pub reward_b: FarmerReward,
}

impl Farmer {
    /// The three account references that no transition ever touches.
    pub open spec fn same_identity(self, other: Farmer) -> bool {
        &&& other.farm == self.farm
        &&& other.identity == self.identity
        &&& other.vault == self.vault
    }

    /// Both reward ledgers untouched.
    pub open spec fn same_rewards(self, other: Farmer) -> bool {
        &&& other.reward_a == self.reward_a
        &&& other.reward_b == self.reward_b
    }

    /// Lifecycle invariant: gems earn reward only while staked, so the staked
    /// count is zero in every other state.
    pub open spec fn gems_only_while_staked(self) -> bool {
        self.state != FarmerState::Staked ==> self.gems_staked == 0
    }

    /// Locks the vault's gems for staking, from any state. Sets the minimum
    /// staking deadline to `now_ts + min_staking_period_sec` and clears any
    /// previous cooldown. Returns the unit count that was staked up to this
    /// instant, so the caller can settle rewards accrued under the old count
    /// before the new one takes effect. On overflow of the deadline the
    /// record is left untouched.
    pub fn begin_staking(
        &mut self,
        min_staking_period_sec: u64,
        now_ts: u64,
        gems_in_vault: u64,
    ) -> (r: Result<u64, ErrorCode>)
        ensures
            now_ts + min_staking_period_sec > u64::MAX ==> r == Err::<u64, ErrorCode>(
                ErrorCode::ArithmeticOverflow,
            ) && *final(self) == *old(self),
            now_ts + min_staking_period_sec <= u64::MAX ==> ({
                &&& r == Ok::<u64, ErrorCode>(old(self).gems_staked)
                &&& final(self).state == FarmerState::Staked
                &&& final(self).gems_staked == gems_in_vault
                &&& final(self).min_staking_ends_ts == now_ts + min_staking_period_sec
                &&& final(self).cooldown_ends_ts == 0
                &&& old(self).same_identity(*final(self))
                &&& old(self).same_rewards(*final(self))
            }),
            final(self).gems_only_while_staked() || *final(self) == *old(self),
    {
        // The deadline is computed before any field changes so that a failed
        // addition aborts the whole transition with no partial mutation.
        let min_staking_ends_ts = match try_add(now_ts, min_staking_period_sec) {
            Ok(v) => v,
            Err(e) => {
                return Err(e);
            },
        };
        self.state = FarmerState::Staked;
        let previous_gems_staked = self.gems_staked;
        self.gems_staked = gems_in_vault;
        self.min_staking_ends_ts = min_staking_ends_ts;
        self.cooldown_ends_ts = 0;
        Ok(previous_gems_staked)
    }

    /// Ends staking once the minimum staking period has passed and starts the
    /// cooldown clock at `now_ts + cooldown_period_sec`. The staked count
    /// drops to zero so no reward accrues during cooldown. Returns the unit
    /// count that was unstaked, for the caller's final reward settlement.
    pub fn end_staking_begin_cooldown(&mut self, now_ts: u64, cooldown_period_sec: u64) -> (r:
        Result<u64, ErrorCode>)
        ensures
            now_ts < old(self).min_staking_ends_ts ==> r == Err::<u64, ErrorCode>(
                ErrorCode::MinStakingNotPassed,
            ) && *final(self) == *old(self),
            now_ts >= old(self).min_staking_ends_ts && now_ts + cooldown_period_sec > u64::MAX
                ==> r == Err::<u64, ErrorCode>(ErrorCode::ArithmeticOverflow) && *final(self)
                == *old(self),
            now_ts >= old(self).min_staking_ends_ts && now_ts + cooldown_period_sec <= u64::MAX
                ==> ({
                &&& r == Ok::<u64, ErrorCode>(old(self).gems_staked)
                &&& final(self).state == FarmerState::PendingCooldown
                &&& final(self).gems_staked == 0
                &&& final(self).min_staking_ends_ts == old(self).min_staking_ends_ts
                &&& final(self).cooldown_ends_ts == now_ts + cooldown_period_sec
                &&& old(self).same_identity(*final(self))
                &&& old(self).same_rewards(*final(self))
            }),
            old(self).gems_only_while_staked() ==> final(self).gems_only_while_staked(),
    {
        if !self.can_end_staking(now_ts) {
            return Err(ErrorCode::MinStakingNotPassed);
        }
        let cooldown_ends_ts = match try_add(now_ts, cooldown_period_sec) {
            Ok(v) => v,
            Err(e) => {
                return Err(e);
            },
        };
        self.state = FarmerState::PendingCooldown;
        let gems_unstaked = self.gems_staked;
        // No rewards accrue during the cooldown period.
        self.gems_staked = 0;
        self.cooldown_ends_ts = cooldown_ends_ts;
        Ok(gems_unstaked)
    }

    /// Finishes the lifecycle once the cooldown has passed: the farmer rests
    /// unstaked with both deadlines cleared and the principal withdrawable.
    pub fn end_cooldown(&mut self, now_ts: u64) -> (r: Result<(), ErrorCode>)
        ensures
            now_ts < old(self).cooldown_ends_ts ==> r == Err::<(), ErrorCode>(
                ErrorCode::CooldownNotPassed,
            ) && *final(self) == *old(self),
            now_ts >= old(self).cooldown_ends_ts ==> ({
                &&& r == Ok::<(), ErrorCode>(())
                &&& final(self).state == FarmerState::Unstaked
                &&& final(self).gems_staked == 0
                &&& final(self).min_staking_ends_ts == 0
                &&& final(self).cooldown_ends_ts == 0
                &&& old(self).same_identity(*final(self))
                &&& old(self).same_rewards(*final(self))
            }),
            old(self).gems_only_while_staked() ==> final(self).gems_only_while_staked(),
    {
        if !self.can_end_cooldown(now_ts) {
            return Err(ErrorCode::CooldownNotPassed);
        }
        self.state = FarmerState::Unstaked;
        self.gems_staked = 0;
        self.min_staking_ends_ts = 0;
        self.cooldown_ends_ts = 0;
        Ok(())
    }

    fn can_end_staking(&self, now_ts: u64) -> (b: bool)
        ensures
            b == (now_ts >= self.min_staking_ends_ts),
    {
        now_ts >= self.min_staking_ends_ts
    }

    fn can_end_cooldown(&self, now_ts: u64) -> (b: bool)
        ensures
            b == (now_ts >= self.cooldown_ends_ts),
    {
        now_ts >= self.cooldown_ends_ts
    }
}

/// One reward stream's ledger: how much has accrued in total and how much of
/// that has already been paid out, plus the per-stream bookkeeping of the
/// variable-rate and fixed-rate programs.
#[derive(Clone, Copy, Debug)]
pub struct FarmerReward {
    /// Total paid out to the farmer, across all claims; never more than
    /// `accrued_reward`.
    pub paid_out_reward: u64,
    /// Total accrued by the farmer, claimed or not.
    pub accrued_reward: u64,
    pub variable_rate: FarmerVariableRateReward,
    pub fixed_rate: FarmerFixedRateReward,
}

impl FarmerReward {
    /// Ledger invariant: nothing is ever paid out that did not accrue.
    pub open spec fn wf(self) -> bool {
        self.paid_out_reward <= self.accrued_reward
    }

    /// Accrued but not yet paid out.
    pub open spec fn outstanding(self) -> int {
        self.accrued_reward - self.paid_out_reward
    }

    /// What a claim against a pot holding `pot_balance` pays: the whole
    /// outstanding amount, capped by what the pot can cover.
    pub open spec fn claim_amount(self, pot_balance: u64) -> int {
        vstd::math::min(self.outstanding(), pot_balance as int)
    }

    /// The outstanding reward, `accrued - paid`; fails with
    /// `ArithmeticUnderflow` if the ledger invariant is broken and more was
    /// paid than ever accrued.
    pub fn outstanding_reward(&self) -> (r: Result<u64, ErrorCode>)
        ensures
            self.wf() ==> r == Ok::<u64, ErrorCode>(self.outstanding() as u64),
            !self.wf() ==> r == Err::<u64, ErrorCode>(ErrorCode::ArithmeticUnderflow),
    {
        try_sub(self.accrued_reward, self.paid_out_reward)
    }

    /// Pays out `min(outstanding, pot_balance)` and records it as paid.
    /// Never claims more than the externally reported pot balance, and never
    /// pushes `paid_out_reward` past `accrued_reward`; once outstanding is
    /// zero, further claims pay zero.
    pub fn claim_reward(&mut self, pot_balance: u64) -> (r: Result<u64, ErrorCode>)
        ensures
            !old(self).wf() ==> r == Err::<u64, ErrorCode>(ErrorCode::ArithmeticUnderflow) && *final(self) == *old(self),
            old(self).wf() ==> ({
                &&& r == Ok::<u64, ErrorCode>(old(self).claim_amount(pot_balance) as u64)
                &&& final(self).paid_out_reward == old(self).paid_out_reward + old(self).claim_amount(pot_balance)
                &&& final(self).accrued_reward == old(self).accrued_reward
                &&& final(self).variable_rate == old(self).variable_rate
                &&& final(self).fixed_rate == old(self).fixed_rate
                &&& final(self).wf()
            }),
    {
        let outstanding = match self.outstanding_reward() {
            Ok(v) => v,
            Err(e) => {
                return Err(e);
            },
        };
        let to_claim = if outstanding <= pot_balance {
            outstanding
        } else {
            pot_balance
        };
        self.paid_out_reward = self.paid_out_reward + to_claim;
        Ok(to_claim)
    }

    /// Credits reward computed externally from the global per-gem accrual
    /// counter, and records the counter value the farmer is now credited up
    /// to. On overflow of the accrued total the ledger is left untouched.
    pub fn update_variable_reward(
        &mut self,
        newly_accrued_reward: u64,
        accrued_reward_per_gem: Number128,
    ) -> (r: Result<(), ErrorCode>)
        ensures
            old(self).accrued_reward + newly_accrued_reward > u64::MAX ==> r == Err::<
                (),
                ErrorCode,
            >(ErrorCode::ArithmeticOverflow) && *final(self) == *old(self),
            old(self).accrued_reward + newly_accrued_reward <= u64::MAX ==> ({
                &&& r == Ok::<(), ErrorCode>(())
                &&& final(self).accrued_reward == old(self).accrued_reward + newly_accrued_reward
                &&& final(self).paid_out_reward == old(self).paid_out_reward
                &&& final(self).variable_rate.last_recorded_accrued_reward_per_gem
                    == accrued_reward_per_gem
                &&& final(self).fixed_rate == old(self).fixed_rate
            }),
            old(self).wf() ==> final(self).wf(),
    {
        let accrued = match try_add(self.accrued_reward, newly_accrued_reward) {
            Ok(v) => v,
            Err(e) => {
                return Err(e);
            },
        };
        self.accrued_reward = accrued;
        self.variable_rate.last_recorded_accrued_reward_per_gem = accrued_reward_per_gem;
        Ok(())
    }

    /// Credits reward computed from the fixed-rate schedule and advances the
    /// fixed stream's high-water mark to `min(now_ts, end of schedule)` — the
    /// mark never passes the schedule's natural end, so the fixed stream
    /// stops accruing once its promised duration is exhausted. On overflow
    /// the ledger is left untouched.
    pub fn update_fixed_reward(&mut self, now_ts: u64, newly_accrued_reward: u64) -> (r: Result<
        (),
        ErrorCode,
    >)
        ensures
            old(self).accrued_reward + newly_accrued_reward > u64::MAX ==> r == Err::<
                (),
                ErrorCode,
            >(ErrorCode::ArithmeticOverflow) && *final(self) == *old(self),
            old(self).accrued_reward + newly_accrued_reward <= u64::MAX && old(self).fixed_rate.end_schedule_ts_int() > u64::MAX ==> r == Err::<(), ErrorCode>(
                ErrorCode::ArithmeticOverflow,
            ) && *final(self) == *old(self),
            old(self).accrued_reward + newly_accrued_reward <= u64::MAX && old(self).fixed_rate.end_schedule_ts_int() <= u64::MAX ==> ({
                &&& r == Ok::<(), ErrorCode>(())
                &&& final(self).accrued_reward == old(self).accrued_reward + newly_accrued_reward
                &&& final(self).paid_out_reward == old(self).paid_out_reward
                &&& final(self).variable_rate == old(self).variable_rate
                &&& final(self).fixed_rate.last_updated_ts == old(self).fixed_rate.reward_upper_bound_int(now_ts)
                &&& final(self).fixed_rate.last_updated_ts <= old(self).fixed_rate.end_schedule_ts_int()
                &&& final(self).fixed_rate.begin_staking_ts == old(self).fixed_rate.begin_staking_ts
                &&& final(self).fixed_rate.begin_schedule_ts == old(self).fixed_rate.begin_schedule_ts
                &&& final(self).fixed_rate.promised_schedule == old(self).fixed_rate.promised_schedule
                &&& final(self).fixed_rate.promised_duration == old(self).fixed_rate.promised_duration
            }),
            old(self).wf() ==> final(self).wf(),
    {
        let accrued = match try_add(self.accrued_reward, newly_accrued_reward) {
            Ok(v) => v,
            Err(e) => {
                return Err(e);
            },
        };
        let upper_bound = match self.fixed_rate.reward_upper_bound(now_ts) {
            Ok(v) => v,
            Err(e) => {
                return Err(e);
            },
        };
        self.accrued_reward = accrued;
        self.fixed_rate.last_updated_ts = upper_bound;
        Ok(())
    }
}

/// Variable-rate stream bookkeeping: the last-seen value of the global
/// per-gem accrual counter the farmer has been credited up to.
#[derive(Clone, Copy, Debug)]
pub struct FarmerVariableRateReward {
    pub last_recorded_accrued_reward_per_gem: Number128,
}

/// Fixed-rate stream bookkeeping: a per-participant promise of a tiered
/// schedule over a fixed duration.
///
/// All interval queries are expressed in tenure since `begin_staking_ts`, not
/// since the current schedule's start, so a participant who rolled into a new
/// schedule keeps continuity of tier progression from their true staking
/// start.
#[derive(Clone, Copy, Debug)]
pub struct FarmerFixedRateReward {
    /// First time this principal started staking; survives rolls, so it can
    /// lie far in the past.
    pub begin_staking_ts: u64,
    /// Start of the current promised schedule; reset on each roll.
    pub begin_schedule_ts: u64,
    /// High-water mark of fixed accrual, always clamped to the schedule end.
    pub last_updated_ts: u64,
    pub promised_schedule: FixedRateSchedule,
    /// Length of the promised schedule in seconds.
    pub promised_duration: u64,
}

impl FarmerFixedRateReward {
    /// When the promised schedule naturally ends.
    pub open spec fn end_schedule_ts_int(self) -> int {
        self.begin_schedule_ts + self.promised_duration
    }

    /// The clamp applied wherever a "now" timestamp feeds fixed-rate math:
    /// never past the schedule's end.
    pub open spec fn reward_upper_bound_int(self, now_ts: u64) -> int {
        vstd::math::min(now_ts as int, self.end_schedule_ts_int())
    }

    /// What `newly_accrued_reward` returns: the schedule's integral over the
    /// tenure interval from the last update to the clamped current time, or
    /// the exact error raised while forming that interval.
    pub open spec fn newly_accrued_reward_result(self, now_ts: u64, gems: u64) -> Result<
        u64,
        ErrorCode,
    > {
        if self.last_updated_ts < self.begin_staking_ts {
            Err(ErrorCode::ArithmeticUnderflow)
        } else if self.end_schedule_ts_int() > u64::MAX {
            Err(ErrorCode::ArithmeticOverflow)
        } else if self.reward_upper_bound_int(now_ts) < self.begin_staking_ts {
            Err(ErrorCode::ArithmeticUnderflow)
        } else {
            self.promised_schedule.reward_amount_result(
                (self.last_updated_ts - self.begin_staking_ts) as u64,
                (self.reward_upper_bound_int(now_ts) - self.begin_staking_ts) as u64,
                gems,
            )
        }
    }

    /// What `voided_reward` returns: the schedule's integral from the last
    /// update through the schedule's end, or the exact error raised while
    /// forming that interval.
    pub open spec fn voided_reward_result(self, gems: u64) -> Result<u64, ErrorCode> {
        if self.last_updated_ts < self.begin_staking_ts {
            Err(ErrorCode::ArithmeticUnderflow)
        } else if self.end_schedule_ts_int() > u64::MAX {
            Err(ErrorCode::ArithmeticOverflow)
        } else if self.end_schedule_ts_int() < self.begin_staking_ts {
            Err(ErrorCode::ArithmeticUnderflow)
        } else {
            self.promised_schedule.reward_amount_result(
                (self.last_updated_ts - self.begin_staking_ts) as u64,
                (self.end_schedule_ts_int() - self.begin_staking_ts) as u64,
                gems,
            )
        }
    }

    /// Bonus tenure credited to rolled stakers: the gap between the original
    /// staking start and the current schedule's start.
    pub fn loyal_staker_bonus_time(&self) -> (r: Result<u64, ErrorCode>)
        ensures
            self.begin_staking_ts <= self.begin_schedule_ts ==> r == Ok::<u64, ErrorCode>(
                (self.begin_schedule_ts - self.begin_staking_ts) as u64,
            ),
            self.begin_staking_ts > self.begin_schedule_ts ==> r == Err::<u64, ErrorCode>(
                ErrorCode::ArithmeticUnderflow,
            ),
    {
        try_sub(self.begin_schedule_ts, self.begin_staking_ts)
    }

    /// When the promised schedule ends: `begin_schedule_ts + promised_duration`.
    pub fn end_schedule_ts(&self) -> (r: Result<u64, ErrorCode>)
        ensures
            self.end_schedule_ts_int() <= u64::MAX ==> r == Ok::<u64, ErrorCode>(
                self.end_schedule_ts_int() as u64,
            ),
            self.end_schedule_ts_int() > u64::MAX ==> r == Err::<u64, ErrorCode>(
                ErrorCode::ArithmeticOverflow,
            ),
    {
        try_add(self.begin_schedule_ts, self.promised_duration)
    }

    /// Whether the farmer is enrolled in a fixed-rate schedule; the
    /// timestamps are zeroed out when the farmer graduates.
    pub fn is_staked(&self) -> (b: bool)
        ensures
            b == (self.begin_staking_ts > 0 && self.begin_schedule_ts > 0),
    {
        self.begin_staking_ts > 0 && self.begin_schedule_ts > 0
    }

    /// True once the promised schedule has reached its natural end; the
    /// caller is then expected to reset the fixed-rate fields (graduation).
    pub fn is_time_to_graduate(&self, now_ts: u64) -> (r: Result<bool, ErrorCode>)
        ensures
            self.end_schedule_ts_int() <= u64::MAX ==> r == Ok::<bool, ErrorCode>(
                now_ts >= self.end_schedule_ts_int(),
            ),
            self.end_schedule_ts_int() > u64::MAX ==> r == Err::<bool, ErrorCode>(
                ErrorCode::ArithmeticOverflow,
            ),
    {
        let end = match self.end_schedule_ts() {
            Ok(v) => v,
            Err(e) => {
                return Err(e);
            },
        };
        Ok(now_ts >= end)
    }

    /// `min(now_ts, end of schedule)`: the cap that guarantees no fixed
    /// reward accrues past the promised end, however late the update comes.
    pub fn reward_upper_bound(&self, now_ts: u64) -> (r: Result<u64, ErrorCode>)
        ensures
            self.end_schedule_ts_int() <= u64::MAX ==> r == Ok::<u64, ErrorCode>(
                self.reward_upper_bound_int(now_ts) as u64,
            ),
            self.end_schedule_ts_int() > u64::MAX ==> r == Err::<u64, ErrorCode>(
                ErrorCode::ArithmeticOverflow,
            ),
            r is Ok ==> r->Ok_0 <= self.end_schedule_ts_int(),
    {
        let end = match self.end_schedule_ts() {
            Ok(v) => v,
            Err(e) => {
                return Err(e);
            },
        };
        Ok(
            if now_ts <= end {
                now_ts
            } else {
                end
            },
        )
    }

    /// Tenure already settled: from the original staking start to the last
    /// update's high-water mark.
    pub fn time_from_staking_to_update(&self) -> (r: Result<u64, ErrorCode>)
        ensures
            self.begin_staking_ts <= self.last_updated_ts ==> r == Ok::<u64, ErrorCode>(
                (self.last_updated_ts - self.begin_staking_ts) as u64,
            ),
            self.begin_staking_ts > self.last_updated_ts ==> r == Err::<u64, ErrorCode>(
                ErrorCode::ArithmeticUnderflow,
            ),
    {
        try_sub(self.last_updated_ts, self.begin_staking_ts)
    }

    /// The promised reward that would be forfeited by fully exiting now: the
    /// schedule's integral from the last update through the schedule's end.
    ///
    /// Both interval endpoints deliberately subtract `begin_staking_ts`, so
    /// both are raised by exactly the loyal-staker bonus time: the bonus
    /// cancels out of the duration but keeps tier boundaries aligned to
    /// tenure since the original staking start.
    pub fn voided_reward(&self, gems: u64) -> (r: Result<u64, ErrorCode>)
        requires
            self.promised_schedule.wf(),
        ensures
            r == self.voided_reward_result(gems),
    {
        let start_from = match self.time_from_staking_to_update() {
            Ok(v) => v,
            Err(e) => {
                return Err(e);
            },
        };
        let end = match self.end_schedule_ts() {
            Ok(v) => v,
            Err(e) => {
                return Err(e);
            },
        };
        let end_at = match try_sub(end, self.begin_staking_ts) {
            Ok(v) => v,
            Err(e) => {
                return Err(e);
            },
        };
        self.promised_schedule.reward_amount(start_from, end_at, gems)
    }

    /// The reward earned since the last update, up to the clamped current
    /// time: the schedule's integral over the tenure interval from the last
    /// update to `min(now_ts, end of schedule)`.
    ///
    /// As in [`Self::voided_reward`], both endpoints deliberately subtract
    /// `begin_staking_ts` to keep tier boundaries aligned to true tenure.
    pub fn newly_accrued_reward(&self, now_ts: u64, gems: u64) -> (r: Result<u64, ErrorCode>)
        requires
            self.promised_schedule.wf(),
        ensures
            r == self.newly_accrued_reward_result(now_ts, gems),
    {
        let start_from = match self.time_from_staking_to_update() {
            Ok(v) => v,
            Err(e) => {
                return Err(e);
            },
        };
        let upper = match self.reward_upper_bound(now_ts) {
            Ok(v) => v,
            Err(e) => {
                return Err(e);
            },
        };
        let end_at = match try_sub(upper, self.begin_staking_ts) {
            Ok(v) => v,
            Err(e) => {
                return Err(e);
            },
        };
        self.promised_schedule.reward_amount(start_from, end_at, gems)
    }
}

/// Law: a claim drains `min(outstanding, pot)`; a claim against a pot that
/// covers the whole outstanding amount leaves nothing outstanding, and every
/// further claim, against any pot, pays zero.
pub proof fn lemma_repeated_claims(pre: FarmerReward, post: FarmerReward, pot1: u64, pot2: u64)
    requires
        pre.wf(),
        pre.outstanding() <= pot1,
        post.accrued_reward == pre.accrued_reward,
        post.paid_out_reward == pre.paid_out_reward + pre.claim_amount(pot1),
    ensures
        post.outstanding() == 0,
        post.claim_amount(pot2) == 0,
{
}

/// Law: for a fixed last-updated mark, the newly accrued fixed-rate reward
/// never decreases as the query time advances.
pub proof fn lemma_newly_accrued_reward_monotonic(
    fr: FarmerFixedRateReward,
    now1: u64,
    now2: u64,
    gems: u64,
)
    requires
        fr.promised_schedule.wf(),
        now1 <= now2,
        fr.newly_accrued_reward_result(now1, gems) is Ok,
        fr.newly_accrued_reward_result(now2, gems) is Ok,
    ensures
        fr.newly_accrued_reward_result(now1, gems)->Ok_0 <= fr.newly_accrued_reward_result(
            now2,
            gems,
        )->Ok_0,
{
    let s = fr.promised_schedule;
    let start = fr.last_updated_ts - fr.begin_staking_ts;
    let end1 = fr.reward_upper_bound_int(now1) - fr.begin_staking_ts;
    let end2 = fr.reward_upper_bound_int(now2) - fr.begin_staking_ts;
    let per1 = s.reward_between(start, end1);
    let per2 = s.reward_between(start, end2);
    lemma_reward_between_nonneg(s, start, end1);
    lemma_reward_between_monotonic(s, start, end1, end2);
    vstd::arithmetic::mul::lemma_mul_inequality(per1, per2, gems as int);
    vstd::arithmetic::div_mod::lemma_div_is_ordered(
        per1 * gems,
        per2 * gems,
        s.denominator as int,
    );
    assert(0 <= (per1 * gems) / (s.denominator as int)) by (nonlinear_arith)
        requires
            0 <= per1 * gems,
            s.denominator >= 1,
    ;
    assert((per2 * gems) / (s.denominator as int) <= u64::MAX) by (nonlinear_arith)
        requires
            0 <= per2 * gems <= u64::MAX,
            s.denominator >= 1,
    ;
}

} // verus!
