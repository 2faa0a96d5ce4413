use gem_farm::error::ErrorCode;
use gem_farm::farmer::{Farmer, FarmerFixedRateReward, FarmerReward, FarmerState,
    FarmerVariableRateReward};
use gem_farm::number128::Number128;
use gem_farm::schedule::{FixedRateSchedule, TierConfig};

fn fixed_rate_fixture() -> FarmerFixedRateReward {
    FarmerFixedRateReward {
        begin_staking_ts: 100,
        begin_schedule_ts: 150,
        last_updated_ts: 155,
        promised_schedule: FixedRateSchedule {
            base_rate: 3,
            tier1: Some(TierConfig { reward_rate: 5, required_tenure: 55 }),
            tier2: Some(TierConfig { reward_rate: 7, required_tenure: 65 }),
            tier3: Some(TierConfig { reward_rate: 11, required_tenure: 75 }),
            denominator: 1,
        },
        promised_duration: 60,
    }
}

fn reward_fixture() -> FarmerReward {
    FarmerReward {
        paid_out_reward: 0,
        accrued_reward: 123,
        variable_rate: FarmerVariableRateReward {
            last_recorded_accrued_reward_per_gem: Number128::from(10u64),
        },
        fixed_rate: fixed_rate_fixture(),
    }
}

fn farmer_fixture() -> Farmer {
    Farmer {
        farm: [1u8; 32],
        identity: [2u8; 32],
        vault: [3u8; 32],
        state: FarmerState::Unstaked,
        gems_staked: 0,
        min_staking_ends_ts: 0,
        cooldown_ends_ts: 0,
        reward_a: reward_fixture(),
        reward_b: reward_fixture(),
    }
}

#[test]
fn test_farmer_fixed_rate_reward() {
    let r = fixed_rate_fixture();

    assert_eq!(50, r.loyal_staker_bonus_time().unwrap());
    assert_eq!(210, r.end_schedule_ts().unwrap());
    assert_eq!(true, r.is_time_to_graduate(210).unwrap());
    assert_eq!(210, r.reward_upper_bound(250).unwrap());
    assert_eq!(55, r.time_from_staking_to_update().unwrap());

    // last update - staking = 55
    // ub - staking = 110
    // reward accrues for a total of 55s, with 50s bonus and 5s coming from current staking period
    assert_eq!((50 + 70 + 11 * 35) * 10, r.voided_reward(10).unwrap());

    // last update - staking = 55
    // now - staking = 85
    // reward accrues for a total of 30s, with 50s bonus and 5s coming from current staking period
    assert_eq!((50 + 70 + 110) * 10, r.newly_accrued_reward(185, 10).unwrap());
}

#[test]
fn test_farmer_reward_update_variable() {
    let mut r = reward_fixture();
    assert_eq!(123, r.outstanding_reward().unwrap());

    r.update_variable_reward(10, Number128::from(50u64)).unwrap();
    assert_eq!(133, r.outstanding_reward().unwrap());
    assert_eq!(
        Number128::from(50u64),
        r.variable_rate.last_recorded_accrued_reward_per_gem
    );
}

#[test]
fn test_farmer_reward_update_fixed() {
    let mut r = reward_fixture();
    assert_eq!(123, r.outstanding_reward().unwrap());

    r.update_fixed_reward(9999, 10).unwrap();
    assert_eq!(133, r.outstanding_reward().unwrap());
    assert_eq!(210, r.fixed_rate.last_updated_ts);
}

#[test]
fn test_farmer_reward_claim() {
    let mut r = reward_fixture();
    assert_eq!(123, r.outstanding_reward().unwrap());

    r.claim_reward(100).unwrap();
    assert_eq!(23, r.outstanding_reward().unwrap());
}

#[test]
fn claim_is_capped_by_pot_and_by_outstanding() {
    let mut r = reward_fixture();
    // Pot smaller than outstanding: the pot caps the claim.
    assert_eq!(100, r.claim_reward(100).unwrap());
    // Pot larger than outstanding: the outstanding amount caps the claim.
    assert_eq!(23, r.claim_reward(1000).unwrap());
    assert_eq!(0, r.outstanding_reward().unwrap());
    assert_eq!(123, r.paid_out_reward);
}

#[test]
fn claim_pays_zero_once_outstanding_is_zero() {
    let mut r = reward_fixture();
    assert_eq!(123, r.claim_reward(u64::MAX).unwrap());
    // Repeated claims after draining the ledger are idempotent.
    assert_eq!(0, r.claim_reward(u64::MAX).unwrap());
    assert_eq!(0, r.claim_reward(5).unwrap());
    assert_eq!(123, r.paid_out_reward);
    assert_eq!(123, r.accrued_reward);
}

#[test]
fn outstanding_reward_fails_when_paid_exceeds_accrued() {
    let mut r = reward_fixture();
    r.paid_out_reward = 124;
    r.accrued_reward = 123;
    assert_eq!(Err(ErrorCode::ArithmeticUnderflow), r.outstanding_reward());
    assert_eq!(Err(ErrorCode::ArithmeticUnderflow), r.claim_reward(10));
}

#[test]
fn update_variable_reward_fails_on_overflow() {
    let mut r = reward_fixture();
    r.accrued_reward = u64::MAX;
    assert_eq!(
        Err(ErrorCode::ArithmeticOverflow),
        r.update_variable_reward(1, Number128::from(1u64))
    );
    // Failure leaves the ledger untouched.
    assert_eq!(u64::MAX, r.accrued_reward);
    assert_eq!(
        Number128::from(10u64),
        r.variable_rate.last_recorded_accrued_reward_per_gem
    );
}

#[test]
fn update_fixed_reward_never_advances_past_schedule_end() {
    let mut r = reward_fixture();
    r.update_fixed_reward(180, 0).unwrap();
    assert_eq!(180, r.fixed_rate.last_updated_ts);
    r.update_fixed_reward(u64::MAX, 0).unwrap();
    assert_eq!(210, r.fixed_rate.last_updated_ts);
}

#[test]
fn reward_upper_bound_is_capped_at_schedule_end() {
    let r = fixed_rate_fixture();
    assert_eq!(160, r.reward_upper_bound(160).unwrap());
    assert_eq!(210, r.reward_upper_bound(210).unwrap());
    assert_eq!(210, r.reward_upper_bound(u64::MAX).unwrap());
}

#[test]
fn newly_accrued_reward_is_monotonic_in_now() {
    let r = fixed_rate_fixture();
    let mut previous = 0u64;
    for now in [155, 160, 175, 185, 210, 250, u64::MAX] {
        let amount = r.newly_accrued_reward(now, 10).unwrap();
        assert!(amount >= previous);
        previous = amount;
    }
}

#[test]
fn fixed_rate_is_staked_checks_both_timestamps() {
    let mut r = fixed_rate_fixture();
    assert!(r.is_staked());
    r.begin_staking_ts = 0;
    assert!(!r.is_staked());
}

#[test]
fn begin_staking_records_deadline_and_previous_stake() {
    let mut f = farmer_fixture();
    let previous = f.begin_staking(1000, 50, 7).unwrap();
    assert_eq!(0, previous);
    assert_eq!(FarmerState::Staked, f.state);
    assert_eq!(7, f.gems_staked);
    assert_eq!(1050, f.min_staking_ends_ts);
    assert_eq!(0, f.cooldown_ends_ts);

    // Re-staking returns the count that was earning reward until now.
    let previous = f.begin_staking(2000, 60, 9).unwrap();
    assert_eq!(7, previous);
    assert_eq!(9, f.gems_staked);
    assert_eq!(2060, f.min_staking_ends_ts);
}

#[test]
fn begin_staking_fails_on_deadline_overflow() {
    let mut f = farmer_fixture();
    assert_eq!(Err(ErrorCode::ArithmeticOverflow), f.begin_staking(u64::MAX, 1, 7));
    // The whole transition is aborted with no partial mutation.
    assert_eq!(FarmerState::Unstaked, f.state);
    assert_eq!(0, f.gems_staked);
}

#[test]
fn end_staking_fails_before_min_staking_passed() {
    let mut f = farmer_fixture();
    f.begin_staking(1000, 50, 7).unwrap();
    assert_eq!(
        Err(ErrorCode::MinStakingNotPassed),
        f.end_staking_begin_cooldown(1049, 500)
    );
    assert_eq!(FarmerState::Staked, f.state);
    assert_eq!(7, f.gems_staked);
}

#[test]
fn end_cooldown_fails_before_cooldown_passed() {
    let mut f = farmer_fixture();
    f.begin_staking(1000, 50, 7).unwrap();
    f.end_staking_begin_cooldown(1050, 500).unwrap();
    assert_eq!(Err(ErrorCode::CooldownNotPassed), f.end_cooldown(1549));
    assert_eq!(FarmerState::PendingCooldown, f.state);
}

#[test]
fn full_staking_lifecycle() {
    let mut f = farmer_fixture();
    f.begin_staking(1000, 50, 7).unwrap();

    let unstaked = f.end_staking_begin_cooldown(1050, 500).unwrap();
    assert_eq!(7, unstaked);
    assert_eq!(FarmerState::PendingCooldown, f.state);
    assert_eq!(0, f.gems_staked);
    assert_eq!(1550, f.cooldown_ends_ts);

    f.end_cooldown(1550).unwrap();
    assert_eq!(FarmerState::Unstaked, f.state);
    assert_eq!(0, f.gems_staked);
    assert_eq!(0, f.min_staking_ends_ts);
    assert_eq!(0, f.cooldown_ends_ts);

    // Rewards survive the whole cycle untouched.
    assert_eq!(123, f.reward_a.outstanding_reward().unwrap());
    assert_eq!(123, f.reward_b.outstanding_reward().unwrap());
}
