use goldium_staking::rewards::{
    accrue, accrue_wide, claimable_rewards, elapsed_seconds, FIXED_POINT_SCALE, REWARD_DIVISOR,
    SECONDS_PER_YEAR,
};
use goldium_staking::ErrorCode;

const YEAR: u64 = 31_536_000;

#[test]
fn constants_have_their_values() {
    assert_eq!(SECONDS_PER_YEAR, 365 * 24 * 60 * 60);
    assert_eq!(FIXED_POINT_SCALE, 1_000_000);
    assert_eq!(REWARD_DIVISOR, SECONDS_PER_YEAR as u128 * FIXED_POINT_SCALE as u128);
}

#[test]
fn full_rate_for_one_year_pays_the_stake() {
    assert_eq!(accrue(1_000_000, 1_000_000, YEAR), Some(1_000_000));
    assert_eq!(accrue_wide(1_000_000, 1_000_000, YEAR), Some(1_000_000));
}

#[test]
fn half_a_year_pays_half() {
    assert_eq!(accrue(1_000_000, 1_000_000, YEAR / 2), Some(500_000));
}

#[test]
fn accrual_rounds_down() {
    assert_eq!(accrue(1, 1_000_000, YEAR - 1), Some(0));
    assert_eq!(accrue(1, 1_000_000, YEAR), Some(1));
    assert_eq!(accrue(123_456_789, 50_000, 86_400 * 30), Some(507_356));
}

#[test]
fn nothing_accrues_without_stake_rate_or_time() {
    assert_eq!(accrue(0, 1_000_000, YEAR), Some(0));
    assert_eq!(accrue(1_000_000, 0, YEAR), Some(0));
    assert_eq!(accrue(1_000_000, 1_000_000, 0), Some(0));
}

#[test]
fn accrual_is_exact_at_the_largest_amount_and_rate() {
    // Sixty-three years at the largest amount and rate.
    assert_eq!(
        accrue_wide(u64::MAX, u64::MAX, 2_000_000_000),
        Some(21_580_566_141_612_028_375_601_288_640_559_938)
    );
    // Fifty years.
    assert_eq!(
        accrue_wide(u64::MAX, u64::MAX, YEAR * 50),
        Some(17_014_118_346_046_923_171_324_055_964_217_455)
    );
    // The last second at which the result still fits 128 bits.
    assert_eq!(
        accrue_wide(u64::MAX, u64::MAX, 31_536_000_000_000),
        Some(u64::MAX as u128 * u64::MAX as u128)
    );
    assert_eq!(accrue_wide(u64::MAX, u64::MAX, 31_536_000_000_001), None);
    assert_eq!(accrue_wide(u64::MAX, u64::MAX, u64::MAX), None);
}

#[test]
fn accrual_that_does_not_fit_a_balance_is_reported() {
    assert_eq!(accrue(u64::MAX, u64::MAX, 2_000_000_000), None);
    assert_eq!(accrue(u64::MAX, u64::MAX, u64::MAX), None);
    let large: u64 = 1_000_000_000_000_000_000;
    assert_eq!(accrue(large, 1_000_000, YEAR * 18), Some(18_000_000_000_000_000_000));
    assert_eq!(accrue(large, 1_000_000, YEAR * 19), None);
}

#[test]
fn accrual_never_decreases_with_time() {
    let mut last: u64 = 0;
    let mut elapsed: u64 = 0;
    while elapsed <= 4 * YEAR {
        let accrued = accrue(987_654_321, 73_500, elapsed).unwrap();
        assert!(accrued >= last);
        last = accrued;
        elapsed += 1_234_567;
    }
    assert!(last > 0);
}

#[test]
fn elapsed_seconds_spans_the_whole_range() {
    assert_eq!(elapsed_seconds(10, 25), Some(15));
    assert_eq!(elapsed_seconds(25, 25), Some(0));
    assert_eq!(elapsed_seconds(25, 24), None);
    assert_eq!(elapsed_seconds(-5, 5), Some(10));
    assert_eq!(elapsed_seconds(i64::MIN, i64::MAX), Some(u64::MAX));
    assert_eq!(elapsed_seconds(i64::MAX, i64::MIN), None);
}

#[test]
fn claimable_is_accrued_less_claimed() {
    assert_eq!(claimable_rewards(1_000_000, 1_000_000, 100, 0, 100 + YEAR as i64), Ok(1_000_000));
    assert_eq!(
        claimable_rewards(1_000_000, 1_000_000, 100, 400_000, 100 + YEAR as i64),
        Ok(600_000)
    );
    assert_eq!(
        claimable_rewards(1_000_000, 1_000_000, 100, 1_000_000, 100 + YEAR as i64),
        Ok(0)
    );
}

#[test]
fn claimable_is_zero_at_stake_time() {
    assert_eq!(claimable_rewards(1_000_000, 1_000_000, 77, 0, 77), Ok(0));
    assert_eq!(claimable_rewards(u64::MAX, u64::MAX, -77, 0, -77), Ok(0));
}

#[test]
fn claimable_never_decreases_with_time() {
    let stake_time: i64 = 1_700_000_000;
    let mut last: u64 = 0;
    let mut now: i64 = stake_time;
    while now <= stake_time + 2 * YEAR as i64 {
        let claimable = claimable_rewards(5_000_000, 250_000, stake_time, 0, now).unwrap();
        assert!(claimable >= last);
        last = claimable;
        now += 999_983;
    }
    assert_eq!(
        claimable_rewards(5_000_000, 250_000, stake_time, 0, stake_time + 2 * YEAR as i64),
        Ok(2_500_000)
    );
}

#[test]
fn claimable_reports_time_running_backwards() {
    assert_eq!(
        claimable_rewards(1_000_000, 1_000_000, 100, 0, 99),
        Err(ErrorCode::InvariantViolation)
    );
}

#[test]
fn claimable_reports_more_paid_than_accrued() {
    assert_eq!(
        claimable_rewards(1_000_000, 1_000_000, 0, 1_000_001, YEAR as i64),
        Err(ErrorCode::InvariantViolation)
    );
}

#[test]
fn claimable_reports_rewards_too_large_for_a_balance() {
    assert_eq!(
        claimable_rewards(u64::MAX, u64::MAX, 0, 0, YEAR as i64),
        Err(ErrorCode::InvariantViolation)
    );
}
