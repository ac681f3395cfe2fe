//! Reward arithmetic: how stake, rate and time combine into a reward.

use vstd::prelude::*;
use vstd::arithmetic::div_mod::*;
use vstd::arithmetic::mul::*;
use crate::error::ErrorCode;

verus! {

/// Seconds in the year over which the reward rate is quoted.
pub const SECONDS_PER_YEAR: u64 = 31_536_000;

/// Scale of the fixed-point reward rate: a rate of `FIXED_POINT_SCALE` pays
/// one reward unit per staked unit per year.
pub const FIXED_POINT_SCALE: u64 = 1_000_000;

/// `SECONDS_PER_YEAR * FIXED_POINT_SCALE`, by which the triple product of
/// amount, rate and elapsed seconds is divided.
pub const REWARD_DIVISOR: u128 = 31_536_000_000_000;

/// Rewards accrued by `amount` staked for `elapsed` seconds at `reward_rate`,
/// rounded down.
pub open spec fn accrued_rewards(amount: int, reward_rate: int, elapsed: int) -> int {
    (amount * reward_rate * elapsed) / (SECONDS_PER_YEAR * FIXED_POINT_SCALE)
}

/// Accrued rewards never decrease as time passes.
pub proof fn lemma_accrued_monotonic(amount: int, reward_rate: int, earlier: int, later: int)
    requires
        0 <= amount,
        0 <= reward_rate,
        earlier <= later,
    ensures
        accrued_rewards(amount, reward_rate, earlier) <= accrued_rewards(
            amount,
            reward_rate,
            later,
        ),
{
    lemma_mul_nonnegative(amount, reward_rate);
    lemma_mul_inequality(earlier, later, amount * reward_rate);
    lemma_mul_is_commutative(earlier, amount * reward_rate);
    lemma_mul_is_commutative(later, amount * reward_rate);
    lemma_div_is_ordered(
        amount * reward_rate * earlier,
        amount * reward_rate * later,
        SECONDS_PER_YEAR * FIXED_POINT_SCALE,
    );
}

/// Within the first `REWARD_DIVISOR` seconds (a million years) the accrued
/// rewards do not exceed the product of amount and rate.
pub proof fn lemma_accrued_bounded(amount: int, reward_rate: int, elapsed: int)
    requires
        0 <= amount,
        0 <= reward_rate,
        0 <= elapsed <= REWARD_DIVISOR,
    ensures
        0 <= accrued_rewards(amount, reward_rate, elapsed) <= amount * reward_rate,
{
    let p = amount * reward_rate;
    let d = REWARD_DIVISOR as int;
    lemma_mul_nonnegative(amount, reward_rate);
    lemma_mul_nonnegative(p, elapsed);
    lemma_div_pos_is_pos(p * elapsed, d);
    lemma_accrued_monotonic(amount, reward_rate, elapsed, d);
    lemma_div_by_multiple(p, d);
}

/// Accrued rewards in 128 bits: the exact value, or `None` where it does
/// not fit. Whatever the amount and the rate, it fits for the first
/// `REWARD_DIVISOR` seconds (a million years).
///
/// The triple product is never formed: the product of amount and rate is
/// split by the divisor into quotient and remainder first, so no
/// intermediate value wraps.
pub fn accrue_wide(amount: u64, reward_rate: u64, elapsed: u64) -> (r: Option<u128>)
    ensures
        accrued_rewards(amount as int, reward_rate as int, elapsed as int) <= u128::MAX ==> r
            == Some(accrued_rewards(amount as int, reward_rate as int, elapsed as int) as u128),
        accrued_rewards(amount as int, reward_rate as int, elapsed as int) > u128::MAX ==> r
            is None,
        elapsed <= REWARD_DIVISOR ==> r is Some,
{
    let ghost a = amount as int;
    let ghost b = reward_rate as int;
    let ghost e = elapsed as int;
    let ghost d = REWARD_DIVISOR as int;
    assert(a * b <= 0xffff_ffff_ffff_ffff * 0xffff_ffff_ffff_ffff) by (nonlinear_arith)
        requires
            0 <= a <= 0xffff_ffff_ffff_ffff,
            0 <= b <= 0xffff_ffff_ffff_ffff,
    ;
    assert(0 <= a * b) by (nonlinear_arith)
        requires
            0 <= a,
            0 <= b,
    ;
    let product: u128 = (amount as u128) * (reward_rate as u128);
    let whole: u128 = product / REWARD_DIVISOR;
    let part: u128 = product % REWARD_DIVISOR;
    let ghost q = whole as int;
    let ghost m = part as int;
    proof {
        lemma_fundamental_div_mod(a * b, d);
        lemma_mod_pos_bound(a * b, d);
        assert(m * e <= 31_536_000_000_000 * 0xffff_ffff_ffff_ffff) by (nonlinear_arith)
            requires
                0 <= m <= 31_536_000_000_000,
                0 <= e <= 0xffff_ffff_ffff_ffff,
        ;
        assert(0 <= m * e) by (nonlinear_arith)
            requires
                0 <= m,
                0 <= e,
        ;
        assert(0 <= q * e) by (nonlinear_arith)
            requires
                0 <= q,
                0 <= e,
        ;
        assert(a * b * e == m * e + (q * e) * d) by (nonlinear_arith)
            requires
                a * b == d * q + m,
        ;
        lemma_hoist_over_denominator(m * e, q * e, d as nat);
        assert(accrued_rewards(a, b, e) == (m * e) / d + q * e);
        lemma_div_pos_is_pos(m * e, d);
        if elapsed <= REWARD_DIVISOR {
            lemma_accrued_bounded(a, b, e);
        }
    }
    let low: u128 = (part * (elapsed as u128)) / REWARD_DIVISOR;
    match whole.checked_mul(elapsed as u128) {
        Some(high) => high.checked_add(low),
        None => None,
    }
}

/// Accrued rewards narrowed to the width balances are kept in: the exact
/// value, or `None` where it does not fit.
pub fn accrue(amount: u64, reward_rate: u64, elapsed: u64) -> (r: Option<u64>)
    ensures
        accrued_rewards(amount as int, reward_rate as int, elapsed as int) <= u64::MAX ==> r
            == Some(accrued_rewards(amount as int, reward_rate as int, elapsed as int) as u64),
        accrued_rewards(amount as int, reward_rate as int, elapsed as int) > u64::MAX ==> r
            is None,
{
    match accrue_wide(amount, reward_rate, elapsed) {
        Some(wide) => {
            if wide <= u64::MAX as u128 {
                Some(wide as u64)
            } else {
                None
            }
        },
        None => None,
    }
}

/// Seconds from `stake_time` to `now`, or `None` where `now` lies before
/// `stake_time`. The difference of two timestamps always fits 64 bits.
pub fn elapsed_seconds(stake_time: i64, now: i64) -> (r: Option<u64>)
    ensures
        now >= stake_time ==> r == Some((now - stake_time) as u64),
        now < stake_time ==> r is None,
{
    if now >= stake_time {
        Some((now as i128 - stake_time as i128) as u64)
    } else {
        None
    }
}

/// Whether a position's figures agree with the accounting rules at `now`:
/// time has not run backwards, the accrued rewards fit a balance, and no
/// more was paid out than has accrued.
pub open spec fn accrual_consistent(
    amount: int,
    reward_rate: int,
    stake_time: int,
    rewards_claimed: int,
    now: int,
) -> bool {
    &&& stake_time <= now
    &&& rewards_claimed <= accrued_rewards(amount, reward_rate, now - stake_time) <= u64::MAX
}

/// Rewards that can be claimed at `now`: what has accrued since
/// `stake_time` less what was already paid out, and zero where more was paid
/// out than has accrued.
pub open spec fn claimable(
    amount: int,
    reward_rate: int,
    stake_time: int,
    rewards_claimed: int,
    now: int,
) -> int {
    let accrued = accrued_rewards(amount, reward_rate, now - stake_time);
    if accrued >= rewards_claimed {
        accrued - rewards_claimed
    } else {
        0
    }
}

/// Claimable rewards never decrease as time passes while the stake is left
/// alone, and nothing is claimable at the moment of staking.
pub proof fn lemma_claimable_monotonic(
    amount: u64,
    reward_rate: u64,
    stake_time: i64,
    rewards_claimed: u64,
    now1: i64,
    now2: i64,
)
    requires
        now1 <= now2,
    ensures
        claimable(
            amount as int,
            reward_rate as int,
            stake_time as int,
            rewards_claimed as int,
            now1 as int,
        ) <= claimable(
            amount as int,
            reward_rate as int,
            stake_time as int,
            rewards_claimed as int,
            now2 as int,
        ),
        claimable(
            amount as int,
            reward_rate as int,
            stake_time as int,
            rewards_claimed as int,
            stake_time as int,
        ) == 0,
{
    lemma_accrued_monotonic(
        amount as int,
        reward_rate as int,
        now1 - stake_time,
        now2 - stake_time,
    );
    assert(amount * reward_rate * 0 == 0) by (nonlinear_arith);
}

/// Rewards a position can claim at `now`.
///
/// Fails with `InvariantViolation`, and nothing is claimable, where the
/// figures contradict the accounting rules: `now` lies before `stake_time`,
/// the accrued rewards do not fit 64 bits, or more was paid out than has
/// accrued.
pub fn claimable_rewards(
    amount: u64,
    reward_rate: u64,
    stake_time: i64,
    rewards_claimed: u64,
    now: i64,
) -> (r: Result<u64, ErrorCode>)
    ensures
        accrual_consistent(
            amount as int,
            reward_rate as int,
            stake_time as int,
            rewards_claimed as int,
            now as int,
        ) ==> r == Ok::<u64, ErrorCode>(
            claimable(
                amount as int,
                reward_rate as int,
                stake_time as int,
                rewards_claimed as int,
                now as int,
            ) as u64,
        ),
        !accrual_consistent(
            amount as int,
            reward_rate as int,
            stake_time as int,
            rewards_claimed as int,
            now as int,
        ) ==> r == Err::<u64, ErrorCode>(ErrorCode::InvariantViolation),
{
    let elapsed: u64 = match elapsed_seconds(stake_time, now) {
        Some(elapsed) => elapsed,
        None => { return Err(ErrorCode::InvariantViolation); },
    };
    let accrued: u64 = match accrue(amount, reward_rate, elapsed) {
        Some(accrued) => accrued,
        None => { return Err(ErrorCode::InvariantViolation); },
    };
    if accrued < rewards_claimed {
        return Err(ErrorCode::InvariantViolation);
    }
    Ok(accrued - rewards_claimed)
}

} // verus!
