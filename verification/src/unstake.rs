//! Withdrawing a position's stake once its lock period has passed.

use vstd::prelude::*;
use crate::accounts::{StakingPool, UnstakeTokens, UserStake};
use crate::error::ErrorCode;
use crate::transfer::{Party, Transfer, TransferOutcome};

verus! {

impl UnstakeTokens {
    /// The first moment at which the position may be withdrawn.
    pub open spec fn unlock_time(self) -> int {
        self.user_stake.stake_time + self.staking_pool.lock_period
    }

    /// Why an unstake at `now` is refused before any token moves, if it is.
    pub open spec fn refusal(self, now: i64) -> Option<ErrorCode> {
        if !self.user_stake.is_active() {
            Some(ErrorCode::NoActivePosition)
        } else if now < self.unlock_time() {
            Some(ErrorCode::LockPeriodNotReached)
        } else if self.staking_pool.total_staked < self.user_stake.amount {
            Some(ErrorCode::InvariantViolation)
        } else {
            None
        }
    }

    /// The payout an unstake asks for: the whole stake, from the pool to the
    /// user, authorized by the pool.
    pub open spec fn transfer(self) -> Transfer {
        Transfer {
            from: Party::Pool,
            to: Party::User,
            authority: Party::Pool,
            amount: self.user_stake.amount,
        }
    }

    /// The records after the stake has been paid back.
    pub open spec fn settled(self) -> UnstakeTokens {
        UnstakeTokens {
            staking_pool: StakingPool {
                total_staked: (self.staking_pool.total_staked - self.user_stake.amount) as u64,
                ..self.staking_pool
            },
            user_stake: UserStake { amount: 0, stake_time: 0, ..self.user_stake },
        }
    }

    /// Where an unstake at `now` leads, given how its transfer ended: the
    /// settled records, or the error that leaves them as they were.
    pub open spec fn result(self, now: i64, outcome: TransferOutcome) -> Result<
        UnstakeTokens,
        ErrorCode,
    > {
        match self.refusal(now) {
            Some(e) => Err(e),
            None => match outcome.refusal() {
                Some(e) => Err(e),
                None => Ok(self.settled()),
            },
        }
    }
}

/// Decides whether an unstake at `now` may go ahead and, if so, which
/// transfer the host must carry out before the unstake is settled with
/// [`unstake_tokens`]. Changes nothing.
pub fn unstake_transfer(accounts: &UnstakeTokens, now: i64) -> (r: Result<Transfer, ErrorCode>)
    ensures
        r == match accounts.refusal(now) {
            Some(e) => Err::<Transfer, ErrorCode>(e),
            None => Ok::<Transfer, ErrorCode>(accounts.transfer()),
        },
{
    if accounts.user_stake.amount == 0 {
        return Err(ErrorCode::NoActivePosition);
    }
    let unlock_time: i128 = accounts.user_stake.stake_time as i128
        + accounts.staking_pool.lock_period as i128;
    if (now as i128) < unlock_time {
        return Err(ErrorCode::LockPeriodNotReached);
    }
    if accounts.staking_pool.total_staked < accounts.user_stake.amount {
        return Err(ErrorCode::InvariantViolation);
    }
    Ok(
        Transfer {
            from: Party::Pool,
            to: Party::User,
            authority: Party::Pool,
            amount: accounts.user_stake.amount,
        },
    )
}

/// Settles an unstake at `now`, given how the transfer asked for by
/// [`unstake_transfer`] ended, and returns the amount withdrawn.
///
/// Only the stake is paid back. Rewards that were not claimed before the
/// unstake are forfeited: the position's accrual clock is cleared, and its
/// `rewards_claimed` and the pool's `total_rewards` stay as they were. This
/// keeps the withdrawal of principal independent of the reward arithmetic.
///
/// An unstake that is refused, before the transfer or by it, leaves the
/// records as they were. A settled one zeroes the position's `amount` and
/// `stake_time`, lowers the pool's `total_staked` by the amount withdrawn,
/// and changes nothing else.
pub fn unstake_tokens(accounts: &mut UnstakeTokens, now: i64, outcome: TransferOutcome) -> (r:
    Result<u64, ErrorCode>)
    ensures
        match old(accounts).result(now, outcome) {
            Ok(next) => r == Ok::<u64, ErrorCode>(old(accounts).user_stake.amount)
                && *final(accounts) == next,
            Err(e) => r == Err::<u64, ErrorCode>(e) && *final(accounts) == *old(accounts),
        },
{
    let transfer: Transfer = match unstake_transfer(accounts, now) {
        Ok(transfer) => transfer,
        Err(e) => { return Err(e); },
    };
    match outcome.check() {
        Ok(()) => {},
        Err(e) => { return Err(e); },
    }
    accounts.staking_pool.total_staked = accounts.staking_pool.total_staked - transfer.amount;
    accounts.user_stake.amount = 0;
    accounts.user_stake.stake_time = 0;
    Ok(transfer.amount)
}

/// The lock is enforced to the second: an active position cannot be
/// withdrawn one second before `stake_time + lock_period`, and can be from
/// that moment on, provided the pool holds at least the position's stake and
/// the transfer goes through.
pub proof fn lemma_lock_enforced(accounts: UnstakeTokens, now: i64, outcome: TransferOutcome)
    requires
        accounts.user_stake.is_active(),
        accounts.user_stake.amount <= accounts.staking_pool.total_staked,
    ensures
        now < accounts.unlock_time() ==> accounts.result(now, outcome) == Err::<
            UnstakeTokens,
            ErrorCode,
        >(ErrorCode::LockPeriodNotReached),
        now == accounts.unlock_time() - 1 ==> accounts.result(now, outcome) == Err::<
            UnstakeTokens,
            ErrorCode,
        >(ErrorCode::LockPeriodNotReached),
        now >= accounts.unlock_time() ==> accounts.result(now, TransferOutcome::Success)
            == Ok::<UnstakeTokens, ErrorCode>(accounts.settled()),
        now == accounts.unlock_time() ==> accounts.result(now, TransferOutcome::Success)
            == Ok::<UnstakeTokens, ErrorCode>(accounts.settled()),
{
}

} // verus!
