//! Claiming the rewards a position has accrued.

use vstd::prelude::*;
use crate::accounts::{ClaimRewards, StakingPool, UserStake};
use crate::error::ErrorCode;
use crate::rewards::{accrual_consistent, accrued_rewards, claimable, claimable_rewards};
use crate::transfer::{Party, Transfer, TransferOutcome};

verus! {

impl ClaimRewards {
    /// Whether the position's figures agree with the accounting rules at
    /// `now`.
    pub open spec fn consistent(self, now: i64) -> bool {
        accrual_consistent(
            self.user_stake.amount as int,
            self.staking_pool.reward_rate as int,
            self.user_stake.stake_time as int,
            self.user_stake.rewards_claimed as int,
            now as int,
        )
    }

    /// Rewards the position can claim at `now`.
    pub open spec fn claimable(self, now: i64) -> int {
        claimable(
            self.user_stake.amount as int,
            self.staking_pool.reward_rate as int,
            self.user_stake.stake_time as int,
            self.user_stake.rewards_claimed as int,
            now as int,
        )
    }

    /// Why a claim at `now` is refused before any token moves, if it is.
    ///
    /// A dormant position accrues nothing. An active one whose figures
    /// contradict the accounting rules is paid nothing and reported.
    pub open spec fn refusal(self, now: i64) -> Option<ErrorCode> {
        if !self.user_stake.is_active() {
            Some(ErrorCode::NoRewardsToClaim)
        } else if !self.consistent(now) {
            Some(ErrorCode::InvariantViolation)
        } else if self.claimable(now) == 0 {
            Some(ErrorCode::NoRewardsToClaim)
        } else if self.staking_pool.total_rewards + self.claimable(now) > u64::MAX {
            Some(ErrorCode::InvariantViolation)
        } else {
            None
        }
    }

    /// The payout a claim at `now` asks for: the claimable rewards, from the
    /// pool to the user, authorized by the pool.
    pub open spec fn transfer(self, now: i64) -> Transfer {
        Transfer {
            from: Party::Pool,
            to: Party::User,
            authority: Party::Pool,
            amount: self.claimable(now) as u64,
        }
    }

    /// The records after a claim at `now` has been paid out.
    pub open spec fn settled(self, now: i64) -> ClaimRewards {
        ClaimRewards {
            staking_pool: StakingPool {
                total_rewards: (self.staking_pool.total_rewards + self.claimable(now)) as u64,
                ..self.staking_pool
            },
            user_stake: UserStake {
                rewards_claimed: (self.user_stake.rewards_claimed + self.claimable(now)) as u64,
                ..self.user_stake
            },
        }
    }

    /// Where a claim at `now` leads, given how its transfer ended: the
    /// settled records, or the error that leaves them as they were.
    pub open spec fn result(self, now: i64, outcome: TransferOutcome) -> Result<
        ClaimRewards,
        ErrorCode,
    > {
        match self.refusal(now) {
            Some(e) => Err(e),
            None => match outcome.refusal() {
                Some(e) => Err(e),
                None => Ok(self.settled(now)),
            },
        }
    }
}

/// Decides whether a claim at `now` may go ahead and, if so, which transfer
/// the host must carry out before the claim is settled with
/// [`claim_rewards`]. Changes nothing.
pub fn claim_transfer(accounts: &ClaimRewards, now: i64) -> (r: Result<Transfer, ErrorCode>)
    ensures
        r == match accounts.refusal(now) {
            Some(e) => Err::<Transfer, ErrorCode>(e),
            None => Ok::<Transfer, ErrorCode>(accounts.transfer(now)),
        },
{
    if accounts.user_stake.amount == 0 {
        return Err(ErrorCode::NoRewardsToClaim);
    }
    let rewards: u64 = match claimable_rewards(
        accounts.user_stake.amount,
        accounts.staking_pool.reward_rate,
        accounts.user_stake.stake_time,
        accounts.user_stake.rewards_claimed,
        now,
    ) {
        Ok(rewards) => rewards,
        Err(e) => { return Err(e); },
    };
    if rewards == 0 {
        return Err(ErrorCode::NoRewardsToClaim);
    }
    if rewards > u64::MAX - accounts.staking_pool.total_rewards {
        return Err(ErrorCode::InvariantViolation);
    }
    Ok(Transfer { from: Party::Pool, to: Party::User, authority: Party::Pool, amount: rewards })
}

/// Settles a claim at `now`, given how the transfer asked for by
/// [`claim_transfer`] ended, and returns the rewards paid.
///
/// A claim that is refused, before the transfer or by it, leaves the records
/// as they were. A settled claim adds the rewards paid to the position's
/// `rewards_claimed` and to the pool's `total_rewards`, and changes nothing
/// else.
pub fn claim_rewards(accounts: &mut ClaimRewards, now: i64, outcome: TransferOutcome) -> (r:
    Result<u64, ErrorCode>)
    ensures
        match old(accounts).result(now, outcome) {
            Ok(next) => r == Ok::<u64, ErrorCode>(old(accounts).claimable(now) as u64)
                && *final(accounts) == next,
            Err(e) => r == Err::<u64, ErrorCode>(e) && *final(accounts) == *old(accounts),
        },
{
    let transfer: Transfer = match claim_transfer(accounts, now) {
        Ok(transfer) => transfer,
        Err(e) => { return Err(e); },
    };
    match outcome.check() {
        Ok(()) => {},
        Err(e) => { return Err(e); },
    }
    accounts.user_stake.rewards_claimed = accounts.user_stake.rewards_claimed + transfer.amount;
    accounts.staking_pool.total_rewards = accounts.staking_pool.total_rewards + transfer.amount;
    Ok(transfer.amount)
}

/// A claim cannot be repeated on the spot: once a claim at `now` has been
/// settled, a second claim at the same `now` is refused with
/// `NoRewardsToClaim`, however its transfer would have ended.
pub proof fn lemma_claim_twice_refused(
    accounts: ClaimRewards,
    now: i64,
    first: TransferOutcome,
    second: TransferOutcome,
)
    requires
        accounts.result(now, first) is Ok,
    ensures
        accounts.result(now, first)->Ok_0.result(now, second) == Err::<ClaimRewards, ErrorCode>(
            ErrorCode::NoRewardsToClaim,
        ),
{
}

/// A settled claim pays out exactly what had accrued and was not yet paid:
/// afterwards the position's `rewards_claimed` equals the rewards accrued up
/// to `now`, and neither it nor the pool's `total_rewards` has decreased.
pub proof fn lemma_claim_pays_accrued(accounts: ClaimRewards, now: i64, outcome: TransferOutcome)
    requires
        accounts.result(now, outcome) is Ok,
    ensures
        accounts.result(now, outcome)->Ok_0.user_stake.rewards_claimed == accrued_rewards(
            accounts.user_stake.amount as int,
            accounts.staking_pool.reward_rate as int,
            now - accounts.user_stake.stake_time,
        ),
        accounts.result(now, outcome)->Ok_0.user_stake.rewards_claimed
            > accounts.user_stake.rewards_claimed,
        accounts.result(now, outcome)->Ok_0.staking_pool.total_rewards
            > accounts.staking_pool.total_rewards,
{
}

} // verus!
