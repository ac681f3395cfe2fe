//! Staking tokens into a pool.

use vstd::prelude::*;
use crate::accounts::{StakeTokens, StakingPool, UserStake};
use crate::error::ErrorCode;
use crate::rewards::{accrual_consistent, claimable, claimable_rewards};
use crate::transfer::{Party, Transfer, TransferOutcome};

verus! {

impl StakeTokens {
    /// Whether the position could claim nothing at `now`: its figures agree
    /// with the accounting rules and all that has accrued was paid out.
    pub open spec fn nothing_claimable(self, now: i64) -> bool {
        &&& accrual_consistent(
            self.user_stake.amount as int,
            self.staking_pool.reward_rate as int,
            self.user_stake.stake_time as int,
            self.user_stake.rewards_claimed as int,
            now as int,
        )
        &&& claimable(
            self.user_stake.amount as int,
            self.staking_pool.reward_rate as int,
            self.user_stake.stake_time as int,
            self.user_stake.rewards_claimed as int,
            now as int,
        ) == 0
    }

    /// Why a stake of `amount` at `now` is refused before any token moves,
    /// if it is.
    pub open spec fn refusal(self, amount: u64, now: i64) -> Option<ErrorCode> {
        if amount == 0 {
            Some(ErrorCode::InvalidAmount)
        } else if self.user_stake.is_active() && !self.nothing_claimable(now) {
            Some(ErrorCode::ActivePositionExists)
        } else if self.user_stake.amount + amount > u64::MAX || self.staking_pool.total_staked
            + amount > u64::MAX {
            Some(ErrorCode::InvalidAmount)
        } else {
            None
        }
    }

    /// The deposit a stake of `amount` asks for: from the user to the pool,
    /// authorized by the user.
    pub open spec fn transfer(amount: u64) -> Transfer {
        Transfer { from: Party::User, to: Party::Pool, authority: Party::User, amount }
    }

    /// The records after `amount` has been deposited at `now`.
    pub open spec fn settled(self, amount: u64, now: i64) -> StakeTokens {
        StakeTokens {
            staking_pool: StakingPool {
                total_staked: (self.staking_pool.total_staked + amount) as u64,
                ..self.staking_pool
            },
            user_stake: UserStake {
                user: self.user,
                amount: (self.user_stake.amount + amount) as u64,
                stake_time: now,
                rewards_claimed: 0,
                bump: self.user_stake_bump,
            },
            ..self
        }
    }

    /// Where a stake of `amount` at `now` leads, given how its transfer
    /// ended: the settled records, or the error that leaves them as they
    /// were.
    pub open spec fn result(self, amount: u64, now: i64, outcome: TransferOutcome) -> Result<
        StakeTokens,
        ErrorCode,
    > {
        match self.refusal(amount, now) {
            Some(e) => Err(e),
            None => match outcome.refusal() {
                Some(e) => Err(e),
                None => Ok(self.settled(amount, now)),
            },
        }
    }
}

/// Decides whether a stake of `amount` at `now` may go ahead and, if so,
/// which transfer the host must carry out before the stake is settled with
/// [`stake_tokens`]. Changes nothing.
pub fn stake_transfer(accounts: &StakeTokens, amount: u64, now: i64) -> (r: Result<
    Transfer,
    ErrorCode,
>)
    ensures
        r == match accounts.refusal(amount, now) {
            Some(e) => Err::<Transfer, ErrorCode>(e),
            None => Ok::<Transfer, ErrorCode>(StakeTokens::transfer(amount)),
        },
{
    if amount == 0 {
        return Err(ErrorCode::InvalidAmount);
    }
    if accounts.user_stake.amount > 0 {
        match claimable_rewards(
            accounts.user_stake.amount,
            accounts.staking_pool.reward_rate,
            accounts.user_stake.stake_time,
            accounts.user_stake.rewards_claimed,
            now,
        ) {
            Ok(rewards) => {
                if rewards != 0 {
                    return Err(ErrorCode::ActivePositionExists);
                }
            },
            Err(_) => { return Err(ErrorCode::ActivePositionExists); },
        }
    }
    if amount > u64::MAX - accounts.user_stake.amount || amount > u64::MAX
        - accounts.staking_pool.total_staked {
        return Err(ErrorCode::InvalidAmount);
    }
    Ok(Transfer { from: Party::User, to: Party::Pool, authority: Party::User, amount })
}

/// Settles a stake of `amount` at `now`, given how the transfer asked for by
/// [`stake_transfer`] ended, and returns the updated position.
///
/// A dormant position starts afresh: it is given the staking user, the
/// amount, `now` as its `stake_time` and no rewards claimed. An active
/// position can be topped up only while it has nothing to claim; the amount
/// is then added to its stake and its accrual clock starts afresh in the
/// same way, so that no accrued reward is lost. An active position with
/// rewards left to claim, or one whose figures contradict the accounting
/// rules, is refused with `ActivePositionExists`.
///
/// A stake that is refused, before the transfer or by it, leaves the records
/// as they were. A settled one raises the pool's `total_staked` by `amount`.
pub fn stake_tokens(
    accounts: &mut StakeTokens,
    amount: u64,
    now: i64,
    outcome: TransferOutcome,
) -> (r: Result<UserStake, ErrorCode>)
    ensures
        match old(accounts).result(amount, now, outcome) {
            Ok(next) => r == Ok::<UserStake, ErrorCode>(next.user_stake) && *final(accounts)
                == next,
            Err(e) => r == Err::<UserStake, ErrorCode>(e) && *final(accounts) == *old(accounts),
        },
{
    let transfer: Transfer = match stake_transfer(accounts, amount, now) {
        Ok(transfer) => transfer,
        Err(e) => { return Err(e); },
    };
    match outcome.check() {
        Ok(()) => {},
        Err(e) => { return Err(e); },
    }
    accounts.user_stake.user = accounts.user;
    accounts.user_stake.amount = accounts.user_stake.amount + transfer.amount;
    accounts.user_stake.stake_time = now;
    accounts.user_stake.rewards_claimed = 0;
    accounts.user_stake.bump = accounts.user_stake_bump;
    accounts.staking_pool.total_staked = accounts.staking_pool.total_staked + transfer.amount;
    Ok(accounts.user_stake)
}

} // verus!
