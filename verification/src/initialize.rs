//! Creating a staking pool.

use vstd::prelude::*;
use crate::accounts::{InitializeStakingPool, StakingPool};
use crate::error::ErrorCode;

verus! {

impl InitializeStakingPool {
    /// The ledger of a newly created pool: the given parameters, the parties
    /// named at creation, and nothing staked or paid out yet.
    pub open spec fn created(self, pool_id: u64, reward_rate: u64, lock_period: i64) -> StakingPool {
        StakingPool {
            pool_id,
            reward_rate,
            lock_period,
            total_staked: 0,
            total_rewards: 0,
            authority: self.authority,
            token_mint: self.token_mint,
            bump: self.staking_pool_bump,
        }
    }
}

/// Creates the pool `pool_id` in the slot handed in, and returns its ledger.
///
/// Fails with `PoolAlreadyExists`, changing nothing, where the slot already
/// holds a pool: an existing ledger is never overwritten.
pub fn initialize_staking_pool(
    accounts: &mut InitializeStakingPool,
    pool_id: u64,
    reward_rate: u64,
    lock_period: i64,
) -> (r: Result<StakingPool, ErrorCode>)
    ensures
        old(accounts).staking_pool is Some ==> r == Err::<StakingPool, ErrorCode>(
            ErrorCode::PoolAlreadyExists,
        ) && *final(accounts) == *old(accounts),
        old(accounts).staking_pool is None ==> r == Ok::<StakingPool, ErrorCode>(
            old(accounts).created(pool_id, reward_rate, lock_period),
        ) && *final(accounts) == (InitializeStakingPool {
            staking_pool: Some(old(accounts).created(pool_id, reward_rate, lock_period)),
            ..*old(accounts)
        }),
{
    if accounts.staking_pool.is_some() {
        return Err(ErrorCode::PoolAlreadyExists);
    }
    let staking_pool = StakingPool {
        pool_id,
        reward_rate,
        lock_period,
        total_staked: 0,
        total_rewards: 0,
        authority: accounts.authority,
        token_mint: accounts.token_mint,
        bump: accounts.staking_pool_bump,
    };
    accounts.staking_pool = Some(staking_pool);
    Ok(staking_pool)
}

} // verus!
