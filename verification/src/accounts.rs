//! The persistent records, and the records each operation works on.

use vstd::prelude::*;
use anchor_lang::prelude::Pubkey;
use crate::rewards::accrued_rewards;

verus! {

/// `anchor_lang::prelude::Pubkey`, the 32-byte address that names a user, an
/// authority or a token mint. Nothing is claimed of it: the records carry
/// such values through and never look inside them.
#[verifier::external_type_specification]
#[verifier::external_body]
pub struct ExPubkey(Pubkey);

/// Ledger of one staking pool.
#[derive(Clone, Copy, Debug, PartialEq, Eq)]
pub struct StakingPool {
    /// Stable identifier, part of the pool's derived address.
    pub pool_id: u64,
    /// Yearly reward per staked unit, scaled by `FIXED_POINT_SCALE`.
    pub reward_rate: u64,
    /// Seconds a stake must remain before it can be withdrawn.
    pub lock_period: i64,
    /// Sum of the amounts of all positions in this pool.
    pub total_staked: u64,
    /// Rewards paid out by this pool so far.
    pub total_rewards: u64,
    /// Creator of the pool.
    pub authority: Pubkey,
    /// Token this pool accepts.
    pub token_mint: Pubkey,
    /// Bump seed of the pool's derived address.
    pub bump: u8,
}

/// Position of one user in one pool.
#[derive(Clone, Copy, Debug, PartialEq, Eq)]
pub struct UserStake {
    /// Owner of the position.
    pub user: Pubkey,
    /// Amount currently staked; zero while the position is dormant.
    pub amount: u64,
    /// When the current stake began to accrue, in seconds since the epoch.
    pub stake_time: i64,
    /// Rewards paid out since the current stake began.
    pub rewards_claimed: u64,
    /// Bump seed of the position's derived address.
    pub bump: u8,
}

impl UserStake {
    /// A position is active while it holds stake, and dormant otherwise.
    pub open spec fn is_active(self) -> bool {
        self.amount > 0
    }

    /// Whether the position obeys the accounting rules at `now` in a pool
    /// that pays `reward_rate`: while it is active, its stake began no later
    /// than `now` and it was paid no more than has accrued by `now`.
    pub open spec fn sound(self, reward_rate: u64, now: int) -> bool {
        self.is_active() ==> {
            &&& self.stake_time <= now
            &&& self.rewards_claimed <= accrued_rewards(
                self.amount as int,
                reward_rate as int,
                now - self.stake_time,
            )
        }
    }
}

/// What pool creation works on: the slot the pool id leads to, which is
/// empty until a pool is created there, and the parties named in the new
/// ledger.
#[derive(Clone, Copy, Debug, PartialEq, Eq)]
pub struct InitializeStakingPool {
    pub staking_pool: Option<StakingPool>,
    pub authority: Pubkey,
    pub token_mint: Pubkey,
    /// Bump seed found for the pool's derived address.
    pub staking_pool_bump: u8,
}

/// What a stake works on: the pool, the staking user and that user's
/// position in the pool. A position that was never staked into is handed in
/// dormant.
#[derive(Clone, Copy, Debug, PartialEq, Eq)]
pub struct StakeTokens {
    pub staking_pool: StakingPool,
    pub user_stake: UserStake,
    pub user: Pubkey,
    /// Bump seed found for the position's derived address.
    pub user_stake_bump: u8,
}

/// What an unstake works on: the pool and the withdrawing user's position.
#[derive(Clone, Copy, Debug, PartialEq, Eq)]
pub struct UnstakeTokens {
    pub staking_pool: StakingPool,
    pub user_stake: UserStake,
}

/// What a claim works on: the pool and the claiming user's position.
#[derive(Clone, Copy, Debug, PartialEq, Eq)]
pub struct ClaimRewards {
    pub staking_pool: StakingPool,
    pub user_stake: UserStake,
}

} // verus!
