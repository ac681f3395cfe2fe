//! Accounting core of a fixed-rate, single-pool token staking program.
//!
//! Users deposit tokens into a pool, accrue rewards in proportion to the time
//! staked, and withdraw principal once a lock period has passed. This crate
//! holds the bookkeeping rules and the reward arithmetic; moving tokens and
//! reading the clock are left to the host, which reports back what happened.

pub mod accounts;
pub mod claim;
pub mod error;
pub mod initialize;
pub mod ledger;
pub mod rewards;
pub mod signer;
pub mod stake;
pub mod transfer;
pub mod unstake;

pub use accounts::{ClaimRewards, InitializeStakingPool, StakeTokens, StakingPool, UnstakeTokens, UserStake};
pub use claim::{claim_rewards, claim_transfer};
pub use error::ErrorCode;
pub use initialize::initialize_staking_pool;
pub use stake::{stake_tokens, stake_transfer};
pub use transfer::{Party, Transfer, TransferOutcome};
pub use unstake::{unstake_tokens, unstake_transfer};
