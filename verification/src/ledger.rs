//! A pool together with all of its positions, and what every sequence of
//! operations preserves of the two.

use vstd::prelude::*;
use anchor_lang::prelude::Pubkey;
use crate::accounts::{
    ClaimRewards, InitializeStakingPool, StakeTokens, StakingPool, UnstakeTokens, UserStake,
};
use crate::rewards::lemma_accrued_monotonic;
use crate::transfer::TransferOutcome;

verus! {

/// A pool and the positions held in it, in the order they were opened.
pub struct Ledger {
    pub pool: StakingPool,
    pub positions: Seq<UserStake>,
}

/// One call made against a ledger. `who` is the index of the position the
/// call is about; a call about a position that does not exist does nothing.
pub enum Call {
    /// The host provides the record of a user who has no position yet.
    Open { user: Pubkey, bump: u8 },
    Stake { who: int, user: Pubkey, bump: u8, amount: u64, now: i64, outcome: TransferOutcome },
    Unstake { who: int, now: i64, outcome: TransferOutcome },
    Claim { who: int, now: i64, outcome: TransferOutcome },
}

impl Call {
    /// Whether the call is made at `now`. Opening a record takes no reading
    /// of the clock and can be made at any time.
    pub open spec fn made_at(self, now: int) -> bool {
        match self {
            Call::Open { .. } => true,
            Call::Stake { now: at, .. } => at == now,
            Call::Unstake { now: at, .. } => at == now,
            Call::Claim { now: at, .. } => at == now,
        }
    }
}

/// Sum of the amounts staked in the given positions.
pub open spec fn staked_sum(positions: Seq<UserStake>) -> int
    decreases positions.len(),
{
    if positions.len() == 0 {
        0
    } else {
        staked_sum(positions.drop_last()) + positions.last().amount
    }
}

impl Ledger {
    /// The pool's `total_staked` is the sum of its positions' amounts.
    pub open spec fn balanced(self) -> bool {
        self.pool.total_staked == staked_sum(self.positions)
    }

    /// Every position obeys the accounting rules at `now`.
    pub open spec fn sound(self, now: int) -> bool {
        forall|who: int|
            0 <= who < self.positions.len() ==> (#[trigger] self.positions[who]).sound(
                self.pool.reward_rate,
                now,
            )
    }

    /// The ledger with position `who` and the pool replaced.
    pub open spec fn with(self, who: int, pool: StakingPool, position: UserStake) -> Ledger {
        Ledger { pool, positions: self.positions.update(who, position) }
    }

    /// The ledger after one call. A refused call leaves it as it was.
    pub open spec fn step(self, call: Call) -> Ledger {
        match call {
            Call::Open { user, bump } => Ledger {
                pool: self.pool,
                positions: self.positions.push(
                    UserStake { user, amount: 0, stake_time: 0, rewards_claimed: 0, bump },
                ),
            },
            Call::Stake { who, user, bump, amount, now, outcome } => {
                if 0 <= who < self.positions.len() {
                    let accounts = StakeTokens {
                        staking_pool: self.pool,
                        user_stake: self.positions[who],
                        user,
                        user_stake_bump: bump,
                    };
                    match accounts.result(amount, now, outcome) {
                        Ok(next) => self.with(who, next.staking_pool, next.user_stake),
                        Err(_) => self,
                    }
                } else {
                    self
                }
            },
            Call::Unstake { who, now, outcome } => {
                if 0 <= who < self.positions.len() {
                    let accounts = UnstakeTokens {
                        staking_pool: self.pool,
                        user_stake: self.positions[who],
                    };
                    match accounts.result(now, outcome) {
                        Ok(next) => self.with(who, next.staking_pool, next.user_stake),
                        Err(_) => self,
                    }
                } else {
                    self
                }
            },
            Call::Claim { who, now, outcome } => {
                if 0 <= who < self.positions.len() {
                    let accounts = ClaimRewards {
                        staking_pool: self.pool,
                        user_stake: self.positions[who],
                    };
                    match accounts.result(now, outcome) {
                        Ok(next) => self.with(who, next.staking_pool, next.user_stake),
                        Err(_) => self,
                    }
                } else {
                    self
                }
            },
        }
    }

    /// The ledger after a sequence of calls, made in order.
    pub open spec fn run(self, calls: Seq<Call>) -> Ledger
        decreases calls.len(),
    {
        if calls.len() == 0 {
            self
        } else {
            self.run(calls.drop_last()).step(calls.last())
        }
    }
}

/// Replacing one position changes the sum by the difference of the amounts.
pub proof fn lemma_staked_sum_update(positions: Seq<UserStake>, who: int, position: UserStake)
    requires
        0 <= who < positions.len(),
    ensures
        staked_sum(positions.update(who, position)) == staked_sum(positions)
            - positions[who].amount + position.amount,
    decreases positions.len(),
{
    let updated = positions.update(who, position);
    if who == positions.len() - 1 {
        assert(updated.drop_last() =~= positions.drop_last());
    } else {
        assert(updated.drop_last() =~= positions.drop_last().update(who, position));
        lemma_staked_sum_update(positions.drop_last(), who, position);
    }
}

/// One call keeps a balanced ledger balanced, and never lowers the pool's
/// `total_rewards`.
pub proof fn lemma_step_keeps_balance(ledger: Ledger, call: Call)
    requires
        ledger.balanced(),
    ensures
        ledger.step(call).balanced(),
        ledger.step(call).pool.total_rewards >= ledger.pool.total_rewards,
{
    match call {
        Call::Open { user, bump } => {
            let opened = UserStake { user, amount: 0, stake_time: 0, rewards_claimed: 0, bump };
            assert(ledger.positions.push(opened).drop_last() =~= ledger.positions);
        },
        Call::Stake { who, user, bump, amount, now, outcome } => {
            if 0 <= who < ledger.positions.len() {
                let accounts = StakeTokens {
                    staking_pool: ledger.pool,
                    user_stake: ledger.positions[who],
                    user,
                    user_stake_bump: bump,
                };
                if let Ok(next) = accounts.result(amount, now, outcome) {
                    lemma_staked_sum_update(ledger.positions, who, next.user_stake);
                }
            }
        },
        Call::Unstake { who, now, outcome } => {
            if 0 <= who < ledger.positions.len() {
                let accounts = UnstakeTokens {
                    staking_pool: ledger.pool,
                    user_stake: ledger.positions[who],
                };
                if let Ok(next) = accounts.result(now, outcome) {
                    lemma_staked_sum_update(ledger.positions, who, next.user_stake);
                }
            }
        },
        Call::Claim { who, now, outcome } => {
            if 0 <= who < ledger.positions.len() {
                let accounts = ClaimRewards {
                    staking_pool: ledger.pool,
                    user_stake: ledger.positions[who],
                };
                if let Ok(next) = accounts.result(now, outcome) {
                    lemma_staked_sum_update(ledger.positions, who, next.user_stake);
                }
            }
        },
    }
}

/// After any sequence of calls on a balanced ledger, the pool's
/// `total_staked` still equals the sum of the amounts of its positions, and
/// its `total_rewards` has not decreased.
pub proof fn lemma_run_keeps_balance(ledger: Ledger, calls: Seq<Call>)
    requires
        ledger.balanced(),
    ensures
        ledger.run(calls).balanced(),
        ledger.run(calls).pool.total_rewards >= ledger.pool.total_rewards,
    decreases calls.len(),
{
    if calls.len() > 0 {
        lemma_run_keeps_balance(ledger, calls.drop_last());
        lemma_step_keeps_balance(ledger.run(calls.drop_last()), calls.last());
    }
}

/// A position that obeys the accounting rules keeps obeying them as time
/// passes while it is left alone.
pub proof fn lemma_sound_later(position: UserStake, reward_rate: u64, earlier: int, later: int)
    requires
        position.sound(reward_rate, earlier),
        earlier <= later,
    ensures
        position.sound(reward_rate, later),
{
    lemma_accrued_monotonic(
        position.amount as int,
        reward_rate as int,
        earlier - position.stake_time,
        later - position.stake_time,
    );
}

/// While the clock does not run backwards, calls keep every position within
/// the accounting rules: if all positions obey them at some moment, they
/// still do after a call made at that moment or later. The pool's reward
/// rate never changes.
pub proof fn lemma_step_keeps_sound(ledger: Ledger, call: Call, earlier: int, now: int)
    requires
        ledger.sound(earlier),
        earlier <= now,
        call.made_at(now),
    ensures
        ledger.step(call).sound(now),
        ledger.step(call).pool.reward_rate == ledger.pool.reward_rate,
{
    let after = ledger.step(call);
    let rate = ledger.pool.reward_rate;
    assert(after.pool.reward_rate == rate);
    assert forall|who: int| 0 <= who < after.positions.len() implies (#[trigger] after.positions[who]).sound(
        rate,
        now,
    ) by {
        let position = after.positions[who];
        if who < ledger.positions.len() && position == ledger.positions[who] {
            // Left alone by the call.
            lemma_sound_later(position, rate, earlier, now);
        } else if position.is_active() {
            // Staked into at `now`, or paid at `now` all that has accrued.
            assert(position.amount * rate * 0 == 0) by (nonlinear_arith);
        }
    }
}

/// A newly created pool, which has no positions yet, is balanced, and all
/// of its positions obey the accounting rules.
pub proof fn lemma_created_pool_balanced(
    accounts: InitializeStakingPool,
    pool_id: u64,
    reward_rate: u64,
    lock_period: i64,
    now: int,
)
    ensures
        (Ledger {
            pool: accounts.created(pool_id, reward_rate, lock_period),
            positions: Seq::empty(),
        }).balanced(),
        (Ledger {
            pool: accounts.created(pool_id, reward_rate, lock_period),
            positions: Seq::empty(),
        }).sound(now),
{
}

} // verus!
