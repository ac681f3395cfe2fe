use vstd::prelude::*;

verus! {

/// Why an operation was refused. A refused operation changes no record.
#[derive(Clone, Copy, Debug, PartialEq, Eq, Structural)]
pub enum ErrorCode {
    /// Unstake was asked for before `stake_time + lock_period`.
    LockPeriodNotReached,
    /// Nothing has accrued beyond what was already paid out.
    NoRewardsToClaim,
    /// A pool is already recorded under the requested pool id.
    PoolAlreadyExists,
    /// The amount to stake is zero, or adding it would overflow a balance.
    InvalidAmount,
    /// The position is active and still has rewards to claim.
    ActivePositionExists,
    /// The position holds no stake.
    NoActivePosition,
    /// The token transfer did not go through for want of funds.
    TransferFailed,
    /// The token transfer was not authorized.
    Unauthorized,
    /// The records contradict the accounting rules, or a reward does not fit
    /// the width it is stored in.
    InvariantViolation,
}

impl ErrorCode {
    /// The text that describes this error to a user.
    pub open spec fn text(self) -> Seq<char> {
        match self {
            ErrorCode::LockPeriodNotReached => "Lock period not reached"@,
            ErrorCode::NoRewardsToClaim => "No rewards to claim"@,
            ErrorCode::PoolAlreadyExists => "Pool already exists"@,
            ErrorCode::InvalidAmount => "Invalid amount"@,
            ErrorCode::ActivePositionExists => "Active position exists"@,
            ErrorCode::NoActivePosition => "No active position"@,
            ErrorCode::TransferFailed => "Transfer failed"@,
            ErrorCode::Unauthorized => "Unauthorized"@,
            ErrorCode::InvariantViolation => "Invariant violation"@,
        }
    }

    /// The text that describes this error to a user.
    pub fn message(&self) -> (s: &'static str)
        ensures
            s@ == self.text(),
    {
        match self {
            ErrorCode::LockPeriodNotReached => "Lock period not reached",
            ErrorCode::NoRewardsToClaim => "No rewards to claim",
            ErrorCode::PoolAlreadyExists => "Pool already exists",
            ErrorCode::InvalidAmount => "Invalid amount",
            ErrorCode::ActivePositionExists => "Active position exists",
            ErrorCode::NoActivePosition => "No active position",
            ErrorCode::TransferFailed => "Transfer failed",
            ErrorCode::Unauthorized => "Unauthorized",
            ErrorCode::InvariantViolation => "Invariant violation",
        }
    }
}

} // verus!
