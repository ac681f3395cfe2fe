//! The token transfer each operation asks of the host, and the host's answer.

use vstd::prelude::*;
use crate::error::ErrorCode;

verus! {

/// A side of a transfer: the user's token balance or the pool's.
#[derive(Clone, Copy, Debug, PartialEq, Eq, Structural)]
pub enum Party {
    User,
    Pool,
}

/// A transfer the host is to carry out, in full or not at all, before the
/// operation that asked for it is settled.
#[derive(Clone, Copy, Debug, PartialEq, Eq, Structural)]
pub struct Transfer {
    /// Whose balance is debited.
    pub from: Party,
    /// Whose balance is credited.
    pub to: Party,
    /// Who authorizes the transfer: the user by signing, or the pool through
    /// its program-derived signing authority.
    pub authority: Party,
    pub amount: u64,
}

/// How a requested transfer ended.
#[derive(Clone, Copy, Debug, PartialEq, Eq, Structural)]
pub enum TransferOutcome {
    Success,
    InsufficientFunds,
    Unauthorized,
}

impl TransferOutcome {
    /// The error a transfer's outcome stands for, if any.
    pub open spec fn refusal(self) -> Option<ErrorCode> {
        match self {
            TransferOutcome::Success => None,
            TransferOutcome::InsufficientFunds => Some(ErrorCode::TransferFailed),
            TransferOutcome::Unauthorized => Some(ErrorCode::Unauthorized),
        }
    }

    /// Passes a successful transfer, and turns a failed one into its error.
    pub fn check(self) -> (r: Result<(), ErrorCode>)
        ensures
            r == match self.refusal() {
                Some(e) => Err::<(), ErrorCode>(e),
                None => Ok::<(), ErrorCode>(()),
            },
    {
        match self {
            TransferOutcome::Success => Ok(()),
            TransferOutcome::InsufficientFunds => Err(ErrorCode::TransferFailed),
            TransferOutcome::Unauthorized => Err(ErrorCode::Unauthorized),
        }
    }
}

} // verus!
