use vstd::prelude::*;

verus! {

/// Every way an operation of this library can fail. A failing operation
/// leaves all state exactly as it was.
#[derive(Clone, Copy, Debug, PartialEq, Eq, Structural)]
pub enum ErrorCode {
    /// The authority provided is invalid.
    InvalidAuthority,
    /// The treasury address is invalid.
    InvalidTreasury,
    /// The member is already part of the multisig.
    DuplicateMember,
    /// The multisig has reached its maximum member limit.
    ExceedsMaxMembers,
    /// Cannot remove the last member from the multisig.
    RemoveLastMember,
    /// The specified member is not part of the multisig.
    NotAMember,
    /// The threshold is zero or exceeds the number of members.
    InvalidThreshold,
    /// The specified spending limit is invalid.
    InvalidSpendingLimit,
    /// No actions provided for the config transaction.
    NoActions,
    /// Member already approved the transaction.
    AlreadyApproved,
    /// Member already rejected the transaction.
    AlreadyRejected,
    /// Member already cancelled the transaction.
    AlreadyCancelled,
    /// The signer does not have the required permissions.
    Unauthorized,
    /// Proposal is in an invalid status.
    InvalidProposalStatus,
    /// The proposal is stale.
    StaleProposal,
    /// The stale transaction index may only move forward.
    InvalidStaleTransactionIndex,
}

/// How an operation that returns `r` relates the state before the call to
/// the state after it, given the outcome its rules prescribe: on `Ok(next)`
/// the call succeeds and leaves `next`; on `Err(e)` it fails with `e` and
/// changes nothing.
pub open spec fn takes_effect<T>(
    r: Result<(), ErrorCode>,
    before: T,
    after: T,
    outcome: Result<T, ErrorCode>,
) -> bool {
    match outcome {
        Ok(next) => r is Ok && after == next,
        Err(e) => r == Err::<(), ErrorCode>(e) && after == before,
    }
}

/// A check's result: the error it found, or success.
pub open spec fn check_result(e: Option<ErrorCode>) -> Result<(), ErrorCode> {
    match e {
        Some(e) => Err(e),
        None => Ok(()),
    }
}

} // verus!
