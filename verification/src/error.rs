use vstd::prelude::*;

verus! {

/// Why an operation was rejected. A rejected operation leaves every record as
/// it found it.
#[derive(Clone, Copy, Debug, PartialEq, Eq, Structural)]
pub enum CustomError {
    /// A time gate has not opened yet.
    LockPeriodNotOver,
    /// The vote arrived after the proposal's deadline.
    VotingPeriodEnded,
    /// The voter is already on the proposal's list.
    AlreadyVoted,
    /// The total supply to issue is zero.
    InvalidTotalSupply,
    /// The token name is empty.
    InvalidTokenName,
    /// The token symbol is empty.
    InvalidTokenSymbol,
    /// The registry already holds a supply.
    AlreadyInitialized,
    /// The amount to lock is zero.
    InvalidLockAmount,
    /// The owner holds less than the amount to lock.
    InsufficientBalance,
    /// The lock record holds nothing.
    NoTokensToUnlock,
    /// The revenue to distribute is zero.
    InvalidRevenueAmount,
    /// The registry holds no supply to divide by.
    ZeroTotalSupply,
    /// The proposal's description is empty.
    InvalidProposalDescription,
    /// The caller is not the principal that the record belongs to.
    NotAuthorized,
    /// The proposal's list of voters is full.
    CapacityExceeded,
}

} // verus!
