use vstd::prelude::*;

verus! {

/// Why an operation of the reward book was refused. A refused operation
/// changes nothing.
#[derive(Clone, Copy, Debug, PartialEq, Eq, Structural)]
pub enum RewardError {
    /// An account's stored reward-per-share value is ahead of the channel's
    /// counter: settling it would underflow.
    AccountAheadOfPool,
    /// A sum or product left the range of `u128`.
    Overflow,
    /// A deposit arrived while no shares exist.
    ZeroSupply,
    /// A reward-token deposit came from another token contract.
    InvalidRewardToken,
    /// A reward-token deposit carried an unknown message.
    InvalidMessage,
    /// A claim did not attach exactly one unit of the native currency.
    RequiresOneYocto,
    /// A storage deposit below the amount that registration costs.
    InsufficientStorageDeposit,
    /// The account is not registered.
    NotRegistered,
    /// A storage withdrawal asked for more than is available, which is
    /// always nothing.
    StorageWithdrawTooLarge,
    /// Forced unregistration is not offered.
    ForceUnsupported,
    /// The account still has rewards to claim.
    RewardsPending,
    /// The account still holds shares.
    SharesHeld,
}

} // verus!
