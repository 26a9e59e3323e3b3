use vstd::prelude::*;

verus! {

/// Typed failures of the staking engine.
///
/// Every operation either completes in full or returns one of these with no
/// state change visible to the caller.
#[derive(Clone, Copy, Debug, PartialEq, Eq, Structural)]
pub enum StakingError {
    /// The asset's collection has no whitelist entry in this farm.
    NotWhitelisted,
    /// The collection already has a whitelist entry; entries are not mutated
    /// in place.
    AlreadyWhitelisted,
    /// A stake was attempted while the receipt's current cycle is still
    /// running.
    GemStillStaked,
    /// An unstake was attempted on a receipt that is not running.
    GemNotStaked,
    /// A restake was attempted before the previous cycle's cooldown elapsed.
    CooldownNotElapsed,
    /// A reservation would exceed the pool's funded-minus-claimed balance.
    InsufficientRewardPool,
    /// A checked arithmetic step overflowed or underflowed.
    ArithmeticOverflow,
    /// The accrued-but-unclaimed reward is zero.
    NothingToClaim,
    /// A lock tier was configured with a non-positive duration.
    InvalidLockConfig,
    /// The named lock tier does not exist in this farm.
    LockNotFound,
    /// The caller does not hold the role the operation demands.
    Unauthorized,
    /// The receipt does not belong to the caller's participant record.
    WrongFarmer,
    /// The receipt was created for a different asset.
    WrongAsset,
    /// The supplied timestamp precedes one already recorded for the receipt;
    /// the clock must be non-decreasing, so the operation fails closed.
    InvalidTimestamp,
}

} // verus!
