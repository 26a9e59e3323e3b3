use vstd::prelude::*;

verus! {

/// Requested parameters for one new lock tier.
#[derive(Clone, Copy, Debug, PartialEq, Eq, Structural)]
pub struct LockConfig {
    /// Length of the staking term, in time units. Must be positive.
    pub duration: u64,
    /// Mandatory wait after a cycle ends before the same (owner, asset) pair
    /// may restake.
    pub cooldown: u64,
    /// Multiplier on the base reward rate, in basis points (10000 = 1.0x).
    pub bonus_factor: u32,
}

/// One immutable staking tier of a farm. Tiers are only ever appended, never
/// mutated or deleted, so receipts that reference one by id stay
/// interpretable indefinitely.
#[derive(Clone, Copy, Debug, PartialEq, Eq, Structural)]
pub struct LockTier {
    /// Stable id: the tier's index in the farm's registry.
    pub id: u64,
    pub duration: u64,
    pub cooldown: u64,
    pub bonus_factor: u32,
}

impl LockConfig {
    /// A tier offering must run for at least one time unit.
    pub open spec fn valid(self) -> bool {
        self.duration > 0
    }
}

} // verus!
