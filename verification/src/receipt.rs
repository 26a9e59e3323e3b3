use vstd::prelude::*;

verus! {

/// Where a receipt stands in its staking lifecycle. The explicit
/// `Uninitialized` tag keeps "never staked" distinct from "staked and ended".
#[derive(Clone, Copy, Debug, PartialEq, Eq, Structural)]
pub enum ReceiptState {
    /// The (owner, asset) pair has never staked.
    Uninitialized,
    /// A cycle is active: reward accrues and the full-term reward is reserved
    /// in the pool.
    Running,
    /// The last cycle ended at the carried timestamp; the tier's cooldown
    /// runs from it.
    Ended(u64),
}

/// Per (owner, asset) record of one staking cycle's terms and progress.
/// A receipt is created once and reused — never deleted — across cycles.
#[derive(Clone, Copy, Debug, PartialEq, Eq, Structural)]
pub struct StakeReceipt {
    /// Owner of the participant record this receipt belongs to.
    pub farmer_id: u64,
    /// The staked asset.
    pub asset_id: u64,
    /// The lock tier the current (or last) cycle was staked under.
    pub lock_id: u64,
    /// Locked asset units.
    pub amount: u64,
    /// When the current (or last) cycle started.
    pub start_ts: u64,
    pub state: ReceiptState,
    /// Reward units per time unit, fixed for the lifetime of one cycle.
    pub reward_rate: u64,
    /// Reward already paid out for the current (or last) cycle.
    pub claimed_amount: u64,
}

impl StakeReceipt {
    pub open spec fn spec_is_running(&self) -> bool {
        self.state is Running
    }

    /// Whether a cycle is currently active on this receipt.
    #[verifier::when_used_as_spec(spec_is_running)]
    pub fn is_running(&self) -> (b: bool)
        ensures
            b == self.spec_is_running(),
    {
        match self.state {
            ReceiptState::Running => true,
            _ => false,
        }
    }

    /// The record a fresh (owner, asset) pair starts from, before any stake.
    pub fn uninitialized(farmer_id: u64, asset_id: u64) -> (r: StakeReceipt)
        ensures
            r == (StakeReceipt {
                farmer_id,
                asset_id,
                lock_id: 0,
                amount: 0,
                start_ts: 0,
                state: ReceiptState::Uninitialized,
                reward_rate: 0,
                claimed_amount: 0,
            }),
    {
        StakeReceipt {
            farmer_id,
            asset_id,
            lock_id: 0,
            amount: 0,
            start_ts: 0,
            state: ReceiptState::Uninitialized,
            reward_rate: 0,
            claimed_amount: 0,
        }
    }

    /// A running receipt for a cycle that starts at `now`, with nothing
    /// claimed yet.
    pub fn new(
        farmer_id: u64,
        asset_id: u64,
        lock_id: u64,
        now: u64,
        amount: u64,
        reward_rate: u64,
    ) -> (r: StakeReceipt)
        ensures
            r == (StakeReceipt {
                farmer_id,
                asset_id,
                lock_id,
                amount,
                start_ts: now,
                state: ReceiptState::Running,
                reward_rate,
                claimed_amount: 0,
            }),
    {
        StakeReceipt {
            farmer_id,
            asset_id,
            lock_id,
            amount,
            start_ts: now,
            state: ReceiptState::Running,
            reward_rate,
            claimed_amount: 0,
        }
    }
}

/// The timestamp up to which the receipt's cycle accrues reward, as of `now`:
/// a running cycle accrues until `now`, an ended one until the earlier of
/// `now` and its end. An uninitialized receipt accrues nothing.
pub open spec fn accrual_cutoff(r: StakeReceipt, now: u64) -> int {
    match r.state {
        ReceiptState::Uninitialized => r.start_ts as int,
        ReceiptState::Running => now as int,
        ReceiptState::Ended(e) => if now <= e {
            now as int
        } else {
            e as int
        },
    }
}

/// How many locked time units have accrued reward by `now`: the time from
/// cycle start to the accrual cutoff, capped at the tier's duration so that a
/// cycle never accrues past its full term.
pub open spec fn accrued_time(r: StakeReceipt, duration: u64, now: u64) -> int {
    let elapsed = accrual_cutoff(r, now) - r.start_ts;
    if elapsed <= 0 {
        0
    } else if elapsed >= duration {
        duration as int
    } else {
        elapsed
    }
}

/// Total reward the cycle has accrued by `now`, claimed or not.
pub open spec fn accrued_reward(r: StakeReceipt, duration: u64, now: u64) -> int {
    r.reward_rate * accrued_time(r, duration, now)
}

/// What a claim at `now` pays: the reward newly accrued since the last claim.
pub open spec fn claim_delta(r: StakeReceipt, duration: u64, now: u64) -> int {
    accrued_reward(r, duration, now) - r.claimed_amount
}

/// The reward reserved in the pool for a full term at stake time.
pub open spec fn full_term_reservation(rate: u64, duration: u64) -> int {
    rate * duration
}

/// The unaccrued remainder of the reservation, returned to the pool when a
/// running cycle is unstaked at `now`.
pub open spec fn unstake_release(r: StakeReceipt, duration: u64, now: u64) -> int {
    full_term_reservation(r.reward_rate, duration) - accrued_reward(r, duration, now)
}

} // verus!
