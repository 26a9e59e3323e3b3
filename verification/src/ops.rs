use vstd::prelude::*;

use crate::error::StakingError;
use crate::farm::{same_but_reward, Farm};
use crate::farmer::Farmer;
use crate::pool::RewardPool;
use crate::receipt::{
    accrual_cutoff, accrued_reward, accrued_time, claim_delta, unstake_release, ReceiptState,
    StakeReceipt,
};
use crate::whitelist::{lookup_rate, wl_rate};

verus! {

/// The reward rate of one cycle: `amount * base_rate`, scaled by the tier's
/// bonus factor in basis points. Integer division truncates toward zero, so
/// fractional reward below the smallest unit is forfeited by design.
pub open spec fn spec_reward_rate(amount: u64, base_rate: u64, bonus_factor: u32) -> int {
    (amount * base_rate * bonus_factor) / 10000
}

/// Both checked multiplications of the rate computation stay within `u64`.
pub open spec fn reward_rate_fits(amount: u64, base_rate: u64, bonus_factor: u32) -> bool {
    amount * base_rate <= u64::MAX && amount * base_rate * bonus_factor <= u64::MAX
}

/// Compute a cycle's reward rate. Pure and deterministic: the same inputs
/// always give the same rate. Fails with `ArithmeticOverflow` exactly when a
/// checked multiplication does not fit.
pub fn compute_reward_rate(amount: u64, base_rate: u64, bonus_factor: u32) -> (r: Result<
    u64,
    StakingError,
>)
    ensures
        r is Ok <==> reward_rate_fits(amount, base_rate, bonus_factor),
        r matches Ok(v) ==> v == spec_reward_rate(amount, base_rate, bonus_factor),
        r is Err ==> r == Err::<u64, StakingError>(StakingError::ArithmeticOverflow),
{
    let gross = match amount.checked_mul(base_rate) {
        Some(g) => g,
        None => {
            return Err(StakingError::ArithmeticOverflow);
        }
    };
    let scaled = match gross.checked_mul(bonus_factor as u64) {
        Some(s) => s,
        None => {
            return Err(StakingError::ArithmeticOverflow);
        }
    };
    Ok(scaled / 10000)
}

/// Whether (and why not) a stake of `amount` under tier `lock_id` may start a
/// new cycle on `receipt` at time `now`, and the cycle's reward rate if it
/// may. Checks run in this order: a running receipt is a conflict whatever
/// else holds; then whitelist membership, tier existence, receipt ownership,
/// cooldown, checked arithmetic, and pool capacity.
pub open spec fn stake_check(
    farm: Farm,
    farmer: Farmer,
    receipt: StakeReceipt,
    collection_id: u64,
    asset_id: u64,
    lock_id: u64,
    amount: u64,
    now: u64,
) -> Result<u64, StakingError> {
    if receipt.state is Running {
        Err(StakingError::GemStillStaked)
    } else {
        match wl_rate(farm.whitelist@, collection_id) {
            None => Err(StakingError::NotWhitelisted),
            Some(base_rate) => {
                if lock_id >= farm.locks@.len() {
                    Err(StakingError::LockNotFound)
                } else {
                    let tier = farm.locks@[lock_id as int];
                    match restake_gate(receipt, farmer, asset_id, tier.cooldown, now) {
                        Some(e) => Err(e),
                        None => {
                            if !reward_rate_fits(amount, base_rate, tier.bonus_factor) {
                                Err(StakingError::ArithmeticOverflow)
                            } else {
                                let rate = spec_reward_rate(amount, base_rate, tier.bonus_factor);
                                if rate * tier.duration > u64::MAX {
                                    Err(StakingError::ArithmeticOverflow)
                                } else if rate * tier.duration > farm.reward.available() {
                                    Err(StakingError::InsufficientRewardPool)
                                } else if farmer.total_reward_rate + rate > u64::MAX {
                                    Err(StakingError::ArithmeticOverflow)
                                } else {
                                    Ok(rate as u64)
                                }
                            }
                        }
                    }
                }
            }
        }
    }
}

/// The receipt-reuse gate of a stake: an uninitialized receipt is free; an
/// ended one must belong to the calling participant, name the same asset, and
/// have finished its cooldown.
pub open spec fn restake_gate(
    receipt: StakeReceipt,
    farmer: Farmer,
    asset_id: u64,
    cooldown: u64,
    now: u64,
) -> Option<StakingError> {
    match receipt.state {
        ReceiptState::Uninitialized => None,
        ReceiptState::Running => Some(StakingError::GemStillStaked),
        ReceiptState::Ended(e) => if receipt.farmer_id != farmer.owner_id {
            Some(StakingError::WrongFarmer)
        } else if receipt.asset_id != asset_id {
            Some(StakingError::WrongAsset)
        } else if now < e + cooldown {
            Some(StakingError::CooldownNotElapsed)
        } else {
            None
        },
    }
}

/// The reward rate a stake would fix for its cycle, before any overflow or
/// capacity concern: zero if the collection is not whitelisted.
pub open spec fn stake_rate(farm: Farm, collection_id: u64, lock_id: u64, amount: u64) -> int {
    match wl_rate(farm.whitelist@, collection_id) {
        Some(base_rate) => spec_reward_rate(
            amount,
            base_rate,
            farm.locks@[lock_id as int].bonus_factor,
        ),
        None => 0,
    }
}

/// What a successful stake asks of the collaborators and reports back.
#[derive(Clone, Copy, Debug, PartialEq, Eq, Structural)]
pub struct StakeOutcome {
    /// The rate fixed for the new cycle.
    pub reward_rate: u64,
    /// The full-term reward newly reserved in the pool.
    pub reserved: u64,
    /// Asset units the transfer collaborator must move into custody; zero
    /// means no transfer is performed.
    pub lock_amount: u64,
}

/// Start (or restart) a staking cycle on `receipt` at time `now`.
///
/// `collection_id` is the asset's collection as authenticated by the
/// execution environment: verifying the membership proof is the
/// environment's job, resolving the collection to a whitelisted base rate is
/// this function's.
///
/// On success the receipt runs from `now` at the freshly computed rate, the
/// pool reserves the full-term reward `rate * duration`, and the
/// participant's aggregate rate grows by the rate. On any failure nothing
/// changes and the error names the first check that failed; in particular a
/// receipt whose cycle is still running always fails with `GemStillStaked`.
/// A zero `amount` yields a zero rate and a zero reservation, and asks for no
/// transfer.
pub fn stake(
    farm: &mut Farm,
    farmer: &mut Farmer,
    receipt: &mut StakeReceipt,
    collection_id: u64,
    asset_id: u64,
    lock_id: u64,
    amount: u64,
    now: u64,
) -> (r: Result<StakeOutcome, StakingError>)
    requires
        old(farm).wf(),
    ensures
        final(farm).wf(),
        r is Ok <==> stake_check(
            *old(farm),
            *old(farmer),
            *old(receipt),
            collection_id,
            asset_id,
            lock_id,
            amount,
            now,
        ) is Ok,
        r matches Err(e) ==> *final(farm) == *old(farm) && *final(farmer) == *old(farmer)
            && *final(receipt) == *old(receipt) && Err::<u64, StakingError>(e)
            == stake_check(
            *old(farm),
            *old(farmer),
            *old(receipt),
            collection_id,
            asset_id,
            lock_id,
            amount,
            now,
        ),
        old(receipt).state is Running ==> r == Err::<StakeOutcome, StakingError>(
            StakingError::GemStillStaked,
        ),
        r matches Ok(out) ==> ({
            let tier = old(farm).locks@[lock_id as int];
            let rate = stake_rate(*old(farm), collection_id, lock_id, amount);
            &&& out.reward_rate == rate
            &&& out.reserved == rate * tier.duration
            &&& out.lock_amount == amount
            &&& *final(receipt) == (StakeReceipt {
                farmer_id: old(farmer).owner_id,
                asset_id,
                lock_id,
                amount,
                start_ts: now,
                state: ReceiptState::Running,
                reward_rate: out.reward_rate,
                claimed_amount: 0,
            })
            &&& final(farm).reward == (RewardPool {
                reserved: (old(farm).reward.reserved + out.reserved) as u64,
                ..old(farm).reward
            })
            &&& same_but_reward(*old(farm), *final(farm))
            &&& *final(farmer) == (Farmer {
                total_reward_rate: (old(farmer).total_reward_rate + rate) as u64,
                ..*old(farmer)
            })
        }),
{
    if receipt.is_running() {
        return Err(StakingError::GemStillStaked);
    }
    let base_rate = match lookup_rate(&farm.whitelist, collection_id) {
        None => {
            return Err(StakingError::NotWhitelisted);
        }
        Some(b) => b,
    };
    if lock_id >= farm.locks.len() as u64 {
        return Err(StakingError::LockNotFound);
    }
    let tier = farm.locks[lock_id as usize];
    match receipt.state {
        ReceiptState::Ended(end_ts) => {
            if receipt.farmer_id != farmer.owner_id {
                return Err(StakingError::WrongFarmer);
            }
            if receipt.asset_id != asset_id {
                return Err(StakingError::WrongAsset);
            }
            if now < end_ts || now - end_ts < tier.cooldown {
                return Err(StakingError::CooldownNotElapsed);
            }
        }
        _ => {}
    }
    let rate = match compute_reward_rate(amount, base_rate, tier.bonus_factor) {
        Ok(v) => v,
        Err(e) => {
            return Err(e);
        }
    };
    let reserved_amount = match rate.checked_mul(tier.duration) {
        Some(v) => v,
        None => {
            return Err(StakingError::ArithmeticOverflow);
        }
    };
    let free = farm.reward.funded - farm.reward.reserved - farm.reward.claimed;
    if reserved_amount > free {
        return Err(StakingError::InsufficientRewardPool);
    }
    if farmer.total_reward_rate > u64::MAX - rate {
        return Err(StakingError::ArithmeticOverflow);
    }
    match farm.reward.try_reserve(reserved_amount) {
        Err(e) => {
            return Err(e);
        }
        Ok(()) => {}
    }
    match farmer.increase_reward_rate(rate) {
        Err(e) => {
            return Err(e);
        }
        Ok(()) => {}
    }
    *receipt = StakeReceipt::new(farmer.owner_id, asset_id, lock_id, now, amount, rate);
    Ok(StakeOutcome { reward_rate: rate, reserved: reserved_amount, lock_amount: amount })
}

/// Whether (and why not) the running cycle on `receipt` may end at `now`, and
/// the unused reservation that ending it returns to the pool.
pub open spec fn unstake_check(farm: Farm, farmer: Farmer, receipt: StakeReceipt, now: u64) -> Result<
    u64,
    StakingError,
> {
    if !(receipt.state is Running) {
        Err(StakingError::GemNotStaked)
    } else if receipt.farmer_id != farmer.owner_id {
        Err(StakingError::WrongFarmer)
    } else if receipt.lock_id >= farm.locks@.len() {
        Err(StakingError::LockNotFound)
    } else if now < receipt.start_ts {
        Err(StakingError::InvalidTimestamp)
    } else {
        let tier = farm.locks@[receipt.lock_id as int];
        let release = unstake_release(receipt, tier.duration, now);
        if release > u64::MAX {
            Err(StakingError::ArithmeticOverflow)
        } else if release > farm.reward.reserved {
            Err(StakingError::ArithmeticOverflow)
        } else if receipt.reward_rate > farmer.total_reward_rate {
            Err(StakingError::ArithmeticOverflow)
        } else {
            Ok(release as u64)
        }
    }
}

/// End the running cycle on `receipt` at time `now`.
///
/// On success the receipt is marked ended at `now`, the unaccrued remainder
/// of its full-term reservation returns to the pool, the participant's
/// aggregate rate drops by the cycle's rate, and the locked asset amount is
/// reported for the transfer collaborator to release. Reward accrued but not
/// yet claimed stays reserved for a later claim. On any failure nothing
/// changes.
pub fn unstake(farm: &mut Farm, farmer: &mut Farmer, receipt: &mut StakeReceipt, now: u64) -> (r:
    Result<u64, StakingError>)
    requires
        old(farm).wf(),
    ensures
        final(farm).wf(),
        r is Ok <==> unstake_check(*old(farm), *old(farmer), *old(receipt), now) is Ok,
        r matches Err(e) ==> *final(farm) == *old(farm) && *final(farmer) == *old(farmer)
            && *final(receipt) == *old(receipt) && Err::<u64, StakingError>(e) == unstake_check(
            *old(farm),
            *old(farmer),
            *old(receipt),
            now,
        ),
        r matches Ok(released_asset) ==> ({
            let tier = old(farm).locks@[old(receipt).lock_id as int];
            let back = unstake_release(*old(receipt), tier.duration, now);
            &&& released_asset == old(receipt).amount
            &&& *final(receipt) == (StakeReceipt {
                state: ReceiptState::Ended(now),
                ..*old(receipt)
            })
            &&& final(farm).reward == (RewardPool {
                reserved: (old(farm).reward.reserved - back) as u64,
                ..old(farm).reward
            })
            &&& same_but_reward(*old(farm), *final(farm))
            &&& *final(farmer) == (Farmer {
                total_reward_rate: (old(farmer).total_reward_rate
                    - old(receipt).reward_rate) as u64,
                ..*old(farmer)
            })
        }),
{
    if !receipt.is_running() {
        return Err(StakingError::GemNotStaked);
    }
    if receipt.farmer_id != farmer.owner_id {
        return Err(StakingError::WrongFarmer);
    }
    if receipt.lock_id >= farm.locks.len() as u64 {
        return Err(StakingError::LockNotFound);
    }
    let tier = farm.locks[receipt.lock_id as usize];
    if now < receipt.start_ts {
        return Err(StakingError::InvalidTimestamp);
    }
    let elapsed = now - receipt.start_ts;
    let at = if elapsed >= tier.duration {
        tier.duration
    } else {
        elapsed
    };
    let remaining = tier.duration - at;
    proof {
        assert(at == accrued_time(*receipt, tier.duration, now));
        assert(receipt.reward_rate * remaining == receipt.reward_rate * tier.duration
            - receipt.reward_rate * at) by (nonlinear_arith)
            requires
                remaining == tier.duration - at,
        ;
    }
    let release_amount = match receipt.reward_rate.checked_mul(remaining) {
        Some(v) => v,
        None => {
            return Err(StakingError::ArithmeticOverflow);
        }
    };
    if release_amount > farm.reward.reserved {
        return Err(StakingError::ArithmeticOverflow);
    }
    if receipt.reward_rate > farmer.total_reward_rate {
        return Err(StakingError::ArithmeticOverflow);
    }
    match farm.reward.release(release_amount) {
        Err(e) => {
            return Err(e);
        }
        Ok(()) => {}
    }
    match farmer.decrease_reward_rate(receipt.reward_rate) {
        Err(e) => {
            return Err(e);
        }
        Ok(()) => {}
    }
    receipt.state = ReceiptState::Ended(now);
    Ok(receipt.amount)
}

/// Whether (and why not) a claim on `receipt` pays at `now`, and the newly
/// accrued amount it pays.
pub open spec fn claim_check(farm: Farm, farmer: Farmer, receipt: StakeReceipt, now: u64) -> Result<
    u64,
    StakingError,
> {
    if receipt.state is Uninitialized {
        Err(StakingError::NothingToClaim)
    } else if receipt.farmer_id != farmer.owner_id {
        Err(StakingError::WrongFarmer)
    } else if receipt.lock_id >= farm.locks@.len() {
        Err(StakingError::LockNotFound)
    } else if accrual_cutoff(receipt, now) < receipt.start_ts {
        Err(StakingError::InvalidTimestamp)
    } else {
        let tier = farm.locks@[receipt.lock_id as int];
        let total = accrued_reward(receipt, tier.duration, now);
        if total > u64::MAX {
            Err(StakingError::ArithmeticOverflow)
        } else if total <= receipt.claimed_amount {
            Err(StakingError::NothingToClaim)
        } else if total - receipt.claimed_amount > farm.reward.reserved {
            Err(StakingError::ArithmeticOverflow)
        } else {
            Ok((total - receipt.claimed_amount) as u64)
        }
    }
}

/// Pay out the reward newly accrued on `receipt` since its last claim,
/// bounded by the accrual cutoff (`now`, or the cycle's end if it already
/// ended) and capped at the cycle's full term, so that cumulative claims on
/// one cycle never exceed its original reservation.
///
/// On success the paid amount moves from `reserved` to `claimed` in the pool
/// and is recorded on the receipt, leaving it with no accrued-but-unclaimed
/// reward as of `now`; the transfer collaborator then pays the participant.
/// Fails with `NothingToClaim` when nothing new has accrued; on any failure
/// nothing changes.
pub fn claim_rewards(farm: &mut Farm, farmer: &Farmer, receipt: &mut StakeReceipt, now: u64) -> (r:
    Result<u64, StakingError>)
    requires
        old(farm).wf(),
    ensures
        final(farm).wf(),
        r is Ok <==> claim_check(*old(farm), *farmer, *old(receipt), now) is Ok,
        r matches Err(e) ==> *final(farm) == *old(farm) && *final(receipt) == *old(receipt)
            && Err::<u64, StakingError>(e) == claim_check(*old(farm), *farmer, *old(receipt), now),
        r matches Ok(paid) ==> ({
            let tier = old(farm).locks@[old(receipt).lock_id as int];
            &&& paid == claim_delta(*old(receipt), tier.duration, now)
            &&& paid > 0
            &&& *final(receipt) == (StakeReceipt {
                claimed_amount: (old(receipt).claimed_amount + paid) as u64,
                ..*old(receipt)
            })
            &&& final(receipt).claimed_amount == accrued_reward(*old(receipt), tier.duration, now)
            &&& final(farm).reward == (RewardPool {
                reserved: (old(farm).reward.reserved - paid) as u64,
                claimed: (old(farm).reward.claimed + paid) as u64,
                ..old(farm).reward
            })
            &&& same_but_reward(*old(farm), *final(farm))
        }),
{
    match receipt.state {
        ReceiptState::Uninitialized => {
            return Err(StakingError::NothingToClaim);
        }
        _ => {}
    }
    if receipt.farmer_id != farmer.owner_id {
        return Err(StakingError::WrongFarmer);
    }
    if receipt.lock_id >= farm.locks.len() as u64 {
        return Err(StakingError::LockNotFound);
    }
    let tier = farm.locks[receipt.lock_id as usize];
    let cutoff = match receipt.state {
        ReceiptState::Running => now,
        ReceiptState::Ended(e) => if now <= e {
            now
        } else {
            e
        },
        ReceiptState::Uninitialized => now,
    };
    if cutoff < receipt.start_ts {
        return Err(StakingError::InvalidTimestamp);
    }
    let elapsed = cutoff - receipt.start_ts;
    let at = if elapsed >= tier.duration {
        tier.duration
    } else {
        elapsed
    };
    proof {
        assert(at == accrued_time(*receipt, tier.duration, now));
    }
    let total = match receipt.reward_rate.checked_mul(at) {
        Some(v) => v,
        None => {
            return Err(StakingError::ArithmeticOverflow);
        }
    };
    if total <= receipt.claimed_amount {
        return Err(StakingError::NothingToClaim);
    }
    let delta = total - receipt.claimed_amount;
    if delta > farm.reward.reserved {
        return Err(StakingError::ArithmeticOverflow);
    }
    match farm.reward.record_claim(delta) {
        Err(e) => {
            return Err(e);
        }
        Ok(()) => {}
    }
    receipt.claimed_amount = total;
    Ok(delta)
}

} // verus!
