use vstd::prelude::*;

use crate::error::StakingError;
use crate::farm::Farm;
use crate::farmer::{aggregate_consistent, running_rate, running_rate_sum, Farmer};
use crate::ops::{claim_check, unstake_check};
use crate::receipt::{
    accrual_cutoff, accrued_reward, accrued_time, claim_delta, full_term_reservation,
    unstake_release, ReceiptState, StakeReceipt,
};

verus! {

/// Replacing one receipt moves the recomputed sum by exactly the change in
/// that receipt's contribution.
proof fn lemma_running_rate_sum_update(rs: Seq<StakeReceipt>, i: int, r: StakeReceipt)
    requires
        0 <= i < rs.len(),
    ensures
        running_rate_sum(rs.update(i, r)) == running_rate_sum(rs) - running_rate(rs[i])
            + running_rate(r),
    decreases rs.len(),
{
    let rs2 = rs.update(i, r);
    assert(rs2.drop_first() == if i == 0 {
        rs.drop_first()
    } else {
        rs.drop_first().update(i - 1, r)
    });
    if i > 0 {
        lemma_running_rate_sum_update(rs.drop_first(), i - 1, r);
    }
}

/// Law: a successful stake keeps the participant aggregate equal to the sum
/// of the running receipts' rates. A stake only succeeds on a receipt that is
/// not running, replaces it with a running one, and adds exactly the new
/// cycle's rate to the aggregate.
pub proof fn lemma_stake_preserves_aggregate(
    rs: Seq<StakeReceipt>,
    i: int,
    new_receipt: StakeReceipt,
    farmer: Farmer,
    farmer_after: Farmer,
)
    requires
        aggregate_consistent(farmer, rs),
        0 <= i < rs.len(),
        !(rs[i].state is Running),
        new_receipt.state is Running,
        farmer_after.total_reward_rate == farmer.total_reward_rate + new_receipt.reward_rate,
    ensures
        aggregate_consistent(farmer_after, rs.update(i, new_receipt)),
{
    lemma_running_rate_sum_update(rs, i, new_receipt);
}

/// Law: a successful unstake keeps the participant aggregate equal to the sum
/// of the running receipts' rates. An unstake only succeeds on a running
/// receipt, marks it ended, and subtracts exactly that cycle's rate from the
/// aggregate.
pub proof fn lemma_unstake_preserves_aggregate(
    rs: Seq<StakeReceipt>,
    i: int,
    end_ts: u64,
    farmer: Farmer,
    farmer_after: Farmer,
)
    requires
        aggregate_consistent(farmer, rs),
        0 <= i < rs.len(),
        rs[i].state is Running,
        farmer_after.total_reward_rate == farmer.total_reward_rate - rs[i].reward_rate,
    ensures
        aggregate_consistent(
            farmer_after,
            rs.update(i, StakeReceipt { state: ReceiptState::Ended(end_ts), ..rs[i] }),
        ),
{
    lemma_running_rate_sum_update(
        rs,
        i,
        StakeReceipt { state: ReceiptState::Ended(end_ts), ..rs[i] },
    );
}

/// Law: a cycle never accrues more than its full-term reservation, so
/// cumulative claims on one cycle are capped by what was reserved for it at
/// stake time.
pub proof fn lemma_accrual_capped_by_reservation(r: StakeReceipt, duration: u64, now: u64)
    ensures
        accrued_reward(r, duration, now) <= full_term_reservation(r.reward_rate, duration),
        0 <= accrued_reward(r, duration, now),
{
    let at = accrued_time(r, duration, now);
    assert(0 <= at <= duration);
    assert(r.reward_rate * at <= r.reward_rate * duration && 0 <= r.reward_rate * at)
        by (nonlinear_arith)
        requires
            0 <= at <= duration,
            0 <= r.reward_rate,
    ;
}

/// Law: a claim never pays twice for the same interval. Immediately after a
/// successful claim at `now` the receipt carries `claimed_amount` equal to
/// everything accrued by `now` — exactly the state a successful claim leaves
/// behind — so a second claim with no elapsed time finds a zero delta and
/// fails with `NothingToClaim`, paying nothing and moving nothing in the
/// pool.
pub proof fn lemma_claim_no_double_pay(farm: Farm, farmer: Farmer, r: StakeReceipt, now: u64)
    requires
        !(r.state is Uninitialized),
        r.farmer_id == farmer.owner_id,
        r.lock_id < farm.locks@.len(),
        accrual_cutoff(r, now) >= r.start_ts,
        r.claimed_amount == accrued_reward(r, farm.locks@[r.lock_id as int].duration, now),
    ensures
        claim_delta(r, farm.locks@[r.lock_id as int].duration, now) == 0,
        claim_check(farm, farmer, r, now) == Err::<u64, StakingError>(
            StakingError::NothingToClaim,
        ),
{
}

/// Law: a stake followed at once by an unstake is a round trip. A cycle that
/// ends at the instant it started has accrued nothing, so unstaking is
/// allowed and releases exactly the `rate * duration` the stake reserved:
/// the pool's reserved total and the participant aggregate return to their
/// pre-stake values. The hypotheses are the state a successful stake at `now`
/// leaves behind: a running receipt starting at `now` whose full-term
/// reservation sits in the pool and whose rate counts in the aggregate.
pub proof fn lemma_stake_unstake_round_trip(farm: Farm, farmer: Farmer, r: StakeReceipt, now: u64)
    requires
        r.state is Running,
        r.start_ts == now,
        r.farmer_id == farmer.owner_id,
        r.lock_id < farm.locks@.len(),
        full_term_reservation(r.reward_rate, farm.locks@[r.lock_id as int].duration)
            <= farm.reward.reserved,
        r.reward_rate <= farmer.total_reward_rate,
    ensures
        unstake_release(r, farm.locks@[r.lock_id as int].duration, now) == full_term_reservation(
            r.reward_rate,
            farm.locks@[r.lock_id as int].duration,
        ),
        unstake_check(farm, farmer, r, now) == Ok::<u64, StakingError>(
            full_term_reservation(r.reward_rate, farm.locks@[r.lock_id as int].duration) as u64,
        ),
{
    let duration = farm.locks@[r.lock_id as int].duration;
    assert(accrued_time(r, duration, now) == 0);
}

} // verus!
