use vstd::prelude::*;

use crate::error::StakingError;
use crate::receipt::StakeReceipt;

verus! {

/// What one receipt contributes to its owner's aggregate rate: its rate while
/// running, nothing otherwise.
pub open spec fn running_rate(r: StakeReceipt) -> int {
    if r.state is Running {
        r.reward_rate as int
    } else {
        0
    }
}

/// The rate a participant's receipts accrue at, recomputed from scratch.
pub open spec fn running_rate_sum(rs: Seq<StakeReceipt>) -> int
    decreases rs.len(),
{
    if rs.len() == 0 {
        0
    } else {
        running_rate(rs[0]) + running_rate_sum(rs.drop_first())
    }
}

/// The participant aggregate equals the sum of the reward rates of that
/// participant's running receipts.
pub open spec fn aggregate_consistent(farmer: Farmer, rs: Seq<StakeReceipt>) -> bool {
    farmer.total_reward_rate == running_rate_sum(rs)
}

/// Recompute from scratch what `total_reward_rate` maintains incrementally:
/// the sum of the reward rates of the running receipts among `rs`.
pub fn recompute_rate_sum(rs: &Vec<StakeReceipt>) -> (r: Result<u64, StakingError>)
    ensures
        r is Ok <==> running_rate_sum(rs@) <= u64::MAX,
        r matches Ok(v) ==> v == running_rate_sum(rs@),
        r is Err ==> r == Err::<u64, StakingError>(StakingError::ArithmeticOverflow),
{
    let n = rs.len();
    let mut total: u64 = 0;
    let mut i: usize = 0;
    proof {
        lemma_running_rate_sum_nonneg(rs@.skip(0));
        assert(rs@.skip(0) == rs@);
    }
    while i < n
        invariant
            0 <= i <= n,
            n == rs@.len(),
            total + running_rate_sum(rs@.skip(i as int)) == running_rate_sum(rs@),
            0 <= running_rate_sum(rs@.skip(i as int)),
        decreases n - i,
    {
        proof {
            assert(rs@.skip(i as int).drop_first() =~= rs@.skip(i + 1));
            assert(rs@.skip(i as int)[0] == rs@[i as int]);
            lemma_running_rate_sum_nonneg(rs@.skip(i + 1));
        }
        let contribution = if rs[i].is_running() {
            rs[i].reward_rate
        } else {
            0
        };
        total = match total.checked_add(contribution) {
            Some(t) => t,
            None => {
                return Err(StakingError::ArithmeticOverflow);
            }
        };
        i = i + 1;
    }
    proof {
        assert(rs@.skip(n as int) =~= Seq::<StakeReceipt>::empty());
    }
    Ok(total)
}

/// A sum of per-receipt contributions, each non-negative, is non-negative.
proof fn lemma_running_rate_sum_nonneg(rs: Seq<StakeReceipt>)
    ensures
        0 <= running_rate_sum(rs),
    decreases rs.len(),
{
    if rs.len() > 0 {
        lemma_running_rate_sum_nonneg(rs.drop_first());
    }
}

/// Per-owner participant record: a running total of the reward rate of all of
/// that owner's currently-running stake cycles, maintained incrementally as
/// cycles start and end.
#[derive(Clone, Copy, Debug, PartialEq, Eq, Structural)]
pub struct Farmer {
    pub owner_id: u64,
    pub total_reward_rate: u64,
}

/// A fresh participant record for `owner_id`, with no running cycles.
pub fn initialize_farmer(owner_id: u64) -> (f: Farmer)
    ensures
        f == (Farmer { owner_id, total_reward_rate: 0 }),
{
    Farmer { owner_id, total_reward_rate: 0 }
}

impl Farmer {
    /// Add a newly started cycle's rate to the aggregate; fails closed on
    /// overflow with no change.
    pub fn increase_reward_rate(&mut self, rate: u64) -> (r: Result<(), StakingError>)
        ensures
            r is Ok <==> old(self).total_reward_rate + rate <= u64::MAX,
            r is Ok ==> *final(self) == (Farmer {
                total_reward_rate: (old(self).total_reward_rate + rate) as u64,
                ..*old(self)
            }),
            r is Err ==> *final(self) == *old(self)
                && r == Err::<(), StakingError>(StakingError::ArithmeticOverflow),
    {
        match self.total_reward_rate.checked_add(rate) {
            Some(t) => {
                self.total_reward_rate = t;
                Ok(())
            }
            None => Err(StakingError::ArithmeticOverflow),
        }
    }

    /// Remove an ended cycle's rate from the aggregate; fails closed on
    /// underflow with no change.
    pub fn decrease_reward_rate(&mut self, rate: u64) -> (r: Result<(), StakingError>)
        ensures
            r is Ok <==> rate <= old(self).total_reward_rate,
            r is Ok ==> *final(self) == (Farmer {
                total_reward_rate: (old(self).total_reward_rate - rate) as u64,
                ..*old(self)
            }),
            r is Err ==> *final(self) == *old(self)
                && r == Err::<(), StakingError>(StakingError::ArithmeticOverflow),
    {
        match self.total_reward_rate.checked_sub(rate) {
            Some(t) => {
                self.total_reward_rate = t;
                Ok(())
            }
            None => Err(StakingError::ArithmeticOverflow),
        }
    }
}

} // verus!
