use vstd::prelude::*;

use crate::error::StakingError;

verus! {

/// The shared reward budget of one staking program instance.
///
/// `funded` is everything ever paid into the pool, `reserved` is what running
/// stake cycles have earmarked for their full term, and `claimed` is what has
/// already been paid out. The pool is sound exactly when
/// `reserved + claimed <= funded`: it never promises or pays more reward than
/// it was funded with.
#[derive(Clone, Copy, Debug, PartialEq, Eq, Structural)]
pub struct RewardPool {
    pub funded: u64,
    pub reserved: u64,
    pub claimed: u64,
}

impl RewardPool {
    /// Ledger soundness: outstanding promises plus paid-out reward never
    /// exceed what the pool was funded with.
    pub open spec fn wf(self) -> bool {
        self.reserved + self.claimed <= self.funded
    }

    /// What is still free to be reserved.
    pub open spec fn available(self) -> int {
        self.funded - self.reserved - self.claimed
    }

    /// An empty, unfunded pool.
    pub fn new() -> (p: RewardPool)
        ensures
            p == (RewardPool { funded: 0, reserved: 0, claimed: 0 }),
            p.wf(),
    {
        RewardPool { funded: 0, reserved: 0, claimed: 0 }
    }

    /// Record a deposit into the pool. The actual asset transfer into custody
    /// is the asset-transfer collaborator's job; this only moves the ledger,
    /// and only when the sum still fits.
    pub fn fund(&mut self, amount: u64) -> (r: Result<(), StakingError>)
        requires
            old(self).wf(),
        ensures
            final(self).wf(),
            r is Ok <==> old(self).funded + amount <= u64::MAX,
            r is Ok ==> *final(self) == (RewardPool {
                funded: (old(self).funded + amount) as u64,
                ..*old(self)
            }),
            r is Err ==> *final(self) == *old(self)
                && r == Err::<(), StakingError>(StakingError::ArithmeticOverflow),
    {
        match self.funded.checked_add(amount) {
            Some(f) => {
                self.funded = f;
                Ok(())
            }
            None => Err(StakingError::ArithmeticOverflow),
        }
    }

    /// Earmark `amount` of the pool for a running cycle. Succeeds and
    /// increases `reserved` exactly when the pool still has that much
    /// unpromised balance; otherwise nothing changes.
    pub fn try_reserve(&mut self, amount: u64) -> (r: Result<(), StakingError>)
        requires
            old(self).wf(),
        ensures
            final(self).wf(),
            r is Ok <==> amount <= old(self).available(),
            r is Ok ==> *final(self) == (RewardPool {
                reserved: (old(self).reserved + amount) as u64,
                ..*old(self)
            }),
            r is Err ==> *final(self) == *old(self)
                && r == Err::<(), StakingError>(StakingError::InsufficientRewardPool),
    {
        let free = self.funded - self.reserved - self.claimed;
        if amount <= free {
            self.reserved = self.reserved + amount;
            Ok(())
        } else {
            Err(StakingError::InsufficientRewardPool)
        }
    }

    /// Return an unused reservation to the pool. Fails closed (and changes
    /// nothing) if more is returned than is currently reserved.
    pub fn release(&mut self, amount: u64) -> (r: Result<(), StakingError>)
        requires
            old(self).wf(),
        ensures
            final(self).wf(),
            r is Ok <==> amount <= old(self).reserved,
            r is Ok ==> *final(self) == (RewardPool {
                reserved: (old(self).reserved - amount) as u64,
                ..*old(self)
            }),
            r is Err ==> *final(self) == *old(self)
                && r == Err::<(), StakingError>(StakingError::ArithmeticOverflow),
    {
        if amount <= self.reserved {
            self.reserved = self.reserved - amount;
            Ok(())
        } else {
            Err(StakingError::ArithmeticOverflow)
        }
    }

    /// Pay out accrued reward: move `amount` from `reserved` to `claimed`
    /// atomically. Fails closed (and changes nothing) if the amount exceeds
    /// what is reserved.
    pub fn record_claim(&mut self, amount: u64) -> (r: Result<(), StakingError>)
        requires
            old(self).wf(),
        ensures
            final(self).wf(),
            r is Ok <==> amount <= old(self).reserved,
            r is Ok ==> *final(self) == (RewardPool {
                reserved: (old(self).reserved - amount) as u64,
                claimed: (old(self).claimed + amount) as u64,
                ..*old(self)
            }),
            r is Err ==> *final(self) == *old(self)
                && r == Err::<(), StakingError>(StakingError::ArithmeticOverflow),
    {
        if amount <= self.reserved {
            self.reserved = self.reserved - amount;
            self.claimed = self.claimed + amount;
            Ok(())
        } else {
            Err(StakingError::ArithmeticOverflow)
        }
    }
}

} // verus!
