use vstd::prelude::*;

use crate::error::StakingError;
use crate::lock::{LockConfig, LockTier};
use crate::pool::RewardPool;
use crate::whitelist::{
    lemma_wl_rate_from_none, lemma_wl_rate_from_push, lemma_wl_rate_from_some, lemma_wl_remove,
    find_entry, wl_contains, wl_rate, wl_unique, CollectionRate,
};

verus! {

/// One staking program instance: its reward budget, its managers, its
/// whitelisted collections and its lock tier registry.
#[derive(Clone, Debug)]
pub struct Farm {
    /// The account that created the farm; the only one that may add managers.
    pub authority: u64,
    /// Accounts holding the manager role for this farm.
    pub managers: Vec<u64>,
    pub whitelist: Vec<CollectionRate>,
    /// Tier registry; a tier's id is its index, so ids are stable forever.
    pub locks: Vec<LockTier>,
    pub reward: RewardPool,
}

/// The tier that lock config `c` creates under id `id`.
pub open spec fn tier_of(c: LockConfig, id: int) -> LockTier {
    LockTier { id: id as u64, duration: c.duration, cooldown: c.cooldown, bonus_factor: c.bonus_factor }
}

impl Farm {
    /// Farm soundness: the pool ledger holds, whitelist entries are
    /// duplicate-free, and every registered tier sits at its id with a
    /// positive duration.
    pub open spec fn wf(self) -> bool {
        &&& self.reward.wf()
        &&& wl_unique(self.whitelist@)
        &&& forall|i: int|
            0 <= i < self.locks@.len() ==> (#[trigger] self.locks@[i]).id == i
        &&& forall|i: int|
            0 <= i < self.locks@.len() ==> (#[trigger] self.locks@[i]).duration > 0
    }

    pub open spec fn is_manager(self, caller: u64) -> bool {
        self.managers@.contains(caller)
    }
}

/// Everything of `b` except the reward pool is as it was in `a`.
pub open spec fn same_but_reward(a: Farm, b: Farm) -> bool {
    &&& b.authority == a.authority
    &&& b.managers@ == a.managers@
    &&& b.whitelist@ == a.whitelist@
    &&& b.locks@ == a.locks@
}

/// A fresh farm under `authority`, which starts as its only manager, with an
/// empty whitelist, no tiers, and an unfunded pool.
pub fn create_farm(authority: u64) -> (f: Farm)
    ensures
        f.wf(),
        f.authority == authority,
        f.managers@ == seq![authority],
        f.whitelist@ == Seq::<CollectionRate>::empty(),
        f.locks@ == Seq::<LockTier>::empty(),
        f.reward == (RewardPool { funded: 0, reserved: 0, claimed: 0 }),
{
    let mut managers: Vec<u64> = Vec::new();
    managers.push(authority);
    proof {
        assert(managers@ == seq![authority]);
    }
    Farm {
        authority,
        managers,
        whitelist: Vec::new(),
        locks: Vec::new(),
        reward: RewardPool::new(),
    }
}

/// Whether `caller` holds the manager role in `v`.
fn has_manager(v: &Vec<u64>, caller: u64) -> (b: bool)
    ensures
        b == v@.contains(caller),
{
    let n = v.len();
    let mut i: usize = 0;
    while i < n
        invariant
            0 <= i <= n,
            n == v@.len(),
            forall|j: int| 0 <= j < i ==> v@[j] != caller,
        decreases n - i,
    {
        if v[i] == caller {
            return true;
        }
        i = i + 1;
    }
    false
}

/// Grant `new_manager` the manager role. Only the farm's authority may do so.
pub fn add_manager(farm: &mut Farm, caller: u64, new_manager: u64) -> (r: Result<
    (),
    StakingError,
>)
    requires
        old(farm).wf(),
    ensures
        final(farm).wf(),
        r is Ok <==> caller == old(farm).authority,
        r is Err ==> *final(farm) == *old(farm)
            && r == Err::<(), StakingError>(StakingError::Unauthorized),
        r is Ok ==> final(farm).managers@ == old(farm).managers@.push(new_manager)
            && final(farm).authority == old(farm).authority
            && final(farm).whitelist@ == old(farm).whitelist@
            && final(farm).locks@ == old(farm).locks@
            && final(farm).reward == old(farm).reward,
{
    if caller != farm.authority {
        return Err(StakingError::Unauthorized);
    }
    farm.managers.push(new_manager);
    Ok(())
}

/// Record a deposit of `amount` into the farm's reward pool; the asset
/// transfer into custody is the transfer collaborator's job and must have
/// succeeded before the ledger is moved.
pub fn fund_reward(farm: &mut Farm, amount: u64) -> (r: Result<(), StakingError>)
    requires
        old(farm).wf(),
    ensures
        final(farm).wf(),
        same_but_reward(*old(farm), *final(farm)),
        r is Ok <==> old(farm).reward.funded + amount <= u64::MAX,
        r is Ok ==> final(farm).reward == (RewardPool {
            funded: (old(farm).reward.funded + amount) as u64,
            ..old(farm).reward
        }),
        r is Err ==> *final(farm) == *old(farm)
            && r == Err::<(), StakingError>(StakingError::ArithmeticOverflow),
{
    farm.reward.fund(amount)
}

/// Whitelist collection `collection_id` at `base_rate` reward units per
/// locked unit per time unit. Only a manager may do so, and a collection can
/// be listed only once; every other collection's rate is untouched.
pub fn add_to_whitelist(farm: &mut Farm, caller: u64, collection_id: u64, base_rate: u64) -> (r:
    Result<(), StakingError>)
    requires
        old(farm).wf(),
    ensures
        final(farm).wf(),
        r is Ok <==> old(farm).is_manager(caller) && !wl_contains(
            old(farm).whitelist@,
            collection_id,
        ),
        r is Err ==> *final(farm) == *old(farm) && r == Err::<(), StakingError>(
            if !old(farm).is_manager(caller) {
                StakingError::Unauthorized
            } else {
                StakingError::AlreadyWhitelisted
            },
        ),
        r is Ok ==> final(farm).whitelist@ == old(farm).whitelist@.push(
            CollectionRate { collection_id, base_rate },
        ) && wl_rate(final(farm).whitelist@, collection_id) == Some(base_rate) && (forall|c: u64|
            c != collection_id ==> wl_rate(final(farm).whitelist@, c) == wl_rate(
                old(farm).whitelist@,
                c,
            )) && final(farm).authority == old(farm).authority && final(farm).managers@ == old(farm).managers@ && final(farm).locks@ == old(farm).locks@ && final(farm).reward == old(farm).reward,
{
    if !has_manager(&farm.managers, caller) {
        return Err(StakingError::Unauthorized);
    }
    match find_entry(&farm.whitelist, collection_id) {
        Some(k) => {
            proof {
                lemma_wl_rate_from_some(farm.whitelist@, collection_id, 0, k as int);
            }
            Err(StakingError::AlreadyWhitelisted)
        }
        None => {
            let entry = CollectionRate { collection_id, base_rate };
            proof {
                let wl = farm.whitelist@;
                lemma_wl_rate_from_none(wl, collection_id, 0);
                lemma_wl_rate_from_push(wl, entry, collection_id, 0);
                assert forall|c: u64| c != collection_id implies wl_rate(wl.push(entry), c)
                    == wl_rate(wl, c) by {
                    lemma_wl_rate_from_push(wl, entry, c, 0);
                }
                assert forall|i: int, j: int|
                    0 <= i < j < wl.push(entry).len() implies (#[trigger] wl.push(
                    entry,
                )[i]).collection_id != (#[trigger] wl.push(entry)[j]).collection_id by {
                    if j < wl.len() {
                        assert(wl.push(entry)[i] == wl[i]);
                        assert(wl.push(entry)[j] == wl[j]);
                    } else {
                        assert(wl.push(entry)[i] == wl[i]);
                        assert(wl.push(entry)[j] == entry);
                    }
                }
            }
            farm.whitelist.push(entry);
            Ok(())
        }
    }
}

/// Delist collection `collection_id`. Only a manager may do so; every other
/// collection's rate is untouched, and receipts already running keep the rate
/// captured at stake time because a receipt never re-resolves its rate.
pub fn remove_from_whitelist(farm: &mut Farm, caller: u64, collection_id: u64) -> (r: Result<
    (),
    StakingError,
>)
    requires
        old(farm).wf(),
    ensures
        final(farm).wf(),
        r is Ok <==> old(farm).is_manager(caller) && wl_contains(
            old(farm).whitelist@,
            collection_id,
        ),
        r is Err ==> *final(farm) == *old(farm) && r == Err::<(), StakingError>(
            if !old(farm).is_manager(caller) {
                StakingError::Unauthorized
            } else {
                StakingError::NotWhitelisted
            },
        ),
        r is Ok ==> final(farm).whitelist@.len() == old(farm).whitelist@.len() - 1 && !wl_contains(
            final(farm).whitelist@,
            collection_id,
        ) && (forall|c: u64|
            c != collection_id ==> wl_rate(final(farm).whitelist@, c) == wl_rate(
                old(farm).whitelist@,
                c,
            )) && final(farm).authority == old(farm).authority && final(farm).managers@ == old(farm).managers@ && final(farm).locks@ == old(farm).locks@ && final(farm).reward == old(farm).reward,
{
    if !has_manager(&farm.managers, caller) {
        return Err(StakingError::Unauthorized);
    }
    match find_entry(&farm.whitelist, collection_id) {
        None => Err(StakingError::NotWhitelisted),
        Some(k) => {
            proof {
                lemma_wl_rate_from_some(farm.whitelist@, collection_id, 0, k as int);
                lemma_wl_remove(farm.whitelist@, k as int);
            }
            farm.whitelist.remove(k);
            Ok(())
        }
    }
}

/// Register one or more immutable lock tiers in a single authorized call.
/// Every requested duration must be positive; on any invalid config nothing
/// is registered. New tiers get the next free ids, and existing tiers are
/// never touched.
pub fn create_locks(farm: &mut Farm, caller: u64, lock_configs: Vec<LockConfig>) -> (r: Result<
    (),
    StakingError,
>)
    requires
        old(farm).wf(),
        old(farm).locks@.len() + lock_configs@.len() <= usize::MAX,
    ensures
        final(farm).wf(),
        r is Ok <==> old(farm).is_manager(caller) && (forall|i: int|
            0 <= i < lock_configs@.len() ==> (#[trigger] lock_configs@[i]).valid()),
        r is Err ==> *final(farm) == *old(farm) && r == Err::<(), StakingError>(
            if !old(farm).is_manager(caller) {
                StakingError::Unauthorized
            } else {
                StakingError::InvalidLockConfig
            },
        ),
        r is Ok ==> final(farm).locks@.len() == old(farm).locks@.len() + lock_configs@.len() && (
        forall|i: int|
            0 <= i < old(farm).locks@.len() ==> #[trigger] final(farm).locks@[i] == old(
                farm,
            ).locks@[i]) && (forall|i: int|
            old(farm).locks@.len() <= i < final(farm).locks@.len()
                ==> #[trigger] final(farm).locks@[i] == tier_of(
                lock_configs@[i - old(farm).locks@.len()],
                i,
            )) && final(farm).authority
            == old(farm).authority && final(farm).managers@ == old(farm).managers@ && final(farm).whitelist@ == old(farm).whitelist@ && final(farm).reward == old(farm).reward,
{
    if !has_manager(&farm.managers, caller) {
        return Err(StakingError::Unauthorized);
    }
    let ghost farm0: Farm = *farm;
    let n = lock_configs.len();
    let mut i: usize = 0;
    while i < n
        invariant
            0 <= i <= n,
            n == lock_configs@.len(),
            *farm == farm0,
            farm0 == *old(farm),
            farm0.wf(),
            farm0.is_manager(caller),
            forall|j: int| 0 <= j < i ==> (#[trigger] lock_configs@[j]).valid(),
        decreases n - i,
    {
        if lock_configs[i].duration == 0 {
            return Err(StakingError::InvalidLockConfig);
        }
        i = i + 1;
    }
    let base = farm.locks.len();
    let mut tiers: Vec<LockTier> = Vec::new();
    let mut j: usize = 0;
    while j < n
        invariant
            0 <= j <= n,
            n == lock_configs@.len(),
            base == farm0.locks@.len(),
            base + n <= usize::MAX,
            *farm == farm0,
            farm0 == *old(farm),
            farm0.wf(),
            farm0.is_manager(caller),
            tiers@.len() == j,
            forall|t: int| 0 <= t < n ==> (#[trigger] lock_configs@[t]).valid(),
            forall|t: int| 0 <= t < j ==> tiers@[t] == tier_of(lock_configs@[t], base + t),
        decreases n - j,
    {
        let id = (base + j) as u64;
        tiers.push(
            LockTier {
                id,
                duration: lock_configs[j].duration,
                cooldown: lock_configs[j].cooldown,
                bonus_factor: lock_configs[j].bonus_factor,
            },
        );
        j = j + 1;
    }
    farm.locks.append(&mut tiers);
    Ok(())
}

} // verus!
