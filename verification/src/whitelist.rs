use vstd::prelude::*;

verus! {

/// One whitelist entry of a farm: assets of `collection_id` may stake and
/// earn `base_rate` reward units per locked unit per time unit.
#[derive(Clone, Copy, Debug, PartialEq, Eq, Structural)]
pub struct CollectionRate {
    pub collection_id: u64,
    pub base_rate: u64,
}

/// First-match lookup of `cid` in `wl`, scanning from index `i`.
pub open spec fn wl_rate_from(wl: Seq<CollectionRate>, cid: u64, i: int) -> Option<u64>
    decreases wl.len() - i,
{
    if i < 0 || i >= wl.len() {
        None
    } else if wl[i].collection_id == cid {
        Some(wl[i].base_rate)
    } else {
        wl_rate_from(wl, cid, i + 1)
    }
}

/// The whitelisted base rate of collection `cid`, if any.
pub open spec fn wl_rate(wl: Seq<CollectionRate>, cid: u64) -> Option<u64> {
    wl_rate_from(wl, cid, 0)
}

/// Whether collection `cid` has a whitelist entry.
pub open spec fn wl_contains(wl: Seq<CollectionRate>, cid: u64) -> bool {
    wl_rate(wl, cid) is Some
}

/// No two entries name the same collection.
pub open spec fn wl_unique(wl: Seq<CollectionRate>) -> bool {
    forall|i: int, j: int|
        0 <= i < j < wl.len() ==> (#[trigger] wl[i]).collection_id != (#[trigger] wl[j]).collection_id
}

/// The lookup misses from `i` on exactly when no entry from `i` on names the
/// collection.
pub proof fn lemma_wl_rate_from_none(wl: Seq<CollectionRate>, cid: u64, i: int)
    requires
        0 <= i <= wl.len(),
    ensures
        (wl_rate_from(wl, cid, i) is None) <==> (forall|j: int|
            i <= j < wl.len() ==> (#[trigger] wl[j]).collection_id != cid),
    decreases wl.len() - i,
{
    if i < wl.len() {
        lemma_wl_rate_from_none(wl, cid, i + 1);
    }
}

/// On a duplicate-free whitelist, the lookup returns the rate of whichever
/// entry names the collection.
pub proof fn lemma_wl_rate_from_some(wl: Seq<CollectionRate>, cid: u64, i: int, j: int)
    requires
        wl_unique(wl),
        0 <= i <= j < wl.len(),
        wl[j].collection_id == cid,
    ensures
        wl_rate_from(wl, cid, i) == Some(wl[j].base_rate),
    decreases wl.len() - i,
{
    if i < j {
        lemma_wl_rate_from_some(wl, cid, i + 1, j);
    }
}

/// A hit from index `i` names a witness entry that carries the returned rate.
pub proof fn lemma_wl_rate_from_witness(wl: Seq<CollectionRate>, cid: u64, i: int)
    requires
        0 <= i <= wl.len(),
        wl_rate_from(wl, cid, i) is Some,
    ensures
        exists|j: int|
            i <= j < wl.len() && (#[trigger] wl[j]).collection_id == cid && wl_rate_from(
                wl,
                cid,
                i,
            ) == Some(wl[j].base_rate),
    decreases wl.len() - i,
{
    if wl[i].collection_id == cid {
        assert(wl[i].collection_id == cid);
    } else {
        lemma_wl_rate_from_witness(wl, cid, i + 1);
    }
}

/// Appending an entry for a new collection changes no existing lookup, and
/// resolves the new collection to the appended rate.
pub proof fn lemma_wl_rate_from_push(wl: Seq<CollectionRate>, e: CollectionRate, c: u64, i: int)
    requires
        0 <= i <= wl.len(),
    ensures
        wl_rate_from(wl.push(e), c, i) == (if wl_rate_from(wl, c, i) is Some {
            wl_rate_from(wl, c, i)
        } else if e.collection_id == c {
            Some(e.base_rate)
        } else {
            None::<u64>
        }),
    decreases wl.len() - i,
{
    if i < wl.len() {
        assert(wl.push(e)[i] == wl[i]);
        lemma_wl_rate_from_push(wl, e, c, i + 1);
    } else {
        assert(wl.push(e)[i] == e);
        assert(wl_rate_from(wl.push(e), c, i + 1) == None::<u64>);
    }
}

/// Removing the sole entry of one collection delists it and changes no other
/// collection's lookup.
pub proof fn lemma_wl_remove(wl: Seq<CollectionRate>, k: int)
    requires
        wl_unique(wl),
        0 <= k < wl.len(),
    ensures
        wl_unique(wl.remove(k)),
        !wl_contains(wl.remove(k), wl[k].collection_id),
        forall|c: u64| c != wl[k].collection_id ==> wl_rate(wl.remove(k), c) == wl_rate(wl, c),
{
    let wl2 = wl.remove(k);
    wl.remove_ensures(k);
    assert forall|j: int| 0 <= j < wl2.len() implies (#[trigger] wl2[j]).collection_id
        != wl[k].collection_id by {
        if j < k {
            assert(wl2[j] == wl[j]);
        } else {
            assert(wl2[j] == wl[j + 1]);
        }
    }
    lemma_wl_rate_from_none(wl2, wl[k].collection_id, 0);
    assert forall|c: u64| c != wl[k].collection_id implies wl_rate(wl2, c) == wl_rate(wl, c) by {
        if wl_rate(wl, c) is Some {
            lemma_wl_rate_from_witness(wl, c, 0);
            let j = choose|j: int|
                0 <= j < wl.len() && (#[trigger] wl[j]).collection_id == c && wl_rate(wl, c)
                    == Some(wl[j].base_rate);
            let j2 = if j < k {
                j
            } else {
                j - 1
            };
            assert(wl2[j2] == wl[j]);
            lemma_wl_rate_from_some(wl2, c, 0, j2);
        } else {
            lemma_wl_rate_from_none(wl, c, 0);
            assert forall|j: int| 0 <= j < wl2.len() implies (#[trigger] wl2[j]).collection_id
                != c by {
                if j < k {
                    assert(wl2[j] == wl[j]);
                } else {
                    assert(wl2[j] == wl[j + 1]);
                }
            }
            lemma_wl_rate_from_none(wl2, c, 0);
        }
    }
}

/// Find the whitelisted base rate of `cid`, if any.
pub fn lookup_rate(wl: &Vec<CollectionRate>, cid: u64) -> (r: Option<u64>)
    ensures
        r == wl_rate(wl@, cid),
{
    let n = wl.len();
    let mut i: usize = 0;
    while i < n
        invariant
            0 <= i <= n,
            n == wl@.len(),
            wl_rate(wl@, cid) == wl_rate_from(wl@, cid, i as int),
        decreases n - i,
    {
        if wl[i].collection_id == cid {
            return Some(wl[i].base_rate);
        }
        i = i + 1;
    }
    None
}

/// Find the index of the entry for `cid`, if any.
pub fn find_entry(wl: &Vec<CollectionRate>, cid: u64) -> (r: Option<usize>)
    ensures
        r matches Some(k) ==> 0 <= k < wl@.len() && wl@[k as int].collection_id == cid,
        r is None ==> !wl_contains(wl@, cid),
{
    let n = wl.len();
    let mut i: usize = 0;
    while i < n
        invariant
            0 <= i <= n,
            n == wl@.len(),
            forall|j: int| 0 <= j < i ==> (#[trigger] wl@[j]).collection_id != cid,
        decreases n - i,
    {
        if wl[i].collection_id == cid {
            return Some(i);
        }
        i = i + 1;
    }
    proof {
        lemma_wl_rate_from_none(wl@, cid, 0);
    }
    None
}

} // verus!
