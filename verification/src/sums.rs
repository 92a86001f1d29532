//! Summing the values of a finite map, and how the sum moves under updates.
//!
//! The escrow's conservation arguments are phrased over the total of all
//! pledges, which is the sum of the values of its pledge map.

use vstd::prelude::*;

verus! {

/// The sum of all values stored in a finite map.
pub open spec fn map_sum(m: Map<u64, i128>) -> int
    decreases m.dom().len(),
    when m.dom().finite()
{
    if m.dom().len() > 0 {
        let k = m.dom().choose();
        m[k] + map_sum(m.remove(k))
    } else {
        0
    }
}

/// Removing a key takes exactly its value out of the sum.
pub proof fn lemma_map_sum_remove(m: Map<u64, i128>, k: u64)
    requires
        m.dom().finite(),
        m.contains_key(k),
    ensures
        map_sum(m) == map_sum(m.remove(k)) + m[k],
    decreases m.dom().len(),
{
    let c = m.dom().choose();
    assert(m.dom().contains(c));
    if c == k {
    } else {
        lemma_map_sum_remove(m.remove(c), k);
        lemma_map_sum_remove(m.remove(k), c);
        assert(m.remove(c).remove(k) =~= m.remove(k).remove(c));
    }
}

/// Inserting a value replaces the key's old contribution to the sum.
pub proof fn lemma_map_sum_insert(m: Map<u64, i128>, k: u64, v: i128)
    requires
        m.dom().finite(),
    ensures
        map_sum(m.insert(k, v)) == map_sum(m) - (if m.contains_key(k) {
            m[k] as int
        } else {
            0
        }) + v,
{
    lemma_map_sum_remove(m.insert(k, v), k);
    if m.contains_key(k) {
        lemma_map_sum_remove(m, k);
        assert(m.insert(k, v).remove(k) =~= m.remove(k));
    } else {
        assert(m.insert(k, v).remove(k) =~= m);
    }
}

} // verus!
