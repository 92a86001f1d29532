//! Storage shapes for the token ledger's allowance table.

use vstd::prelude::*;

verus! {

/// Multiplier that packs an allowance's owner into the high half of a key.
pub const KEY_RADIX: u128 = 0x1_0000_0000_0000_0000;

/// The pair of principals an allowance is stored under.
#[derive(Clone, Copy, PartialEq, Eq, Debug)]
pub struct AllowanceDataKey {
    pub from: u64,
    pub spender: u64,
}

/// A stored allowance: the granted amount and the tick past which it reads
/// as zero.
#[derive(Clone, Copy, PartialEq, Eq, Debug)]
pub struct AllowanceValue {
    pub amount: i128,
    pub expiration_ledger: u64,
}

/// The storage cell an owner/spender pair maps to: the owner in the high
/// 64 bits, the spender in the low 64 bits.
pub open spec fn allowance_key(from: u64, spender: u64) -> u128 {
    ((from as int) * (KEY_RADIX as int) + (spender as int)) as u128
}

/// Distinct owner/spender pairs occupy distinct storage cells.
pub proof fn lemma_allowance_key_injective(f1: u64, s1: u64, f2: u64, s2: u64)
    requires
        allowance_key(f1, s1) == allowance_key(f2, s2),
    ensures
        f1 == f2,
        s1 == s2,
{
    let r = KEY_RADIX as int;
    assert((f1 as int) * r + (s1 as int) <= (u64::MAX as int) * r + (u64::MAX as int));
    assert((f1 as int) * r + (s1 as int) == (f2 as int) * r + (s2 as int));
    assert(f1 == f2 && s1 == s2) by (nonlinear_arith)
        requires
            (f1 as int) * r + (s1 as int) == (f2 as int) * r + (s2 as int),
            r == KEY_RADIX as int,
            s1 <= u64::MAX,
            s2 <= u64::MAX,
    ;
}

impl AllowanceDataKey {
    /// The packed storage key for this owner/spender pair.
    pub fn packed(&self) -> (k: u128)
        ensures
            k == allowance_key(self.from, self.spender),
    {
        (self.from as u128) * KEY_RADIX + (self.spender as u128)
    }
}

} // verus!
