//! Allowance bookkeeping: spending rights with lazy, read-time expiry.

use crate::contract::Token;
use crate::errors::Error;
use crate::storage_types::{
    allowance_key, lemma_allowance_key_injective, AllowanceDataKey, AllowanceValue,
};
use vstd::prelude::*;

verus! {

/// The allowance of an owner/spender pair as seen at `current_tick`.
///
/// A record whose expiration tick lies before `current_tick` reads as a
/// zero amount; the stored expiration tick is reported unchanged.
pub fn read_allowance(t: &Token, from: u64, spender: u64, current_tick: u64) -> (r:
    AllowanceValue)
    ensures
        r.amount == t.effective_allowance(from, spender, current_tick),
        r.expiration_ledger == t.allowance_record(from, spender).expiration_ledger,
{
    let key = AllowanceDataKey { from, spender }.packed();
    match t.allowances.get(&key) {
        Some(a) => {
            if a.expiration_ledger < current_tick {
                AllowanceValue { amount: 0, expiration_ledger: a.expiration_ledger }
            } else {
                *a
            }
        },
        None => AllowanceValue { amount: 0, expiration_ledger: 0 },
    }
}

/// Overwrites the stored allowance of an owner/spender pair.
///
/// Fails with `InvalidExpiration` when a positive amount is given an
/// expiration tick that already lies in the past; a failed call changes
/// nothing.
pub fn write_allowance(
    t: &mut Token,
    from: u64,
    spender: u64,
    amount: i128,
    expiration_ledger: u64,
    current_tick: u64,
) -> (r: Result<(), Error>)
    requires
        old(t).wf(),
        amount >= 0,
    ensures
        final(t).wf(),
        r == if amount > 0 && expiration_ledger < current_tick {
            Err::<(), Error>(Error::InvalidExpiration)
        } else {
            Ok::<(), Error>(())
        },
        r is Err ==> *final(t) == *old(t),
        r is Ok ==> {
            &&& final(t).allowance_record(from, spender) == (AllowanceValue {
                amount,
                expiration_ledger,
            })
            &&& forall|f: u64, s: u64|
                !(f == from && s == spender) ==> #[trigger] final(t).allowance_record(f, s) == old(
                    t,
                ).allowance_record(f, s)
            &&& final(t).balances_map() == old(t).balances_map()
            &&& final(t).auth_map() == old(t).auth_map()
            &&& final(t).admin_of() == old(t).admin_of()
            &&& final(t).metadata_of() == old(t).metadata_of()
        },
{
    if amount > 0 && expiration_ledger < current_tick {
        return Err(Error::InvalidExpiration);
    }
    let key = AllowanceDataKey { from, spender }.packed();
    t.allowances.insert(key, AllowanceValue { amount, expiration_ledger });
    proof {
        Token::lemma_wf_allowance_insert(
            *old(t),
            *t,
            allowance_key(from, spender),
            AllowanceValue { amount, expiration_ledger },
        );
        assert forall|f: u64, s: u64| !(f == from && s == spender) implies #[trigger] t
            .allowance_record(f, s) == old(t).allowance_record(f, s) by {
            if allowance_key(f, s) == allowance_key(from, spender) {
                lemma_allowance_key_injective(f, s, from, spender);
            }
        }
    }
    Ok(())
}

/// Consumes `amount` of the effective allowance, keeping the stored
/// expiration tick.
///
/// Fails with `InsufficientAllowance` when the effective allowance does
/// not cover the request; a failed call changes nothing.
pub fn spend_allowance(
    t: &mut Token,
    from: u64,
    spender: u64,
    amount: i128,
    current_tick: u64,
) -> (r: Result<(), Error>)
    requires
        old(t).wf(),
        amount >= 0,
    ensures
        final(t).wf(),
        r == if old(t).effective_allowance(from, spender, current_tick) < amount {
            Err::<(), Error>(Error::InsufficientAllowance)
        } else {
            Ok::<(), Error>(())
        },
        r is Err ==> *final(t) == *old(t),
        r is Ok ==> {
            &&& final(t).allowance_record(from, spender) == (AllowanceValue {
                amount: (old(t).effective_allowance(from, spender, current_tick) - amount) as i128,
                expiration_ledger: old(t).allowance_record(from, spender).expiration_ledger,
            })
            &&& forall|f: u64, s: u64|
                !(f == from && s == spender) ==> #[trigger] final(t).allowance_record(f, s) == old(
                    t,
                ).allowance_record(f, s)
            &&& final(t).balances_map() == old(t).balances_map()
            &&& final(t).auth_map() == old(t).auth_map()
            &&& final(t).admin_of() == old(t).admin_of()
            &&& final(t).metadata_of() == old(t).metadata_of()
        },
{
    let allowance = read_allowance(t, from, spender, current_tick);
    if allowance.amount < amount {
        return Err(Error::InsufficientAllowance);
    }
    match write_allowance(
        t,
        from,
        spender,
        allowance.amount - amount,
        allowance.expiration_ledger,
        current_tick,
    ) {
        Ok(()) => Ok(()),
        Err(e) => Err(e),
    }
}

} // verus!
