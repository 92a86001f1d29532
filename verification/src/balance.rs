//! Balance and authorization-flag bookkeeping for the token ledger.

use crate::contract::Token;
use crate::errors::Error;
use vstd::prelude::*;

verus! {

/// The balance of `addr`; principals never seen before hold zero.
pub fn read_balance(t: &Token, addr: u64) -> (r: i128)
    ensures
        r == t.balance_of(addr),
{
    match t.balances.get(&addr) {
        Some(b) => *b,
        None => 0,
    }
}

/// Stores `amount` as the balance of `addr`.
fn write_balance(t: &mut Token, addr: u64, amount: i128)
    ensures
        final(t).balances_map() == old(t).balances_map().insert(addr, amount),
        final(t).allowances_map() == old(t).allowances_map(),
        final(t).auth_map() == old(t).auth_map(),
        final(t).admin_of() == old(t).admin_of(),
        final(t).metadata_of() == old(t).metadata_of(),
{
    t.balances.insert(addr, amount);
}

/// Credits `amount` to `addr`.
///
/// Fails with `Deauthorized` when the receiver's flag is off and with
/// `Overflow` when the credited balance would not fit; a failed call
/// changes nothing.
pub fn receive_balance(t: &mut Token, addr: u64, amount: i128) -> (r: Result<(), Error>)
    requires
        old(t).wf(),
        amount >= 0,
    ensures
        final(t).wf(),
        r == if !old(t).authorized_of(addr) {
            Err::<(), Error>(Error::Deauthorized)
        } else if old(t).balance_of(addr) + amount > i128::MAX {
            Err::<(), Error>(Error::Overflow)
        } else {
            Ok::<(), Error>(())
        },
        r is Err ==> *final(t) == *old(t),
        r is Ok ==> {
            &&& final(t).balances_map() == old(t).balances_map().insert(
                addr,
                (old(t).balance_of(addr) + amount) as i128,
            )
            &&& final(t).allowances_map() == old(t).allowances_map()
            &&& final(t).auth_map() == old(t).auth_map()
            &&& final(t).admin_of() == old(t).admin_of()
            &&& final(t).metadata_of() == old(t).metadata_of()
        },
{
    let balance = read_balance(t, addr);
    if !is_authorized(t, addr) {
        return Err(Error::Deauthorized);
    }
    if balance > i128::MAX - amount {
        return Err(Error::Overflow);
    }
    write_balance(t, addr, balance + amount);
    proof {
        Token::lemma_wf_balance_insert(*old(t), *t, addr, (balance + amount) as i128);
    }
    Ok(())
}

/// Debits `amount` from `addr`.
///
/// Fails with `Deauthorized` when the payer's flag is off and with
/// `InsufficientBalance` when the balance does not cover the debit; a
/// failed call changes nothing.
pub fn spend_balance(t: &mut Token, addr: u64, amount: i128) -> (r: Result<(), Error>)
    requires
        old(t).wf(),
        amount >= 0,
    ensures
        final(t).wf(),
        r == if !old(t).authorized_of(addr) {
            Err::<(), Error>(Error::Deauthorized)
        } else if old(t).balance_of(addr) < amount {
            Err::<(), Error>(Error::InsufficientBalance)
        } else {
            Ok::<(), Error>(())
        },
        r is Err ==> *final(t) == *old(t),
        r is Ok ==> {
            &&& final(t).balances_map() == old(t).balances_map().insert(
                addr,
                (old(t).balance_of(addr) - amount) as i128,
            )
            &&& final(t).allowances_map() == old(t).allowances_map()
            &&& final(t).auth_map() == old(t).auth_map()
            &&& final(t).admin_of() == old(t).admin_of()
            &&& final(t).metadata_of() == old(t).metadata_of()
        },
{
    let balance = read_balance(t, addr);
    if !is_authorized(t, addr) {
        return Err(Error::Deauthorized);
    }
    if balance < amount {
        return Err(Error::InsufficientBalance);
    }
    write_balance(t, addr, balance - amount);
    proof {
        Token::lemma_wf_balance_insert(*old(t), *t, addr, (balance - amount) as i128);
    }
    Ok(())
}

/// The authorization flag of `addr`; authorized unless switched off.
pub fn is_authorized(t: &Token, addr: u64) -> (r: bool)
    ensures
        r == t.authorized_of(addr),
{
    match t.auth_flags.get(&addr) {
        Some(state) => *state,
        None => true,
    }
}

/// Stores the authorization flag of `addr`.
pub fn write_authorization(t: &mut Token, addr: u64, is_authorized: bool)
    requires
        old(t).wf(),
    ensures
        final(t).wf(),
        final(t).auth_map() == old(t).auth_map().insert(addr, is_authorized),
        final(t).balances_map() == old(t).balances_map(),
        final(t).allowances_map() == old(t).allowances_map(),
        final(t).admin_of() == old(t).admin_of(),
        final(t).metadata_of() == old(t).metadata_of(),
{
    t.auth_flags.insert(addr, is_authorized);
    proof {
        Token::lemma_wf_unchanged_tables(*old(t), *t);
    }
}

} // verus!
