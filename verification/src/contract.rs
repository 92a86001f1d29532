//! The fungible token ledger: balances, allowances and authorization,
//! guarded by typed failures instead of partial updates.

use crate::admin::{has_administrator, read_administrator, write_administrator};
use crate::allowance::{read_allowance, spend_allowance, write_allowance};
use crate::balance::{is_authorized, read_balance, receive_balance, spend_balance, write_authorization};
use crate::errors::Error;
use crate::metadata::{read_decimal, read_name, read_symbol, write_metadata, TokenMetadata};
use crate::storage_types::{allowance_key, AllowanceValue};
use vstd::hash_map::HashMapWithView;
use vstd::prelude::*;

verus! {

broadcast use vstd::std_specs::hash::group_hash_axioms;

/// Rejects a negative amount argument.
pub fn check_nonnegative_amount(amount: i128) -> (r: Result<(), Error>)
    ensures
        r == if amount < 0 {
            Err::<(), Error>(Error::InvalidAmount)
        } else {
            Ok::<(), Error>(())
        },
{
    if amount < 0 {
        Err(Error::InvalidAmount)
    } else {
        Ok(())
    }
}

/// The complete state of one token ledger instance.
///
/// The fields are the persisted keyspaces of the ledger; every operation
/// goes through the methods below, which keep [`Token::wf`] and report
/// failures without touching any state.
pub struct Token {
    /// The administrator, recorded exactly once at initialization.
    pub admin: Option<u64>,
    /// Display metadata, recorded at initialization.
    pub metadata: Option<TokenMetadata>,
    /// Balance of each principal; an absent entry reads as zero.
    pub balances: HashMapWithView<u64, i128>,
    /// Allowances, stored under the packed owner/spender key.
    pub allowances: HashMapWithView<u128, AllowanceValue>,
    /// Authorization flags; an absent entry reads as authorized.
    pub auth_flags: HashMapWithView<u64, bool>,
}

impl Token {
    /// The balance map as stored.
    pub open spec fn balances_map(self) -> Map<u64, i128> {
        self.balances@
    }

    /// The allowance table as stored.
    pub open spec fn allowances_map(self) -> Map<u128, AllowanceValue> {
        self.allowances@
    }

    /// The authorization flags as stored.
    pub open spec fn auth_map(self) -> Map<u64, bool> {
        self.auth_flags@
    }

    /// The recorded administrator, if any.
    pub open spec fn admin_of(self) -> Option<u64> {
        self.admin
    }

    /// The recorded metadata, if any.
    pub open spec fn metadata_of(self) -> Option<TokenMetadata> {
        self.metadata
    }

    /// Whether the token has been initialized.
    pub open spec fn has_admin(self) -> bool {
        self.admin_of() is Some
    }

    /// The balance of a principal; absent entries hold zero.
    pub open spec fn balance_of(self, id: u64) -> int {
        if self.balances_map().contains_key(id) {
            self.balances_map()[id] as int
        } else {
            0
        }
    }

    /// The authorization flag of a principal; authorized by default.
    pub open spec fn authorized_of(self, id: u64) -> bool {
        if self.auth_map().contains_key(id) {
            self.auth_map()[id]
        } else {
            true
        }
    }

    /// The stored allowance record of an owner/spender pair; an absent
    /// entry reads as an expired empty record.
    pub open spec fn allowance_record(self, from: u64, spender: u64) -> AllowanceValue {
        if self.allowances_map().contains_key(allowance_key(from, spender)) {
            self.allowances_map()[allowance_key(from, spender)]
        } else {
            AllowanceValue { amount: 0, expiration_ledger: 0 }
        }
    }

    /// The allowance as read at `current_tick`: a record whose expiration
    /// tick has passed reads as zero.
    pub open spec fn effective_allowance(self, from: u64, spender: u64, current_tick: u64) -> int {
        let a = self.allowance_record(from, spender);
        if a.expiration_ledger < current_tick {
            0
        } else {
            a.amount as int
        }
    }

    /// Well-formedness: no stored balance and no stored allowance amount
    /// is negative.
    pub open spec fn wf(self) -> bool {
        &&& forall|p: u64|
            self.balances_map().contains_key(p) ==> #[trigger] self.balances_map()[p] >= 0
        &&& forall|k: u128|
            self.allowances_map().contains_key(k) ==> (#[trigger] self.allowances_map()[k]).amount
                >= 0
    }

    /// Well-formedness depends only on the balance and allowance tables.
    pub proof fn lemma_wf_unchanged_tables(a: Token, b: Token)
        requires
            a.wf(),
            b.balances_map() == a.balances_map(),
            b.allowances_map() == a.allowances_map(),
        ensures
            b.wf(),
    {
        assert forall|p: u64| b.balances_map().contains_key(p) implies #[trigger] b.balances_map()[p]
            >= 0 by {
            assert(a.balances_map()[p] >= 0);
        }
        assert forall|k: u128| b.allowances_map().contains_key(k) implies (
        #[trigger] b.allowances_map()[k]).amount >= 0 by {
            assert(a.allowances_map()[k].amount >= 0);
        }
    }

    /// Storing a nonnegative balance keeps the ledger well-formed.
    pub proof fn lemma_wf_balance_insert(a: Token, b: Token, addr: u64, v: i128)
        requires
            a.wf(),
            v >= 0,
            b.balances_map() == a.balances_map().insert(addr, v),
            b.allowances_map() == a.allowances_map(),
        ensures
            b.wf(),
    {
        assert forall|p: u64| b.balances_map().contains_key(p) implies #[trigger] b.balances_map()[p]
            >= 0 by {
            if p != addr {
                assert(a.balances_map()[p] >= 0);
            }
        }
        assert forall|k: u128| b.allowances_map().contains_key(k) implies (
        #[trigger] b.allowances_map()[k]).amount >= 0 by {
            assert(a.allowances_map()[k].amount >= 0);
        }
    }

    /// Storing a nonnegative allowance keeps the ledger well-formed.
    pub proof fn lemma_wf_allowance_insert(a: Token, b: Token, key: u128, v: AllowanceValue)
        requires
            a.wf(),
            v.amount >= 0,
            b.balances_map() == a.balances_map(),
            b.allowances_map() == a.allowances_map().insert(key, v),
        ensures
            b.wf(),
    {
        assert forall|p: u64| b.balances_map().contains_key(p) implies #[trigger] b.balances_map()[p]
            >= 0 by {
            assert(a.balances_map()[p] >= 0);
        }
        assert forall|k: u128| b.allowances_map().contains_key(k) implies (
        #[trigger] b.allowances_map()[k]).amount >= 0 by {
            if k != key {
                assert(a.allowances_map()[k].amount >= 0);
            }
        }
    }

    /// A fresh, uninitialized token ledger with no balances.
    pub fn new() -> (t: Token)
        ensures
            t.wf(),
            !t.has_admin(),
            t.metadata_of() is None,
            t.balances_map() == Map::<u64, i128>::empty(),
            t.allowances_map() == Map::<u128, AllowanceValue>::empty(),
            t.auth_map() == Map::<u64, bool>::empty(),
    {
        Token {
            admin: None,
            metadata: None,
            balances: HashMapWithView::new(),
            allowances: HashMapWithView::new(),
            auth_flags: HashMapWithView::new(),
        }
    }

    /// Records the administrator and the metadata, exactly once.
    ///
    /// Fails with `AlreadyInitialized` on a second call and with
    /// `InvalidDecimal` when `decimal` does not fit in eight bits; a
    /// failed call changes nothing.
    pub fn initialize(
        &mut self,
        admin: u64,
        decimal: u32,
        name: String,
        symbol: String,
    ) -> (r: Result<(), Error>)
        requires
            old(self).wf(),
        ensures
            final(self).wf(),
            old(self).has_admin() ==> r == Err::<(), Error>(Error::AlreadyInitialized)
                && *final(self) == *old(self),
            !old(self).has_admin() && decimal > 255 ==> r == Err::<(), Error>(
                Error::InvalidDecimal,
            ) && *final(self) == *old(self),
            !old(self).has_admin() && decimal <= 255 ==> {
                &&& r == Ok::<(), Error>(())
                &&& final(self).admin_of() == Some(admin)
                &&& final(self).metadata_of() == Some(
                    TokenMetadata { decimal, name, symbol },
                )
                &&& final(self).balances_map() == old(self).balances_map()
                &&& final(self).allowances_map() == old(self).allowances_map()
                &&& final(self).auth_map() == old(self).auth_map()
            },
    {
        if has_administrator(self) {
            return Err(Error::AlreadyInitialized);
        }
        if decimal > 255 {
            return Err(Error::InvalidDecimal);
        }
        write_administrator(self, admin);
        write_metadata(self, TokenMetadata { decimal, name, symbol });
        Ok(())
    }

    /// The number of display decimals.
    pub fn decimals(&self) -> (r: u32)
        requires
            self.metadata_of() is Some,
        ensures
            r == self.metadata_of().unwrap().decimal,
    {
        read_decimal(self)
    }

    /// The display name.
    pub fn name(&self) -> (r: String)
        requires
            self.metadata_of() is Some,
        ensures
            r == self.metadata_of().unwrap().name,
    {
        read_name(self)
    }

    /// The display symbol.
    pub fn symbol(&self) -> (r: String)
        requires
            self.metadata_of() is Some,
        ensures
            r == self.metadata_of().unwrap().symbol,
    {
        read_symbol(self)
    }
}

/// Balances after moving `amount` from `from` to `to`: the payer is
/// debited, the receiver credited, everyone else untouched.
pub open spec fn balances_moved(pre: Token, post: Token, from: u64, to: u64, amount: i128) -> bool {
    &&& to != from ==> post.balance_of(from) == pre.balance_of(from) - amount && post.balance_of(
        to,
    ) == pre.balance_of(to) + amount
    &&& to == from ==> post.balance_of(to) == pre.balance_of(to)
    &&& forall|p: u64| p != from && p != to ==> #[trigger] post.balance_of(p) == pre.balance_of(p)
}

/// Balances after debiting `amount` from `from`, everyone else untouched.
pub open spec fn balances_debited(pre: Token, post: Token, from: u64, amount: i128) -> bool {
    &&& post.balance_of(from) == pre.balance_of(from) - amount
    &&& forall|p: u64| p != from ==> #[trigger] post.balance_of(p) == pre.balance_of(p)
}

/// Balances after crediting `amount` to `to`, everyone else untouched.
pub open spec fn balances_credited(pre: Token, post: Token, to: u64, amount: i128) -> bool {
    &&& post.balance_of(to) == pre.balance_of(to) + amount
    &&& forall|p: u64| p != to ==> #[trigger] post.balance_of(p) == pre.balance_of(p)
}

/// All allowance records except the one of `(from, spender)` untouched.
pub open spec fn allowances_unchanged_except(pre: Token, post: Token, from: u64, spender: u64) -> bool {
    forall|f: u64, s: u64|
        !(f == from && s == spender) ==> #[trigger] post.allowance_record(f, s)
            == pre.allowance_record(f, s)
}

impl Token {
    /// The outcome of [`Token::transfer`] as a function of the starting
    /// state.
    pub open spec fn spec_transfer_result(
        self,
        from: u64,
        to: u64,
        amount: i128,
        from_auth: bool,
    ) -> Result<(), Error> {
        if !from_auth {
            Err(Error::Unauthorized)
        } else if amount < 0 {
            Err(Error::InvalidAmount)
        } else if !self.authorized_of(from) {
            Err(Error::Deauthorized)
        } else if self.balance_of(from) < amount {
            Err(Error::InsufficientBalance)
        } else if !self.authorized_of(to) {
            Err(Error::Deauthorized)
        } else if (if to == from {
            self.balance_of(from) - amount
        } else {
            self.balance_of(to)
        }) + amount > i128::MAX {
            Err(Error::Overflow)
        } else {
            Ok(())
        }
    }

    /// The balance of a principal.
    pub fn balance(&self, id: u64) -> (r: i128)
        ensures
            r == self.balance_of(id),
    {
        read_balance(self, id)
    }

    /// The spendable balance of a principal; for this token it is the
    /// whole balance.
    pub fn spendable_balance(&self, id: u64) -> (r: i128)
        ensures
            r == self.balance_of(id),
    {
        read_balance(self, id)
    }

    /// The authorization flag of a principal.
    pub fn authorized(&self, id: u64) -> (r: bool)
        ensures
            r == self.authorized_of(id),
    {
        is_authorized(self, id)
    }

    /// The effective allowance of an owner/spender pair at `current_tick`.
    pub fn allowance(&self, from: u64, spender: u64, current_tick: u64) -> (r: i128)
        ensures
            r == self.effective_allowance(from, spender, current_tick),
    {
        read_allowance(self, from, spender, current_tick).amount
    }

    /// Moves `amount` from `from` to `to`, gated on the host's attestation
    /// that `from` authorized the call.
    ///
    /// Either both balances update or, on any failure, neither does.
    pub fn transfer(&mut self, from: u64, to: u64, amount: i128, from_auth: bool) -> (r: Result<
        (),
        Error,
    >)
        requires
            old(self).wf(),
        ensures
            final(self).wf(),
            r == old(self).spec_transfer_result(from, to, amount, from_auth),
            r is Err ==> *final(self) == *old(self),
            r is Ok ==> {
                &&& balances_moved(*old(self), *final(self), from, to, amount)
                &&& final(self).allowances_map() == old(self).allowances_map()
                &&& final(self).auth_map() == old(self).auth_map()
                &&& final(self).admin_of() == old(self).admin_of()
                &&& final(self).metadata_of() == old(self).metadata_of()
            },
    {
        if !from_auth {
            return Err(Error::Unauthorized);
        }
        match check_nonnegative_amount(amount) {
            Ok(()) => (),
            Err(e) => {
                return Err(e);
            },
        }
        if !is_authorized(self, from) {
            return Err(Error::Deauthorized);
        }
        let from_balance = read_balance(self, from);
        if from_balance < amount {
            return Err(Error::InsufficientBalance);
        }
        if !is_authorized(self, to) {
            return Err(Error::Deauthorized);
        }
        let to_balance = if to == from {
            from_balance - amount
        } else {
            read_balance(self, to)
        };
        if to_balance > i128::MAX - amount {
            return Err(Error::Overflow);
        }
        match spend_balance(self, from, amount) {
            Ok(()) => (),
            Err(e) => {
                return Err(e);
            },
        }
        match receive_balance(self, to, amount) {
            Ok(()) => (),
            Err(e) => {
                return Err(e);
            },
        }
        Ok(())
    }

    /// The outcome of [`Token::transfer_from`] as a function of the
    /// starting state.
    pub open spec fn spec_transfer_from_result(
        self,
        spender: u64,
        from: u64,
        to: u64,
        amount: i128,
        current_tick: u64,
        spender_auth: bool,
    ) -> Result<(), Error> {
        if !spender_auth {
            Err(Error::Unauthorized)
        } else if amount < 0 {
            Err(Error::InvalidAmount)
        } else if self.effective_allowance(from, spender, current_tick) < amount {
            Err(Error::InsufficientAllowance)
        } else if !self.authorized_of(from) {
            Err(Error::Deauthorized)
        } else if self.balance_of(from) < amount {
            Err(Error::InsufficientBalance)
        } else if !self.authorized_of(to) {
            Err(Error::Deauthorized)
        } else if (if to == from {
            self.balance_of(from) - amount
        } else {
            self.balance_of(to)
        }) + amount > i128::MAX {
            Err(Error::Overflow)
        } else {
            Ok(())
        }
    }

    /// Moves `amount` from `from` to `to` on the authority of `spender`,
    /// consuming that much of the owner's allowance for the spender.
    ///
    /// On any failure nothing changes: neither balances nor the allowance.
    pub fn transfer_from(
        &mut self,
        spender: u64,
        from: u64,
        to: u64,
        amount: i128,
        current_tick: u64,
        spender_auth: bool,
    ) -> (r: Result<(), Error>)
        requires
            old(self).wf(),
        ensures
            final(self).wf(),
            r == old(self).spec_transfer_from_result(
                spender,
                from,
                to,
                amount,
                current_tick,
                spender_auth,
            ),
            r is Err ==> *final(self) == *old(self),
            r is Ok ==> {
                &&& balances_moved(*old(self), *final(self), from, to, amount)
                &&& final(self).allowance_record(from, spender) == (AllowanceValue {
                    amount: (old(self).effective_allowance(from, spender, current_tick)
                        - amount) as i128,
                    expiration_ledger: old(self).allowance_record(
                        from,
                        spender,
                    ).expiration_ledger,
                })
                &&& allowances_unchanged_except(*old(self), *final(self), from, spender)
                &&& final(self).auth_map() == old(self).auth_map()
                &&& final(self).admin_of() == old(self).admin_of()
                &&& final(self).metadata_of() == old(self).metadata_of()
            },
    {
        if !spender_auth {
            return Err(Error::Unauthorized);
        }
        match check_nonnegative_amount(amount) {
            Ok(()) => (),
            Err(e) => {
                return Err(e);
            },
        }
        let allowance = read_allowance(self, from, spender, current_tick);
        if allowance.amount < amount {
            return Err(Error::InsufficientAllowance);
        }
        if !is_authorized(self, from) {
            return Err(Error::Deauthorized);
        }
        let from_balance = read_balance(self, from);
        if from_balance < amount {
            return Err(Error::InsufficientBalance);
        }
        if !is_authorized(self, to) {
            return Err(Error::Deauthorized);
        }
        let to_balance = if to == from {
            from_balance - amount
        } else {
            read_balance(self, to)
        };
        if to_balance > i128::MAX - amount {
            return Err(Error::Overflow);
        }
        match spend_allowance(self, from, spender, amount, current_tick) {
            Ok(()) => (),
            Err(e) => {
                return Err(e);
            },
        }
        let ghost mid = *self;
        match spend_balance(self, from, amount) {
            Ok(()) => (),
            Err(e) => {
                return Err(e);
            },
        }
        match receive_balance(self, to, amount) {
            Ok(()) => (),
            Err(e) => {
                return Err(e);
            },
        }
        proof {
            assert forall|f: u64, s: u64| !(f == from && s == spender) implies #[trigger] self
                .allowance_record(f, s) == old(self).allowance_record(f, s) by {
                assert(mid.allowance_record(f, s) == old(self).allowance_record(f, s));
            }
        }
        Ok(())
    }

    /// Overwrites the allowance of `spender` on `from`'s balance, gated on
    /// the host's attestation that `from` authorized the call.
    ///
    /// A positive amount must come with an expiration tick that has not
    /// passed yet; a failed call changes nothing.
    pub fn approve(
        &mut self,
        from: u64,
        spender: u64,
        amount: i128,
        expiration_ledger: u64,
        current_tick: u64,
        from_auth: bool,
    ) -> (r: Result<(), Error>)
        requires
            old(self).wf(),
        ensures
            final(self).wf(),
            r == if !from_auth {
                Err::<(), Error>(Error::Unauthorized)
            } else if amount < 0 {
                Err::<(), Error>(Error::InvalidAmount)
            } else if amount > 0 && expiration_ledger < current_tick {
                Err::<(), Error>(Error::InvalidExpiration)
            } else {
                Ok::<(), Error>(())
            },
            r is Err ==> *final(self) == *old(self),
            r is Ok ==> {
                &&& final(self).allowance_record(from, spender) == (AllowanceValue {
                    amount,
                    expiration_ledger,
                })
                &&& allowances_unchanged_except(*old(self), *final(self), from, spender)
                &&& final(self).balances_map() == old(self).balances_map()
                &&& final(self).auth_map() == old(self).auth_map()
                &&& final(self).admin_of() == old(self).admin_of()
                &&& final(self).metadata_of() == old(self).metadata_of()
            },
    {
        if !from_auth {
            return Err(Error::Unauthorized);
        }
        match check_nonnegative_amount(amount) {
            Ok(()) => (),
            Err(e) => {
                return Err(e);
            },
        }
        write_allowance(self, from, spender, amount, expiration_ledger, current_tick)
    }

    /// The outcome of [`Token::increase_allowance`] as a function of the
    /// starting state.
    pub open spec fn spec_increase_allowance_result(
        self,
        from: u64,
        spender: u64,
        amount: i128,
        current_tick: u64,
        from_auth: bool,
    ) -> Result<(), Error> {
        if !from_auth {
            Err(Error::Unauthorized)
        } else if amount < 0 {
            Err(Error::InvalidAmount)
        } else if self.effective_allowance(from, spender, current_tick) + amount > i128::MAX {
            Err(Error::Overflow)
        } else {
            Ok(())
        }
    }

    /// Adds `amount` to the effective allowance of `spender` on `from`'s
    /// balance.
    ///
    /// An increase that starts from an empty effective allowance installs
    /// a record with no expiration bound; otherwise the stored expiration
    /// tick is kept.
    pub fn increase_allowance(
        &mut self,
        from: u64,
        spender: u64,
        amount: i128,
        current_tick: u64,
        from_auth: bool,
    ) -> (r: Result<(), Error>)
        requires
            old(self).wf(),
        ensures
            final(self).wf(),
            r == old(self).spec_increase_allowance_result(
                from,
                spender,
                amount,
                current_tick,
                from_auth,
            ),
            r is Err ==> *final(self) == *old(self),
            r is Ok ==> {
                &&& final(self).allowance_record(from, spender) == (AllowanceValue {
                    amount: (old(self).effective_allowance(from, spender, current_tick)
                        + amount) as i128,
                    expiration_ledger: if old(self).effective_allowance(
                        from,
                        spender,
                        current_tick,
                    ) > 0 {
                        old(self).allowance_record(from, spender).expiration_ledger
                    } else {
                        u64::MAX
                    },
                })
                &&& allowances_unchanged_except(*old(self), *final(self), from, spender)
                &&& final(self).balances_map() == old(self).balances_map()
                &&& final(self).auth_map() == old(self).auth_map()
                &&& final(self).admin_of() == old(self).admin_of()
                &&& final(self).metadata_of() == old(self).metadata_of()
            },
    {
        if !from_auth {
            return Err(Error::Unauthorized);
        }
        match check_nonnegative_amount(amount) {
            Ok(()) => (),
            Err(e) => {
                return Err(e);
            },
        }
        let allowance = read_allowance(self, from, spender, current_tick);
        if allowance.amount > i128::MAX - amount {
            return Err(Error::Overflow);
        }
        let expiration = if allowance.amount > 0 {
            allowance.expiration_ledger
        } else {
            u64::MAX
        };
        write_allowance(self, from, spender, allowance.amount + amount, expiration, current_tick)
    }

    /// Removes up to `amount` from the effective allowance of `spender`
    /// on `from`'s balance, clamping at zero and keeping the stored
    /// expiration tick.
    pub fn decrease_allowance(
        &mut self,
        from: u64,
        spender: u64,
        amount: i128,
        current_tick: u64,
        from_auth: bool,
    ) -> (r: Result<(), Error>)
        requires
            old(self).wf(),
        ensures
            final(self).wf(),
            r == if !from_auth {
                Err::<(), Error>(Error::Unauthorized)
            } else if amount < 0 {
                Err::<(), Error>(Error::InvalidAmount)
            } else {
                Ok::<(), Error>(())
            },
            r is Err ==> *final(self) == *old(self),
            r is Ok ==> {
                &&& final(self).allowance_record(from, spender) == (AllowanceValue {
                    amount: if amount >= old(self).effective_allowance(
                        from,
                        spender,
                        current_tick,
                    ) {
                        0
                    } else {
                        (old(self).effective_allowance(from, spender, current_tick)
                            - amount) as i128
                    },
                    expiration_ledger: old(self).allowance_record(
                        from,
                        spender,
                    ).expiration_ledger,
                })
                &&& allowances_unchanged_except(*old(self), *final(self), from, spender)
                &&& final(self).balances_map() == old(self).balances_map()
                &&& final(self).auth_map() == old(self).auth_map()
                &&& final(self).admin_of() == old(self).admin_of()
                &&& final(self).metadata_of() == old(self).metadata_of()
            },
    {
        if !from_auth {
            return Err(Error::Unauthorized);
        }
        match check_nonnegative_amount(amount) {
            Ok(()) => (),
            Err(e) => {
                return Err(e);
            },
        }
        let allowance = read_allowance(self, from, spender, current_tick);
        let reduced = if amount >= allowance.amount {
            0
        } else {
            allowance.amount - amount
        };
        write_allowance(self, from, spender, reduced, allowance.expiration_ledger, current_tick)
    }

    /// The outcome of [`Token::burn`] as a function of the starting state.
    pub open spec fn spec_burn_result(self, from: u64, amount: i128, from_auth: bool) -> Result<
        (),
        Error,
    > {
        if !from_auth {
            Err(Error::Unauthorized)
        } else if amount < 0 {
            Err(Error::InvalidAmount)
        } else if !self.authorized_of(from) {
            Err(Error::Deauthorized)
        } else if self.balance_of(from) < amount {
            Err(Error::InsufficientBalance)
        } else {
            Ok(())
        }
    }

    /// Destroys `amount` of `from`'s balance, gated on the host's
    /// attestation that `from` authorized the call.
    pub fn burn(&mut self, from: u64, amount: i128, from_auth: bool) -> (r: Result<(), Error>)
        requires
            old(self).wf(),
        ensures
            final(self).wf(),
            r == old(self).spec_burn_result(from, amount, from_auth),
            r is Err ==> *final(self) == *old(self),
            r is Ok ==> {
                &&& balances_debited(*old(self), *final(self), from, amount)
                &&& final(self).allowances_map() == old(self).allowances_map()
                &&& final(self).auth_map() == old(self).auth_map()
                &&& final(self).admin_of() == old(self).admin_of()
                &&& final(self).metadata_of() == old(self).metadata_of()
            },
    {
        if !from_auth {
            return Err(Error::Unauthorized);
        }
        match check_nonnegative_amount(amount) {
            Ok(()) => (),
            Err(e) => {
                return Err(e);
            },
        }
        spend_balance(self, from, amount)
    }

    /// The outcome of [`Token::burn_from`] as a function of the starting
    /// state.
    pub open spec fn spec_burn_from_result(
        self,
        spender: u64,
        from: u64,
        amount: i128,
        current_tick: u64,
        spender_auth: bool,
    ) -> Result<(), Error> {
        if !spender_auth {
            Err(Error::Unauthorized)
        } else if amount < 0 {
            Err(Error::InvalidAmount)
        } else if self.effective_allowance(from, spender, current_tick) < amount {
            Err(Error::InsufficientAllowance)
        } else if !self.authorized_of(from) {
            Err(Error::Deauthorized)
        } else if self.balance_of(from) < amount {
            Err(Error::InsufficientBalance)
        } else {
            Ok(())
        }
    }

    /// Destroys `amount` of `from`'s balance on the authority of
    /// `spender`, consuming that much of the owner's allowance.
    pub fn burn_from(
        &mut self,
        spender: u64,
        from: u64,
        amount: i128,
        current_tick: u64,
        spender_auth: bool,
    ) -> (r: Result<(), Error>)
        requires
            old(self).wf(),
        ensures
            final(self).wf(),
            r == old(self).spec_burn_from_result(spender, from, amount, current_tick, spender_auth),
            r is Err ==> *final(self) == *old(self),
            r is Ok ==> {
                &&& balances_debited(*old(self), *final(self), from, amount)
                &&& final(self).allowance_record(from, spender) == (AllowanceValue {
                    amount: (old(self).effective_allowance(from, spender, current_tick)
                        - amount) as i128,
                    expiration_ledger: old(self).allowance_record(
                        from,
                        spender,
                    ).expiration_ledger,
                })
                &&& allowances_unchanged_except(*old(self), *final(self), from, spender)
                &&& final(self).auth_map() == old(self).auth_map()
                &&& final(self).admin_of() == old(self).admin_of()
                &&& final(self).metadata_of() == old(self).metadata_of()
            },
    {
        if !spender_auth {
            return Err(Error::Unauthorized);
        }
        match check_nonnegative_amount(amount) {
            Ok(()) => (),
            Err(e) => {
                return Err(e);
            },
        }
        let allowance = read_allowance(self, from, spender, current_tick);
        if allowance.amount < amount {
            return Err(Error::InsufficientAllowance);
        }
        if !is_authorized(self, from) {
            return Err(Error::Deauthorized);
        }
        let from_balance = read_balance(self, from);
        if from_balance < amount {
            return Err(Error::InsufficientBalance);
        }
        match spend_allowance(self, from, spender, amount, current_tick) {
            Ok(()) => (),
            Err(e) => {
                return Err(e);
            },
        }
        let ghost mid = *self;
        match spend_balance(self, from, amount) {
            Ok(()) => (),
            Err(e) => {
                return Err(e);
            },
        }
        proof {
            assert forall|f: u64, s: u64| !(f == from && s == spender) implies #[trigger] self
                .allowance_record(f, s) == old(self).allowance_record(f, s) by {
                assert(mid.allowance_record(f, s) == old(self).allowance_record(f, s));
            }
        }
        Ok(())
    }

    /// The outcome of [`Token::clawback`] as a function of the starting
    /// state.
    pub open spec fn spec_clawback_result(self, from: u64, amount: i128, admin_auth: bool) -> Result<
        (),
        Error,
    > {
        if amount < 0 {
            Err(Error::InvalidAmount)
        } else if !self.has_admin() {
            Err(Error::NotInitialized)
        } else if !admin_auth {
            Err(Error::Unauthorized)
        } else if !self.authorized_of(from) {
            Err(Error::Deauthorized)
        } else if self.balance_of(from) < amount {
            Err(Error::InsufficientBalance)
        } else {
            Ok(())
        }
    }

    /// Destroys `amount` of `from`'s balance on the administrator's
    /// authority.
    pub fn clawback(&mut self, from: u64, amount: i128, admin_auth: bool) -> (r: Result<(), Error>)
        requires
            old(self).wf(),
        ensures
            final(self).wf(),
            r == old(self).spec_clawback_result(from, amount, admin_auth),
            r is Err ==> *final(self) == *old(self),
            r is Ok ==> {
                &&& balances_debited(*old(self), *final(self), from, amount)
                &&& final(self).allowances_map() == old(self).allowances_map()
                &&& final(self).auth_map() == old(self).auth_map()
                &&& final(self).admin_of() == old(self).admin_of()
                &&& final(self).metadata_of() == old(self).metadata_of()
            },
    {
        match check_nonnegative_amount(amount) {
            Ok(()) => (),
            Err(e) => {
                return Err(e);
            },
        }
        if !has_administrator(self) {
            return Err(Error::NotInitialized);
        }
        if !admin_auth {
            return Err(Error::Unauthorized);
        }
        spend_balance(self, from, amount)
    }

    /// Switches the authorization flag of `id` on the administrator's
    /// authority; the balance of `id` is untouched.
    pub fn set_authorized(&mut self, id: u64, authorize: bool, admin_auth: bool) -> (r: Result<
        (),
        Error,
    >)
        requires
            old(self).wf(),
        ensures
            final(self).wf(),
            r == if !old(self).has_admin() {
                Err::<(), Error>(Error::NotInitialized)
            } else if !admin_auth {
                Err::<(), Error>(Error::Unauthorized)
            } else {
                Ok::<(), Error>(())
            },
            r is Err ==> *final(self) == *old(self),
            r is Ok ==> {
                &&& final(self).auth_map() == old(self).auth_map().insert(id, authorize)
                &&& final(self).balances_map() == old(self).balances_map()
                &&& final(self).allowances_map() == old(self).allowances_map()
                &&& final(self).admin_of() == old(self).admin_of()
                &&& final(self).metadata_of() == old(self).metadata_of()
            },
    {
        if !has_administrator(self) {
            return Err(Error::NotInitialized);
        }
        if !admin_auth {
            return Err(Error::Unauthorized);
        }
        write_authorization(self, id, authorize);
        Ok(())
    }

    /// The outcome of [`Token::mint`] as a function of the starting state.
    pub open spec fn spec_mint_result(self, to: u64, amount: i128, admin_auth: bool) -> Result<
        (),
        Error,
    > {
        if amount < 0 {
            Err(Error::InvalidAmount)
        } else if !self.has_admin() {
            Err(Error::NotInitialized)
        } else if !admin_auth {
            Err(Error::Unauthorized)
        } else if !self.authorized_of(to) {
            Err(Error::Deauthorized)
        } else if self.balance_of(to) + amount > i128::MAX {
            Err(Error::Overflow)
        } else {
            Ok(())
        }
    }

    /// Creates `amount` new units on `to`'s balance on the
    /// administrator's authority.
    pub fn mint(&mut self, to: u64, amount: i128, admin_auth: bool) -> (r: Result<(), Error>)
        requires
            old(self).wf(),
        ensures
            final(self).wf(),
            r == old(self).spec_mint_result(to, amount, admin_auth),
            r is Err ==> *final(self) == *old(self),
            r is Ok ==> {
                &&& balances_credited(*old(self), *final(self), to, amount)
                &&& final(self).allowances_map() == old(self).allowances_map()
                &&& final(self).auth_map() == old(self).auth_map()
                &&& final(self).admin_of() == old(self).admin_of()
                &&& final(self).metadata_of() == old(self).metadata_of()
            },
    {
        match check_nonnegative_amount(amount) {
            Ok(()) => (),
            Err(e) => {
                return Err(e);
            },
        }
        if !has_administrator(self) {
            return Err(Error::NotInitialized);
        }
        if !admin_auth {
            return Err(Error::Unauthorized);
        }
        receive_balance(self, to, amount)
    }

    /// Replaces the administrator on the current administrator's
    /// authority.
    pub fn set_admin(&mut self, new_admin: u64, admin_auth: bool) -> (r: Result<(), Error>)
        requires
            old(self).wf(),
        ensures
            final(self).wf(),
            r == if !old(self).has_admin() {
                Err::<(), Error>(Error::NotInitialized)
            } else if !admin_auth {
                Err::<(), Error>(Error::Unauthorized)
            } else {
                Ok::<(), Error>(())
            },
            r is Err ==> *final(self) == *old(self),
            r is Ok ==> {
                &&& final(self).admin_of() == Some(new_admin)
                &&& final(self).balances_map() == old(self).balances_map()
                &&& final(self).allowances_map() == old(self).allowances_map()
                &&& final(self).auth_map() == old(self).auth_map()
                &&& final(self).metadata_of() == old(self).metadata_of()
            },
    {
        if !has_administrator(self) {
            return Err(Error::NotInitialized);
        }
        if !admin_auth {
            return Err(Error::Unauthorized);
        }
        write_administrator(self, new_admin);
        Ok(())
    }
}

/// In a well-formed ledger no balance is ever negative; since every
/// operation preserves well-formedness, this holds of every reachable
/// state.
pub proof fn balances_nonnegative(t: Token, p: u64)
    requires
        t.wf(),
    ensures
        t.balance_of(p) >= 0,
{
}

/// Up to and including its expiration tick an allowance reads at its
/// stored amount.
pub proof fn allowance_live_until_expiration(t: Token, from: u64, spender: u64, current_tick: u64)
    requires
        current_tick <= t.allowance_record(from, spender).expiration_ledger,
    ensures
        t.effective_allowance(from, spender, current_tick) == t.allowance_record(
            from,
            spender,
        ).amount,
{
}

/// Past its expiration tick an allowance reads as zero, and any
/// positive delegated spend is refused for want of allowance.
pub proof fn allowance_expiry(
    t: Token,
    spender: u64,
    from: u64,
    to: u64,
    amount: i128,
    current_tick: u64,
)
    requires
        t.allowance_record(from, spender).expiration_ledger < current_tick,
        amount > 0,
    ensures
        t.effective_allowance(from, spender, current_tick) == 0,
        t.spec_transfer_from_result(spender, from, to, amount, current_tick, true) == Err::<
            (),
            Error,
        >(Error::InsufficientAllowance),
{
}

} // verus!
