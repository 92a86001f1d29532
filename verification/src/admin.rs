//! The token's administrator record.

use crate::contract::Token;
use vstd::prelude::*;

verus! {

/// Whether an administrator has been recorded, i.e. whether the token has
/// been initialized.
pub fn has_administrator(t: &Token) -> (r: bool)
    ensures
        r == t.has_admin(),
{
    t.admin.is_some()
}

/// The recorded administrator of an initialized token.
pub fn read_administrator(t: &Token) -> (r: u64)
    requires
        t.has_admin(),
    ensures
        t.admin_of() == Some(r),
{
    if let Some(id) = t.admin {
        id
    } else {
        unreached()
    }
}

/// Records `id` as the administrator, replacing any previous one.
pub fn write_administrator(t: &mut Token, id: u64)
    requires
        old(t).wf(),
    ensures
        final(t).wf(),
        final(t).admin_of() == Some(id),
        final(t).metadata_of() == old(t).metadata_of(),
        final(t).balances_map() == old(t).balances_map(),
        final(t).allowances_map() == old(t).allowances_map(),
        final(t).auth_map() == old(t).auth_map(),
{
    t.admin = Some(id);
    proof {
        Token::lemma_wf_unchanged_tables(*old(t), *t);
    }
}

} // verus!
