//! The token's descriptive metadata: display decimals, name and symbol.

use crate::contract::Token;
use vstd::prelude::*;

verus! {

/// Pure configuration attached to a token at initialization.
pub struct TokenMetadata {
    pub decimal: u32,
    pub name: String,
    pub symbol: String,
}

/// The number of display decimals of an initialized token.
pub fn read_decimal(t: &Token) -> (r: u32)
    requires
        t.metadata_of() is Some,
    ensures
        r == t.metadata_of().unwrap().decimal,
{
    if let Some(m) = &t.metadata {
        m.decimal
    } else {
        unreached()
    }
}

/// The display name of an initialized token.
pub fn read_name(t: &Token) -> (r: String)
    requires
        t.metadata_of() is Some,
    ensures
        r == t.metadata_of().unwrap().name,
{
    if let Some(m) = &t.metadata {
        m.name.clone()
    } else {
        unreached()
    }
}

/// The display symbol of an initialized token.
pub fn read_symbol(t: &Token) -> (r: String)
    requires
        t.metadata_of() is Some,
    ensures
        r == t.metadata_of().unwrap().symbol,
{
    if let Some(m) = &t.metadata {
        m.symbol.clone()
    } else {
        unreached()
    }
}

/// Stores the token's metadata, replacing whatever was there.
pub fn write_metadata(t: &mut Token, metadata: TokenMetadata)
    requires
        old(t).wf(),
    ensures
        final(t).wf(),
        final(t).metadata_of() == Some(metadata),
        final(t).admin_of() == old(t).admin_of(),
        final(t).balances_map() == old(t).balances_map(),
        final(t).allowances_map() == old(t).allowances_map(),
        final(t).auth_map() == old(t).auth_map(),
{
    t.metadata = Some(metadata);
    proof {
        Token::lemma_wf_unchanged_tables(*old(t), *t);
    }
}

} // verus!
