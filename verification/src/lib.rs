//! A pledge-based escrow ledger.
//!
//! Two components make up the crate. The fungible token ledger
//! ([`contract::Token`]) keeps per-principal balances, spending
//! allowances with expiration ticks, and authorization flags. The escrow
//! state machine ([`crowdfund::Crowdfund`]) collects deposits toward a
//! funding target by a deadline and releases them to a recipient on
//! success, or back to the depositors on expiry.
//!
//! The hosting environment is modelled by plain values: principals are
//! `u64` identities, the logical clock is a `u64` tick passed into each
//! operation, and the host's caller-authorization verdict is a `bool`
//! argument. Every operation is total: precondition violations are
//! reported as typed [`errors::Error`] values and leave all state
//! untouched.

pub mod admin;
pub mod allowance;
pub mod balance;
pub mod contract;
pub mod crowdfund;
pub mod errors;
pub mod events;
pub mod metadata;
pub mod storage_types;
pub mod sums;
