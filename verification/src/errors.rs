//! The failure taxonomy shared by the token ledger and the escrow.

use vstd::prelude::*;

verus! {

/// Every way an operation of the ledger or of the escrow can fail.
///
/// Failures are reported synchronously to the caller; a failed operation
/// leaves all state exactly as it was.
#[derive(Clone, Copy, Debug, PartialEq, Eq)]
pub enum Error {
    /// A second call to an `initialize` on already-configured state.
    AlreadyInitialized,
    /// An operation that needs configured state found none.
    NotInitialized,
    /// A negative amount, or zero where a positive amount is required.
    InvalidAmount,
    /// A metadata decimal count that does not fit in eight bits.
    InvalidDecimal,
    /// A positive allowance whose expiration tick already lies in the past.
    InvalidExpiration,
    /// A spend of more than the payer's balance.
    InsufficientBalance,
    /// A delegated spend of more than the effective allowance.
    InsufficientAllowance,
    /// Arithmetic that would exceed the numeric range.
    Overflow,
    /// The host did not attest the required principal's authorization.
    Unauthorized,
    /// A principal whose authorization flag has been switched off.
    Deauthorized,
    /// A withdrawal while the escrow is still running.
    StillRunning,
    /// A deposit while the escrow is no longer running.
    NotRunning,
    /// A successful escrow pays out to the recipient alone.
    OnlyRecipientMayWithdraw,
    /// An expired escrow refunds depositors, never the recipient.
    RecipientMayNotWithdraw,
    /// The recipient has already withdrawn the escrowed funds.
    AlreadyClaimed,
    /// The recipient may not pledge toward its own target.
    RecipientMayNotDeposit,
}

} // verus!
