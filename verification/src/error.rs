use vstd::prelude::*;

verus! {

/// Errors of the vault's state machine and of its guards.
///
/// Every check fails fast: an operation that returns one of these has
/// requested no ledger action and proposed no state write.
#[derive(Clone, Copy, Debug, PartialEq, Eq)]
pub enum VaultError {
    /// A caller-supplied custody address does not match the recomputed
    /// derivation.
    InvalidAddress,
    /// The caller is not the identity recorded as the record's signer.
    NotOwner,
    /// The one-shot withdrawal has already completed.
    Completed,
    /// Checked addition of a deposit would overflow the 64-bit balance.
    Overflow,
    /// The withdrawal amount computes to zero or exceeds the balance.
    InsufficientFunds,
    /// The maturation delay has not elapsed since the last deposit.
    TooSoon,
    /// Stored or inbound bytes do not decode to a record or an operation.
    Malformed,
}

} // verus!
