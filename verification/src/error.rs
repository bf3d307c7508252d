use vstd::prelude::*;

verus! {

/// Errors raised by the ledger operations.
///
/// `InvalidAmount` belongs to the instruction interface's declared
/// error codes; no operation currently produces it.
#[derive(Clone, Copy, Debug, PartialEq, Eq, Structural)]
pub enum TokenError {
    /// The supplied amount is not acceptable (declared, never produced).
    InvalidAmount,
    /// The source account holds fewer tokens than the requested transfer.
    InsufficientBalance,
    /// The address chosen for a new mint or token account is already in
    /// use, or an associated token account for the same mint and owner
    /// already exists.
    AccountAlreadyInitialized,
    /// No mint record lives at the given address.
    MintNotFound,
    /// No token-account record lives at the given address.
    AccountNotFound,
    /// The token account belongs to a different mint.
    MintMismatch,
    /// The signer is not the authority entitled to perform the operation.
    Unauthorized,
    /// The operation would push a balance or a supply above `u64::MAX`.
    Overflow,
}

} // verus!
