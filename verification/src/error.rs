use vstd::prelude::*;

verus! {

/// The one error kind a failed operation reports.
#[derive(Clone, Copy, Debug, PartialEq, Eq, Structural)]
pub enum EscrowError {
    /// A supplied address is not the one that derivation yields.
    InvalidDerivation,
    /// A supplied asset account is of another asset type than the record names.
    AssetMismatch,
    /// The signer is not the required identity, or an authority proof does not re-derive.
    Unauthorized,
    /// The source balance is below the amount to move.
    InsufficientFunds,
    /// A record or vault already stands at the address.
    AlreadyExists,
    /// No record, vault or holding stands at the address.
    NotFound,
    /// The destination balance would exceed `u64::MAX`.
    Overflow,
}

} // verus!
