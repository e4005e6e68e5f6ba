use vstd::prelude::*;

verus! {

/// Why the external token-transfer primitive refused to move funds.
/// A refused transfer commits nothing: both accounts stay as they were.
#[derive(Clone, Copy, Debug, PartialEq, Eq, Structural)]
pub enum TransferError {
    /// A derivation proof was presented whose seeds derive no valid address.
    InvalidAuthorityProof,
    /// The presented authority is not the source account's authorized mover.
    OwnerMismatch,
    /// A participating token account does not hold the declared asset.
    MintMismatch,
    /// The declared decimal precision differs from the asset's.
    DecimalsMismatch,
    /// The source account holds less than the requested amount.
    InsufficientBalance,
    /// The destination balance would not fit in a token-native integer.
    AmountOverflow,
}

/// Every failure of a vault operation, each a distinct named condition.
/// There is no generic "operation failed" case.
#[derive(Clone, Copy, Debug, PartialEq, Eq, Structural)]
pub enum VaultError {
    /// The vault registry record already exists; it is created exactly once.
    AlreadyInitialized,
    /// A deposit was requested with a zero amount.
    InvalidDepositAmount,
    /// A withdrawal was requested with a zero amount.
    InvalidWithdrawAmount,
    /// Asset identity mismatch across the participating accounts.
    InvalidMint,
    /// The custody account does not hold strictly more than the requested
    /// withdrawal amount.
    InsufficientFunds,
    /// The token-transfer primitive refused the transfer; the operation
    /// aborts with no state change.
    TransferFailed(TransferError),
}

} // verus!
