//! The errors an escrow operation can abort with.

use vstd::prelude::*;

verus! {

/// Errors raised by the escrow protocol's own checks.
#[derive(Clone, Copy, PartialEq, Eq, Structural, Debug)]
pub enum ErrorCode {
    /// The funding or refund wallet is not owned by the claimed party, or its
    /// asset does not match the escrowed asset.
    WalletToWithdrawFromInvalid,
    /// A supplied address or discriminator does not match the expected
    /// derivation, or a stored party or asset does not match the supplied
    /// accounts.
    InvalidStateIdx,
    /// The custody account's spending authority is not the escrow record's
    /// derived address.
    DelegateNotSetCorrectly,
    /// The operation was attempted in the wrong stage, or an unrecognized
    /// stage code was read back.
    StageInvalid,
}

/// Errors surfaced by the asset-transfer and account-closure primitives.
#[derive(Clone, Copy, PartialEq, Eq, Structural, Debug)]
pub enum TokenError {
    /// The source or destination account is not initialized (or was closed).
    UninitializedAccount,
    /// The source and destination accounts hold different assets.
    MintMismatch,
    /// The signing authority is not the source account's owner.
    OwnerMismatch,
    /// The source account holds less than the requested amount.
    InsufficientFunds,
    /// The destination balance would exceed the largest representable amount.
    Overflow,
    /// An account with a remaining balance cannot be closed.
    NonZeroBalance,
}

/// Any error an escrow operation can abort with: one of the protocol's own
/// codes, or one surfaced from a ledger primitive.
#[derive(Clone, Copy, PartialEq, Eq, Structural, Debug)]
pub enum EscrowError {
    Escrow(ErrorCode),
    Token(TokenError),
}

} // verus!
