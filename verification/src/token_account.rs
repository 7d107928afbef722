//! A model of the ledger's asset-holding accounts and of the two primitives
//! the escrow consumes: `transfer` and `close_account`. The host ledger
//! executes these; the escrow logic only depends on the account fields they
//! read and write, which this model states exactly.

use vstd::prelude::*;
use crate::errors::TokenError;
use crate::identity::Identity;

verus! {

/// An asset-holding account: its owner (spending authority), the asset it
/// holds, its balance, and whether it currently exists on the ledger.
#[derive(Clone, Copy, PartialEq, Eq, Structural, Debug)]
pub struct TokenAccount {
    /// The sole identity allowed to debit or close the account.
    pub owner: Identity,
    /// The fungible asset this account holds.
    pub mint: Identity,
    /// The balance, in base units of the asset.
    pub amount: u64,
    /// False before creation and after closure.
    pub initialized: bool,
}

/// What the transfer primitive does: move `amount` units from `from` to `to`
/// under `authority`, or fail without moving anything. Returns the result and
/// the two accounts after the call.
pub open spec fn spec_transfer(
    from: TokenAccount,
    to: TokenAccount,
    authority: Identity,
    amount: u64,
) -> (Result<(), TokenError>, TokenAccount, TokenAccount) {
    if !from.initialized || !to.initialized {
        (Err(TokenError::UninitializedAccount), from, to)
    } else if from.mint != to.mint {
        (Err(TokenError::MintMismatch), from, to)
    } else if authority != from.owner {
        (Err(TokenError::OwnerMismatch), from, to)
    } else if from.amount < amount {
        (Err(TokenError::InsufficientFunds), from, to)
    } else if to.amount + amount > u64::MAX {
        (Err(TokenError::Overflow), from, to)
    } else {
        (
            Ok(()),
            TokenAccount { amount: (from.amount - amount) as u64, ..from },
            TokenAccount { amount: (to.amount + amount) as u64, ..to },
        )
    }
}

/// What the closure primitive does: close a drained account under its owner's
/// authority, or fail leaving it untouched. Returns the result and the account
/// after the call.
pub open spec fn spec_close(
    account: TokenAccount,
    authority: Identity,
) -> (Result<(), TokenError>, TokenAccount) {
    if !account.initialized {
        (Err(TokenError::UninitializedAccount), account)
    } else if authority != account.owner {
        (Err(TokenError::OwnerMismatch), account)
    } else if account.amount != 0 {
        (Err(TokenError::NonZeroBalance), account)
    } else {
        (Ok(()), TokenAccount { initialized: false, ..account })
    }
}

/// Move `amount` units of the asset from `from` to `to`, authorized by
/// `authority`. Either the full amount moves, or nothing does.
pub fn transfer(
    from: &mut TokenAccount,
    to: &mut TokenAccount,
    authority: &Identity,
    amount: u64,
) -> (r: Result<(), TokenError>)
    ensures
        ({
            let (res, f2, t2) = spec_transfer(*old(from), *old(to), *authority, amount);
            r == res && *final(from) == f2 && *final(to) == t2
        }),
        r is Err ==> *final(from) == *old(from) && *final(to) == *old(to),
        r is Ok ==> final(from).amount == old(from).amount - amount
            && final(to).amount == old(to).amount + amount,
{
    if !from.initialized || !to.initialized {
        Err(TokenError::UninitializedAccount)
    } else if from.mint != to.mint {
        Err(TokenError::MintMismatch)
    } else if *authority != from.owner {
        Err(TokenError::OwnerMismatch)
    } else if from.amount < amount {
        Err(TokenError::InsufficientFunds)
    } else if amount > u64::MAX - to.amount {
        Err(TokenError::Overflow)
    } else {
        from.amount = from.amount - amount;
        to.amount = to.amount + amount;
        Ok(())
    }
}

/// Close a drained account, authorized by its owner; the ledger reclaims its
/// storage.
pub fn close_account(account: &mut TokenAccount, authority: &Identity) -> (r: Result<
    (),
    TokenError,
>)
    ensures
        ({
            let (res, a2) = spec_close(*old(account), *authority);
            r == res && *final(account) == a2
        }),
        r is Err ==> *final(account) == *old(account),
        r is Ok ==> !final(account).initialized,
{
    if !account.initialized {
        Err(TokenError::UninitializedAccount)
    } else if *authority != account.owner {
        Err(TokenError::OwnerMismatch)
    } else if account.amount != 0 {
        Err(TokenError::NonZeroBalance)
    } else {
        account.initialized = false;
        Ok(())
    }
}

} // verus!
