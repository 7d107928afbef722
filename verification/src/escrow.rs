//! The three escrow operations — open, complete, pullback — and the shared
//! fund-egress routine. Each operation is a single atomic state transition on
//! the supplied account set: it either applies in full or leaves every account
//! unchanged and reports why.

use vstd::prelude::*;
use crate::derivation::{
    derive_state_address, derive_wallet_address, spec_state_address, spec_wallet_address,
};
use crate::errors::{ErrorCode, EscrowError, TokenError};
use crate::identity::Identity;
use crate::stage::Stage;
use crate::state::EscrowState;
use crate::token_account::{close_account, spec_close, spec_transfer, transfer, TokenAccount};

verus! {

/// What the shared egress routine does: re-derive the escrow record's address
/// from the seeds, sign as that derived authority, move `amount` out of the
/// custody account to the destination, and close the custody account if it is
/// drained. Returns the result, the custody account and the destination after
/// the call; on any error both accounts are unchanged.
pub open spec fn spec_transfer_escrow_out(
    from_user: Identity,
    to_user: Identity,
    mint_of_token_being_sent: Identity,
    escrow_wallet: TokenAccount,
    escrow_id: u64,
    escrow_state: Identity,
    state_bump: u8,
    destination_wallet: TokenAccount,
    amount: u64,
    program_id: Identity,
) -> (Result<(), EscrowError>, TokenAccount, TokenAccount) {
    match spec_state_address(
        from_user,
        to_user,
        mint_of_token_being_sent,
        escrow_id,
        state_bump,
        program_id,
    ) {
        None => (
            Err(EscrowError::Escrow(ErrorCode::InvalidStateIdx)),
            escrow_wallet,
            destination_wallet,
        ),
        Some(authority) => if authority != escrow_state {
            (
                Err(EscrowError::Escrow(ErrorCode::DelegateNotSetCorrectly)),
                escrow_wallet,
                destination_wallet,
            )
        } else {
            let (tr, w2, d2) = spec_transfer(escrow_wallet, destination_wallet, authority, amount);
            match tr {
                Err(e) => (Err(EscrowError::Token(e)), escrow_wallet, destination_wallet),
                Ok(_) => if w2.amount == 0 {
                    let (cr, w3) = spec_close(w2, authority);
                    match cr {
                        Err(e) => (Err(EscrowError::Token(e)), escrow_wallet, destination_wallet),
                        Ok(_) => (Ok(()), w3, d2),
                    }
                } else {
                    (Ok(()), w2, d2)
                },
            }
        },
    }
}

/// Move the full escrowed amount out of the custody account to the given
/// destination, signing as the escrow record's derived address, and close the
/// custody account if its balance reaches zero after an explicit re-read.
/// Shared verbatim by complete and pullback, which differ only in the
/// destination wallet and the stage they then record.
pub fn transfer_escrow_out(
    from_user: &Identity,
    to_user: &Identity,
    mint_of_token_being_sent: &Identity,
    escrow_wallet: &mut TokenAccount,
    escrow_id: u64,
    escrow_state: &Identity,
    state_bump: u8,
    destination_wallet: &mut TokenAccount,
    amount: u64,
    program_id: &Identity,
) -> (r: Result<(), EscrowError>)
    ensures
        ({
            let (res, w2, d2) = spec_transfer_escrow_out(
                *from_user,
                *to_user,
                *mint_of_token_being_sent,
                *old(escrow_wallet),
                escrow_id,
                *escrow_state,
                state_bump,
                *old(destination_wallet),
                amount,
                *program_id,
            );
            r == res && *final(escrow_wallet) == w2 && *final(destination_wallet) == d2
        }),
        r is Err ==> *final(escrow_wallet) == *old(escrow_wallet) && *final(destination_wallet)
            == *old(destination_wallet),
        r is Ok ==> final(destination_wallet).amount == old(destination_wallet).amount + amount,
        r is Ok ==> final(escrow_wallet).amount == old(escrow_wallet).amount - amount,
        r is Ok && old(escrow_wallet).amount == amount ==> final(escrow_wallet).amount == 0
            && !final(escrow_wallet).initialized,
{
    let authority = match derive_state_address(
        from_user,
        to_user,
        mint_of_token_being_sent,
        escrow_id,
        state_bump,
        program_id,
    ) {
        Some(a) => a,
        None => {
            return Err(EscrowError::Escrow(ErrorCode::InvalidStateIdx));
        },
    };
    if authority != *escrow_state {
        return Err(EscrowError::Escrow(ErrorCode::DelegateNotSetCorrectly));
    }
    let wallet_before = *escrow_wallet;
    let destination_before = *destination_wallet;
    match transfer(escrow_wallet, destination_wallet, &authority, amount) {
        Ok(_) => {},
        Err(e) => {
            return Err(EscrowError::Token(e));
        },
    }
    // Close only after re-reading a zero balance, never on assumption.
    if escrow_wallet.amount == 0 {
        match close_account(escrow_wallet, &authority) {
            Ok(_) => {},
            Err(e) => {
                *escrow_wallet = wallet_before;
                *destination_wallet = destination_before;
                return Err(EscrowError::Token(e));
            },
        }
    }
    Ok(())
}

/// The account set an open request supplies: the two entities being created,
/// the addresses they were created at, the parties, the asset, and the
/// sender's funding wallet. `from_user` is the identity that signed the
/// request.
#[derive(Clone, Copy, PartialEq, Eq, Structural, Debug)]
pub struct InitializeNewEscrow {
    /// The escrow record being created; populated by the operation.
    pub escrow_state_account: EscrowState,
    /// The derived address the record was created at.
    pub escrow_state_address: Identity,
    /// The custody account being created; populated by the operation.
    pub escrow_wallet_account: TokenAccount,
    /// The derived address the custody account was created at.
    pub escrow_wallet_address: Identity,
    /// The sender: signs the request, funds the escrow, may pull back.
    pub from_user: Identity,
    /// The intended recipient.
    pub to_user: Identity,
    /// The fungible asset being escrowed.
    pub mint_of_token_being_sent: Identity,
    /// The sender's funding wallet.
    pub wallet_to_withdraw_from: TokenAccount,
    /// The program whose logic owns the derived addresses.
    pub program_id: Identity,
}

/// What open does: check both derived addresses against the caller-supplied
/// discriminators, check the funding wallet's owner and asset, then create the
/// custody account under the record's authority, move the amount into it, and
/// populate the record at stage `FundsDeposited`. Returns the result and the
/// account set after the call; on any error the account set is unchanged.
pub open spec fn spec_initialize_new_escrow(
    c: InitializeNewEscrow,
    escrow_id: u64,
    state_bump: u8,
    wallet_bump: u8,
    amount: u64,
) -> (Result<(), EscrowError>, InitializeNewEscrow) {
    let sd = spec_state_address(
        c.from_user,
        c.to_user,
        c.mint_of_token_being_sent,
        escrow_id,
        state_bump,
        c.program_id,
    );
    let wd = spec_wallet_address(
        c.from_user,
        c.to_user,
        c.mint_of_token_being_sent,
        escrow_id,
        wallet_bump,
        c.program_id,
    );
    if sd != Some(c.escrow_state_address) || wd != Some(c.escrow_wallet_address) {
        (Err(EscrowError::Escrow(ErrorCode::InvalidStateIdx)), c)
    } else if !(c.wallet_to_withdraw_from.initialized && c.wallet_to_withdraw_from.owner
        == c.from_user && c.wallet_to_withdraw_from.mint == c.mint_of_token_being_sent) {
        (Err(EscrowError::Escrow(ErrorCode::WalletToWithdrawFromInvalid)), c)
    } else if c.wallet_to_withdraw_from.amount < amount {
        (Err(EscrowError::Token(TokenError::InsufficientFunds)), c)
    } else {
        (
            Ok(()),
            InitializeNewEscrow {
                escrow_state_account: EscrowState {
                    id: escrow_id,
                    amount,
                    from_user: c.from_user,
                    to_user: c.to_user,
                    mint_of_token_being_sent: c.mint_of_token_being_sent,
                    escrow_wallet_account: c.escrow_wallet_address,
                    stage: Stage::FundsDeposited.spec_code(),
                },
                escrow_wallet_account: TokenAccount {
                    owner: c.escrow_state_address,
                    mint: c.mint_of_token_being_sent,
                    amount,
                    initialized: true,
                },
                wallet_to_withdraw_from: TokenAccount {
                    amount: (c.wallet_to_withdraw_from.amount - amount) as u64,
                    ..c.wallet_to_withdraw_from
                },
                ..c
            },
        )
    }
}

/// Open an escrow: create the record and the custody account at their derived
/// addresses, move `amount` from the sender's funding wallet into custody, and
/// set the stage to `FundsDeposited`.
pub fn initialize_new_escrow(
    ctx: &mut InitializeNewEscrow,
    escrow_id: u64,
    state_bump: u8,
    wallet_bump: u8,
    amount: u64,
) -> (r: Result<(), EscrowError>)
    requires
        // The entities must not exist yet at the derived addresses.
        !old(ctx).escrow_wallet_account.initialized,
        // An escrow commits a positive quantity.
        amount > 0,
    ensures
        ({
            let (res, c2) = spec_initialize_new_escrow(
                *old(ctx),
                escrow_id,
                state_bump,
                wallet_bump,
                amount,
            );
            r == res && *final(ctx) == c2
        }),
        r is Err ==> *final(ctx) == *old(ctx),
        r is Ok ==> final(ctx).escrow_state_account.stage == Stage::FundsDeposited.spec_code()
            && final(ctx).escrow_wallet_account.amount == amount,
        r is Ok ==> final(ctx).escrow_wallet_account.owner == old(ctx).escrow_state_address
            && final(ctx).escrow_state_account.wf(),
{
    let state_derived = derive_state_address(
        &ctx.from_user,
        &ctx.to_user,
        &ctx.mint_of_token_being_sent,
        escrow_id,
        state_bump,
        &ctx.program_id,
    );
    let wallet_derived = derive_wallet_address(
        &ctx.from_user,
        &ctx.to_user,
        &ctx.mint_of_token_being_sent,
        escrow_id,
        wallet_bump,
        &ctx.program_id,
    );
    let state_ok = match state_derived {
        Some(a) => a == ctx.escrow_state_address,
        None => false,
    };
    let wallet_ok = match wallet_derived {
        Some(a) => a == ctx.escrow_wallet_address,
        None => false,
    };
    if !state_ok || !wallet_ok {
        return Err(EscrowError::Escrow(ErrorCode::InvalidStateIdx));
    }
    if !(ctx.wallet_to_withdraw_from.initialized && ctx.wallet_to_withdraw_from.owner
        == ctx.from_user && ctx.wallet_to_withdraw_from.mint == ctx.mint_of_token_being_sent) {
        return Err(EscrowError::Escrow(ErrorCode::WalletToWithdrawFromInvalid));
    }
    // Create the custody account under the record's derived authority, then
    // fund it with a direct, sender-signed transfer.
    let mut custody = TokenAccount {
        owner: ctx.escrow_state_address,
        mint: ctx.mint_of_token_being_sent,
        amount: 0,
        initialized: true,
    };
    let mut funding = ctx.wallet_to_withdraw_from;
    match transfer(&mut funding, &mut custody, &ctx.from_user, amount) {
        Ok(_) => {},
        Err(e) => {
            return Err(EscrowError::Token(e));
        },
    }
    ctx.escrow_state_account = EscrowState {
        id: escrow_id,
        amount,
        from_user: ctx.from_user,
        to_user: ctx.to_user,
        mint_of_token_being_sent: ctx.mint_of_token_being_sent,
        escrow_wallet_account: ctx.escrow_wallet_address,
        stage: Stage::FundsDeposited.to_code(),
    };
    ctx.escrow_wallet_account = custody;
    ctx.wallet_to_withdraw_from = funding;
    Ok(())
}

/// The account set a complete request supplies. `to_user` is the identity
/// that signed the request.
#[derive(Clone, Copy, PartialEq, Eq, Structural, Debug)]
pub struct CompleteEscrow {
    /// The escrow record.
    pub escrow_state_account: EscrowState,
    /// The derived address the record sits at.
    pub escrow_state_address: Identity,
    /// The custody account holding the escrowed funds.
    pub escrow_wallet_account: TokenAccount,
    /// The derived address the custody account sits at.
    pub escrow_wallet_address: Identity,
    /// The recipient's receiving wallet; created on demand if absent.
    pub wallet_to_deposit_to: TokenAccount,
    /// The sender recorded at open.
    pub from_user: Identity,
    /// The recipient: signs the request.
    pub to_user: Identity,
    /// The fungible asset being escrowed.
    pub mint_of_token_being_sent: Identity,
    /// The program whose logic owns the derived addresses.
    pub program_id: Identity,
}

/// Whether the stored record matches the parties and asset supplied with the
/// request; a mismatch is a structural error, not a business error.
pub open spec fn record_matches_complete(c: CompleteEscrow) -> bool {
    c.escrow_state_account.from_user == c.from_user && c.escrow_state_account.to_user == c.to_user
        && c.escrow_state_account.mint_of_token_being_sent == c.mint_of_token_being_sent
}

/// The recipient's receiving wallet as the operation proceeds with it: the
/// supplied wallet if it exists, else a fresh one created for the recipient.
pub open spec fn deposit_target(c: CompleteEscrow) -> TokenAccount {
    if c.wallet_to_deposit_to.initialized {
        c.wallet_to_deposit_to
    } else {
        TokenAccount {
            owner: c.to_user,
            mint: c.mint_of_token_being_sent,
            amount: 0,
            initialized: true,
        }
    }
}

/// What complete does: check both derived addresses, check the stored record
/// against the supplied accounts, create the recipient's wallet if absent,
/// require stage `FundsDeposited`, move the escrowed amount to the recipient
/// through the shared egress routine, and record stage `EscrowCompleted`.
/// Returns the result and the account set after the call; on any error the
/// account set is unchanged.
pub open spec fn spec_complete_escrow(
    c: CompleteEscrow,
    escrow_id: u64,
    state_bump: u8,
    wallet_bump: u8,
) -> (Result<(), EscrowError>, CompleteEscrow) {
    let sd = spec_state_address(
        c.from_user,
        c.to_user,
        c.mint_of_token_being_sent,
        escrow_id,
        state_bump,
        c.program_id,
    );
    let wd = spec_wallet_address(
        c.from_user,
        c.to_user,
        c.mint_of_token_being_sent,
        escrow_id,
        wallet_bump,
        c.program_id,
    );
    if sd != Some(c.escrow_state_address) || wd != Some(c.escrow_wallet_address) {
        (Err(EscrowError::Escrow(ErrorCode::InvalidStateIdx)), c)
    } else if !record_matches_complete(c) {
        (Err(EscrowError::Escrow(ErrorCode::InvalidStateIdx)), c)
    } else if c.wallet_to_deposit_to.initialized && !(c.wallet_to_deposit_to.owner == c.to_user
        && c.wallet_to_deposit_to.mint == c.mint_of_token_being_sent) {
        (Err(EscrowError::Escrow(ErrorCode::InvalidStateIdx)), c)
    } else if Stage::spec_from(c.escrow_state_account.stage) != Ok::<Stage, ErrorCode>(
        Stage::FundsDeposited,
    ) {
        (Err(EscrowError::Escrow(ErrorCode::StageInvalid)), c)
    } else {
        let (er, w2, d2) = spec_transfer_escrow_out(
            c.from_user,
            c.to_user,
            c.mint_of_token_being_sent,
            c.escrow_wallet_account,
            escrow_id,
            c.escrow_state_address,
            state_bump,
            deposit_target(c),
            c.escrow_state_account.amount,
            c.program_id,
        );
        match er {
            Err(e) => (Err(e), c),
            Ok(_) => (
                Ok(()),
                CompleteEscrow {
                    escrow_wallet_account: w2,
                    wallet_to_deposit_to: d2,
                    escrow_state_account: EscrowState {
                        stage: Stage::EscrowCompleted.spec_code(),
                        ..c.escrow_state_account
                    },
                    ..c
                },
            ),
        }
    }
}

/// Complete an escrow: with the stage at `FundsDeposited`, move the escrowed
/// amount from custody to the recipient's wallet (created on demand), close
/// the drained custody account, and set the stage to `EscrowCompleted`. The
/// terminal success path: no further transition is valid afterward.
pub fn complete_escrow(
    ctx: &mut CompleteEscrow,
    escrow_id: u64,
    state_bump: u8,
    wallet_bump: u8,
) -> (r: Result<(), EscrowError>)
    ensures
        ({
            let (res, c2) = spec_complete_escrow(*old(ctx), escrow_id, state_bump, wallet_bump);
            r == res && *final(ctx) == c2
        }),
        r is Err ==> *final(ctx) == *old(ctx),
        r is Ok ==> old(ctx).escrow_state_account.stage == Stage::FundsDeposited.spec_code(),
        r is Ok ==> final(ctx).escrow_state_account.stage == Stage::EscrowCompleted.spec_code()
            && final(ctx).escrow_state_account.wf(),
        r is Ok ==> final(ctx).wallet_to_deposit_to.amount == deposit_target(*old(ctx)).amount
            + old(ctx).escrow_state_account.amount,
        r is Ok && old(ctx).escrow_wallet_account.amount == old(ctx).escrow_state_account.amount
            ==> final(ctx).escrow_wallet_account.amount == 0
            && !final(ctx).escrow_wallet_account.initialized,
{
    let state_derived = derive_state_address(
        &ctx.from_user,
        &ctx.to_user,
        &ctx.mint_of_token_being_sent,
        escrow_id,
        state_bump,
        &ctx.program_id,
    );
    let wallet_derived = derive_wallet_address(
        &ctx.from_user,
        &ctx.to_user,
        &ctx.mint_of_token_being_sent,
        escrow_id,
        wallet_bump,
        &ctx.program_id,
    );
    let state_ok = match state_derived {
        Some(a) => a == ctx.escrow_state_address,
        None => false,
    };
    let wallet_ok = match wallet_derived {
        Some(a) => a == ctx.escrow_wallet_address,
        None => false,
    };
    if !state_ok || !wallet_ok {
        return Err(EscrowError::Escrow(ErrorCode::InvalidStateIdx));
    }
    if !(ctx.escrow_state_account.from_user == ctx.from_user && ctx.escrow_state_account.to_user
        == ctx.to_user && ctx.escrow_state_account.mint_of_token_being_sent
        == ctx.mint_of_token_being_sent) {
        return Err(EscrowError::Escrow(ErrorCode::InvalidStateIdx));
    }
    if ctx.wallet_to_deposit_to.initialized && !(ctx.wallet_to_deposit_to.owner == ctx.to_user
        && ctx.wallet_to_deposit_to.mint == ctx.mint_of_token_being_sent) {
        return Err(EscrowError::Escrow(ErrorCode::InvalidStateIdx));
    }
    let stage = match Stage::from(ctx.escrow_state_account.stage) {
        Ok(s) => s,
        Err(e) => {
            return Err(EscrowError::Escrow(e));
        },
    };
    if stage != Stage::FundsDeposited {
        return Err(EscrowError::Escrow(ErrorCode::StageInvalid));
    }
    let mut custody = ctx.escrow_wallet_account;
    let mut destination = if ctx.wallet_to_deposit_to.initialized {
        ctx.wallet_to_deposit_to
    } else {
        TokenAccount {
            owner: ctx.to_user,
            mint: ctx.mint_of_token_being_sent,
            amount: 0,
            initialized: true,
        }
    };
    match transfer_escrow_out(
        &ctx.from_user,
        &ctx.to_user,
        &ctx.mint_of_token_being_sent,
        &mut custody,
        escrow_id,
        &ctx.escrow_state_address,
        state_bump,
        &mut destination,
        ctx.escrow_state_account.amount,
        &ctx.program_id,
    ) {
        Ok(_) => {},
        Err(e) => {
            return Err(e);
        },
    }
    ctx.escrow_wallet_account = custody;
    ctx.wallet_to_deposit_to = destination;
    ctx.escrow_state_account = EscrowState {
        stage: Stage::EscrowCompleted.to_code(),
        ..ctx.escrow_state_account
    };
    Ok(())
}

/// The account set a pullback request supplies. `from_user` is the identity
/// that signed the request.
#[derive(Clone, Copy, PartialEq, Eq, Structural, Debug)]
pub struct PullbackEscrow {
    /// The escrow record.
    pub escrow_state_account: EscrowState,
    /// The derived address the record sits at.
    pub escrow_state_address: Identity,
    /// The custody account holding the escrowed funds.
    pub escrow_wallet_account: TokenAccount,
    /// The derived address the custody account sits at.
    pub escrow_wallet_address: Identity,
    /// The sender: signs the request.
    pub from_user: Identity,
    /// The recipient recorded at open.
    pub to_user: Identity,
    /// The fungible asset being escrowed.
    pub mint_of_token_being_sent: Identity,
    /// The sender's refund wallet.
    pub refund_wallet: TokenAccount,
    /// The program whose logic owns the derived addresses.
    pub program_id: Identity,
}

/// Whether the stored record matches the parties and asset supplied with the
/// request; a mismatch is a structural error, not a business error.
pub open spec fn record_matches_pullback(c: PullbackEscrow) -> bool {
    c.escrow_state_account.from_user == c.from_user && c.escrow_state_account.to_user == c.to_user
        && c.escrow_state_account.mint_of_token_being_sent == c.mint_of_token_being_sent
}

/// What pullback does: check both derived addresses, check the stored record
/// against the supplied accounts, check the refund wallet's owner and asset,
/// require a stage other than `EscrowCompleted` (it reads the stored stage and
/// rejects unknown codes), move the escrowed amount back to the sender through
/// the shared egress routine, and record stage `PullBackComplete`. Returns the
/// result and the account set after the call; on any error the account set is
/// unchanged. Note that the stage check is deliberately the permissive one —
/// any stage but `EscrowCompleted` passes it — so a record already at
/// `PullBackComplete` passes; such a request is then refused only because the
/// drained custody account no longer exists.
pub open spec fn spec_pullback_escrow(
    c: PullbackEscrow,
    escrow_id: u64,
    state_bump: u8,
    wallet_bump: u8,
) -> (Result<(), EscrowError>, PullbackEscrow) {
    let sd = spec_state_address(
        c.from_user,
        c.to_user,
        c.mint_of_token_being_sent,
        escrow_id,
        state_bump,
        c.program_id,
    );
    let wd = spec_wallet_address(
        c.from_user,
        c.to_user,
        c.mint_of_token_being_sent,
        escrow_id,
        wallet_bump,
        c.program_id,
    );
    if sd != Some(c.escrow_state_address) || wd != Some(c.escrow_wallet_address) {
        (Err(EscrowError::Escrow(ErrorCode::InvalidStateIdx)), c)
    } else if !record_matches_pullback(c) {
        (Err(EscrowError::Escrow(ErrorCode::InvalidStateIdx)), c)
    } else if !(c.refund_wallet.initialized && c.refund_wallet.owner == c.from_user
        && c.refund_wallet.mint == c.mint_of_token_being_sent) {
        (Err(EscrowError::Escrow(ErrorCode::WalletToWithdrawFromInvalid)), c)
    } else if Stage::spec_from(c.escrow_state_account.stage) is Err {
        (Err(EscrowError::Escrow(ErrorCode::StageInvalid)), c)
    } else if Stage::spec_from(c.escrow_state_account.stage) == Ok::<Stage, ErrorCode>(
        Stage::EscrowCompleted,
    ) {
        (Err(EscrowError::Escrow(ErrorCode::StageInvalid)), c)
    } else {
        let (er, w2, d2) = spec_transfer_escrow_out(
            c.from_user,
            c.to_user,
            c.mint_of_token_being_sent,
            c.escrow_wallet_account,
            escrow_id,
            c.escrow_state_address,
            state_bump,
            c.refund_wallet,
            c.escrow_state_account.amount,
            c.program_id,
        );
        match er {
            Err(e) => (Err(e), c),
            Ok(_) => (
                Ok(()),
                PullbackEscrow {
                    escrow_wallet_account: w2,
                    refund_wallet: d2,
                    escrow_state_account: EscrowState {
                        stage: Stage::PullBackComplete.spec_code(),
                        ..c.escrow_state_account
                    },
                    ..c
                },
            ),
        }
    }
}

/// Pull an escrow back: with the stage not at `EscrowCompleted`, move the
/// escrowed amount from custody back to the sender's refund wallet, close the
/// drained custody account, and set the stage to `PullBackComplete`.
pub fn pullback_escrow(
    ctx: &mut PullbackEscrow,
    escrow_id: u64,
    state_bump: u8,
    wallet_bump: u8,
) -> (r: Result<(), EscrowError>)
    ensures
        ({
            let (res, c2) = spec_pullback_escrow(*old(ctx), escrow_id, state_bump, wallet_bump);
            r == res && *final(ctx) == c2
        }),
        r is Err ==> *final(ctx) == *old(ctx),
        r is Ok ==> old(ctx).escrow_state_account.stage != Stage::EscrowCompleted.spec_code(),
        r is Ok ==> final(ctx).escrow_state_account.stage == Stage::PullBackComplete.spec_code()
            && final(ctx).escrow_state_account.wf(),
        r is Ok ==> final(ctx).refund_wallet.amount == old(ctx).refund_wallet.amount + old(
            ctx,
        ).escrow_state_account.amount,
        r is Ok && old(ctx).escrow_wallet_account.amount == old(ctx).escrow_state_account.amount
            ==> final(ctx).escrow_wallet_account.amount == 0
            && !final(ctx).escrow_wallet_account.initialized,
{
    let state_derived = derive_state_address(
        &ctx.from_user,
        &ctx.to_user,
        &ctx.mint_of_token_being_sent,
        escrow_id,
        state_bump,
        &ctx.program_id,
    );
    let wallet_derived = derive_wallet_address(
        &ctx.from_user,
        &ctx.to_user,
        &ctx.mint_of_token_being_sent,
        escrow_id,
        wallet_bump,
        &ctx.program_id,
    );
    let state_ok = match state_derived {
        Some(a) => a == ctx.escrow_state_address,
        None => false,
    };
    let wallet_ok = match wallet_derived {
        Some(a) => a == ctx.escrow_wallet_address,
        None => false,
    };
    if !state_ok || !wallet_ok {
        return Err(EscrowError::Escrow(ErrorCode::InvalidStateIdx));
    }
    if !(ctx.escrow_state_account.from_user == ctx.from_user && ctx.escrow_state_account.to_user
        == ctx.to_user && ctx.escrow_state_account.mint_of_token_being_sent
        == ctx.mint_of_token_being_sent) {
        return Err(EscrowError::Escrow(ErrorCode::InvalidStateIdx));
    }
    if !(ctx.refund_wallet.initialized && ctx.refund_wallet.owner == ctx.from_user
        && ctx.refund_wallet.mint == ctx.mint_of_token_being_sent) {
        return Err(EscrowError::Escrow(ErrorCode::WalletToWithdrawFromInvalid));
    }
    let stage = match Stage::from(ctx.escrow_state_account.stage) {
        Ok(s) => s,
        Err(e) => {
            return Err(EscrowError::Escrow(e));
        },
    };
    if stage == Stage::EscrowCompleted {
        return Err(EscrowError::Escrow(ErrorCode::StageInvalid));
    }
    let mut custody = ctx.escrow_wallet_account;
    let mut refund = ctx.refund_wallet;
    match transfer_escrow_out(
        &ctx.from_user,
        &ctx.to_user,
        &ctx.mint_of_token_being_sent,
        &mut custody,
        escrow_id,
        &ctx.escrow_state_address,
        state_bump,
        &mut refund,
        ctx.escrow_state_account.amount,
        &ctx.program_id,
    ) {
        Ok(_) => {},
        Err(e) => {
            return Err(e);
        },
    }
    ctx.escrow_wallet_account = custody;
    ctx.refund_wallet = refund;
    ctx.escrow_state_account = EscrowState {
        stage: Stage::PullBackComplete.to_code(),
        ..ctx.escrow_state_account
    };
    Ok(())
}

} // verus!
