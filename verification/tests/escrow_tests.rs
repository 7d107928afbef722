use sol_pay::derivation::{
    derive_state_address, derive_wallet_address, find_state_address, find_wallet_address,
};
use sol_pay::errors::{ErrorCode, EscrowError, TokenError};
use sol_pay::escrow::{
    complete_escrow, initialize_new_escrow, pullback_escrow, transfer_escrow_out, CompleteEscrow,
    InitializeNewEscrow, PullbackEscrow,
};
use sol_pay::stage::Stage;
use sol_pay::state::EscrowState;
use sol_pay::token_account::TokenAccount;
use sol_pay::Identity;

fn ident(n: u64) -> Identity {
    Identity { w0: n, w1: n.wrapping_mul(3), w2: 7, w3: n }
}

fn program() -> Identity {
    ident(424242)
}

/// A valid open request for `amount` units, with `funding` units in the
/// sender's wallet, together with the two discriminators found for it.
fn open_request(
    sender: Identity,
    recipient: Identity,
    mint: Identity,
    escrow_id: u64,
    funding: u64,
) -> (InitializeNewEscrow, u8, u8) {
    let pid = program();
    let (state_addr, state_bump) =
        find_state_address(&sender, &recipient, &mint, escrow_id, &pid).unwrap();
    let (wallet_addr, wallet_bump) =
        find_wallet_address(&sender, &recipient, &mint, escrow_id, &pid).unwrap();
    let ctx = InitializeNewEscrow {
        escrow_state_account: EscrowState::default(),
        escrow_state_address: state_addr,
        escrow_wallet_account: TokenAccount {
            owner: ident(0),
            mint,
            amount: 0,
            initialized: false,
        },
        escrow_wallet_address: wallet_addr,
        from_user: sender,
        to_user: recipient,
        mint_of_token_being_sent: mint,
        wallet_to_withdraw_from: TokenAccount {
            owner: sender,
            mint,
            amount: funding,
            initialized: true,
        },
        program_id: pid,
    };
    (ctx, state_bump, wallet_bump)
}

/// Scenario: the sender opens an escrow for 100 units, the recipient
/// completes it, and any further complete or pullback is refused without
/// moving funds.
#[test]
fn scenario_open_then_complete() {
    let (sender, recipient, mint) = (ident(1), ident(2), ident(3));
    let (mut open, state_bump, wallet_bump) = open_request(sender, recipient, mint, 1, 250);

    let r = initialize_new_escrow(&mut open, 1, state_bump, wallet_bump, 100);
    assert_eq!(r, Ok(()));
    assert_eq!(open.escrow_state_account.stage, Stage::FundsDeposited.to_code());
    assert_eq!(open.escrow_wallet_account.amount, 100);
    assert_eq!(open.escrow_wallet_account.owner, open.escrow_state_address);
    assert_eq!(open.wallet_to_withdraw_from.amount, 150);
    assert_eq!(open.escrow_state_account.amount, 100);
    assert_eq!(open.escrow_state_account.escrow_wallet_account, open.escrow_wallet_address);

    let mut complete = CompleteEscrow {
        escrow_state_account: open.escrow_state_account,
        escrow_state_address: open.escrow_state_address,
        escrow_wallet_account: open.escrow_wallet_account,
        escrow_wallet_address: open.escrow_wallet_address,
        wallet_to_deposit_to: TokenAccount {
            owner: recipient,
            mint,
            amount: 5,
            initialized: true,
        },
        from_user: sender,
        to_user: recipient,
        mint_of_token_being_sent: mint,
        program_id: program(),
    };
    let r = complete_escrow(&mut complete, 1, state_bump, wallet_bump);
    assert_eq!(r, Ok(()));
    assert_eq!(complete.escrow_state_account.stage, Stage::EscrowCompleted.to_code());
    assert_eq!(complete.wallet_to_deposit_to.amount, 105);
    assert_eq!(complete.escrow_wallet_account.amount, 0);
    assert!(!complete.escrow_wallet_account.initialized);

    // A second complete is refused in the completed stage.
    let before = complete;
    let r = complete_escrow(&mut complete, 1, state_bump, wallet_bump);
    assert_eq!(r, Err(EscrowError::Escrow(ErrorCode::StageInvalid)));
    assert_eq!(complete, before);

    // A pullback after completion is refused and moves nothing.
    let mut pullback = PullbackEscrow {
        escrow_state_account: complete.escrow_state_account,
        escrow_state_address: complete.escrow_state_address,
        escrow_wallet_account: complete.escrow_wallet_account,
        escrow_wallet_address: complete.escrow_wallet_address,
        from_user: sender,
        to_user: recipient,
        mint_of_token_being_sent: mint,
        refund_wallet: TokenAccount {
            owner: sender,
            mint,
            amount: 150,
            initialized: true,
        },
        program_id: program(),
    };
    let before = pullback;
    let r = pullback_escrow(&mut pullback, 1, state_bump, wallet_bump);
    assert_eq!(r, Err(EscrowError::Escrow(ErrorCode::StageInvalid)));
    assert_eq!(pullback, before);
}

/// Scenario: the sender opens an escrow for 50 units and pulls it back; the
/// refund wallet gains exactly 50 and the custody account closes. A second
/// pullback finds no custody account and moves nothing.
#[test]
fn scenario_open_then_pullback() {
    let (sender, recipient, mint) = (ident(10), ident(11), ident(12));
    let (mut open, state_bump, wallet_bump) = open_request(sender, recipient, mint, 2, 60);

    let r = initialize_new_escrow(&mut open, 2, state_bump, wallet_bump, 50);
    assert_eq!(r, Ok(()));
    assert_eq!(open.escrow_wallet_account.amount, 50);

    let mut pullback = PullbackEscrow {
        escrow_state_account: open.escrow_state_account,
        escrow_state_address: open.escrow_state_address,
        escrow_wallet_account: open.escrow_wallet_account,
        escrow_wallet_address: open.escrow_wallet_address,
        from_user: sender,
        to_user: recipient,
        mint_of_token_being_sent: mint,
        refund_wallet: open.wallet_to_withdraw_from,
        program_id: program(),
    };
    let r = pullback_escrow(&mut pullback, 2, state_bump, wallet_bump);
    assert_eq!(r, Ok(()));
    assert_eq!(pullback.escrow_state_account.stage, Stage::PullBackComplete.to_code());
    assert_eq!(pullback.refund_wallet.amount, 60);
    assert_eq!(pullback.escrow_wallet_account.amount, 0);
    assert!(!pullback.escrow_wallet_account.initialized);

    // The stage check alone would admit a second pullback, but the drained
    // custody account no longer exists, so nothing can move.
    let before = pullback;
    let r = pullback_escrow(&mut pullback, 2, state_bump, wallet_bump);
    assert_eq!(r, Err(EscrowError::Token(TokenError::UninitializedAccount)));
    assert_eq!(pullback, before);
}

/// An open request funded from a wallet owned by someone other than the
/// sender is refused with the ownership-mismatch error and creates nothing.
#[test]
fn open_rejects_foreign_funding_wallet() {
    let (sender, recipient, mint) = (ident(21), ident(22), ident(23));
    let (mut open, state_bump, wallet_bump) = open_request(sender, recipient, mint, 3, 500);
    open.wallet_to_withdraw_from.owner = ident(99);
    let before = open;
    let r = initialize_new_escrow(&mut open, 3, state_bump, wallet_bump, 100);
    assert_eq!(r, Err(EscrowError::Escrow(ErrorCode::WalletToWithdrawFromInvalid)));
    assert_eq!(open, before);
    assert!(!open.escrow_wallet_account.initialized);
}

/// An open request funded from a wallet of the wrong asset is refused the
/// same way.
#[test]
fn open_rejects_wrong_asset_funding_wallet() {
    let (sender, recipient, mint) = (ident(61), ident(62), ident(63));
    let (mut open, state_bump, wallet_bump) = open_request(sender, recipient, mint, 4, 500);
    open.wallet_to_withdraw_from.mint = ident(64);
    let r = initialize_new_escrow(&mut open, 4, state_bump, wallet_bump, 100);
    assert_eq!(r, Err(EscrowError::Escrow(ErrorCode::WalletToWithdrawFromInvalid)));
}

/// An open request for more than the funding wallet holds surfaces the
/// transfer primitive's insufficient-funds error and creates nothing.
#[test]
fn open_rejects_insufficient_funding() {
    let (sender, recipient, mint) = (ident(31), ident(32), ident(33));
    let (mut open, state_bump, wallet_bump) = open_request(sender, recipient, mint, 5, 99);
    let before = open;
    let r = initialize_new_escrow(&mut open, 5, state_bump, wallet_bump, 100);
    assert_eq!(r, Err(EscrowError::Token(TokenError::InsufficientFunds)));
    assert_eq!(open, before);
}

/// An open request whose discriminator does not re-derive the supplied state
/// address is rejected before any state mutation.
#[test]
fn open_rejects_wrong_discriminator() {
    let (sender, recipient, mint) = (ident(41), ident(42), ident(43));
    let (mut open, state_bump, wallet_bump) = open_request(sender, recipient, mint, 6, 500);
    let before = open;
    let r = initialize_new_escrow(&mut open, 6, state_bump.wrapping_add(1), wallet_bump, 100);
    assert_eq!(r, Err(EscrowError::Escrow(ErrorCode::InvalidStateIdx)));
    assert_eq!(open, before);
}

/// A complete request from an identity other than the stored recipient fails
/// the structural match check before any transfer.
#[test]
fn complete_rejects_wrong_recipient() {
    let (sender, recipient, mint) = (ident(51), ident(52), ident(53));
    let (mut open, state_bump, wallet_bump) = open_request(sender, recipient, mint, 7, 200);
    let r = initialize_new_escrow(&mut open, 7, state_bump, wallet_bump, 100);
    assert_eq!(r, Ok(()));

    // The impostor presents an account set that is self-consistent — the
    // addresses re-derive for the impostor as recipient — but the stored
    // record names someone else.
    let impostor = ident(54);
    let pid = program();
    let (state_addr, sb) = find_state_address(&sender, &impostor, &mint, 7, &pid).unwrap();
    let (wallet_addr, wb) = find_wallet_address(&sender, &impostor, &mint, 7, &pid).unwrap();
    let mut complete = CompleteEscrow {
        escrow_state_account: open.escrow_state_account,
        escrow_state_address: state_addr,
        escrow_wallet_account: open.escrow_wallet_account,
        escrow_wallet_address: wallet_addr,
        wallet_to_deposit_to: TokenAccount {
            owner: impostor,
            mint,
            amount: 0,
            initialized: true,
        },
        from_user: sender,
        to_user: impostor,
        mint_of_token_being_sent: mint,
        program_id: pid,
    };
    let before = complete;
    let r = complete_escrow(&mut complete, 7, sb, wb);
    assert_eq!(r, Err(EscrowError::Escrow(ErrorCode::InvalidStateIdx)));
    assert_eq!(complete, before);
}

/// Complete creates the recipient's receiving wallet on demand when it does
/// not exist yet.
#[test]
fn complete_creates_receiving_wallet() {
    let (sender, recipient, mint) = (ident(71), ident(72), ident(73));
    let (mut open, state_bump, wallet_bump) = open_request(sender, recipient, mint, 8, 100);
    let r = initialize_new_escrow(&mut open, 8, state_bump, wallet_bump, 100);
    assert_eq!(r, Ok(()));

    let mut complete = CompleteEscrow {
        escrow_state_account: open.escrow_state_account,
        escrow_state_address: open.escrow_state_address,
        escrow_wallet_account: open.escrow_wallet_account,
        escrow_wallet_address: open.escrow_wallet_address,
        wallet_to_deposit_to: TokenAccount {
            owner: ident(0),
            mint: ident(0),
            amount: 0,
            initialized: false,
        },
        from_user: sender,
        to_user: recipient,
        mint_of_token_being_sent: mint,
        program_id: program(),
    };
    let r = complete_escrow(&mut complete, 8, state_bump, wallet_bump);
    assert_eq!(r, Ok(()));
    assert!(complete.wallet_to_deposit_to.initialized);
    assert_eq!(complete.wallet_to_deposit_to.owner, recipient);
    assert_eq!(complete.wallet_to_deposit_to.mint, mint);
    assert_eq!(complete.wallet_to_deposit_to.amount, 100);
}

/// A pullback whose refund wallet would overflow surfaces the primitive's
/// overflow error and moves nothing.
#[test]
fn pullback_rejects_overflowing_refund_wallet() {
    let (sender, recipient, mint) = (ident(81), ident(82), ident(83));
    let (mut open, state_bump, wallet_bump) = open_request(sender, recipient, mint, 9, 100);
    let r = initialize_new_escrow(&mut open, 9, state_bump, wallet_bump, 100);
    assert_eq!(r, Ok(()));

    let mut pullback = PullbackEscrow {
        escrow_state_account: open.escrow_state_account,
        escrow_state_address: open.escrow_state_address,
        escrow_wallet_account: open.escrow_wallet_account,
        escrow_wallet_address: open.escrow_wallet_address,
        from_user: sender,
        to_user: recipient,
        mint_of_token_being_sent: mint,
        refund_wallet: TokenAccount {
            owner: sender,
            mint,
            amount: u64::MAX - 10,
            initialized: true,
        },
        program_id: program(),
    };
    let before = pullback;
    let r = pullback_escrow(&mut pullback, 9, state_bump, wallet_bump);
    assert_eq!(r, Err(EscrowError::Token(TokenError::Overflow)));
    assert_eq!(pullback, before);
}

/// A pullback with a refund wallet not owned by the sender is refused with
/// the ownership-mismatch error.
#[test]
fn pullback_rejects_foreign_refund_wallet() {
    let (sender, recipient, mint) = (ident(91), ident(92), ident(93));
    let (mut open, state_bump, wallet_bump) = open_request(sender, recipient, mint, 10, 100);
    let r = initialize_new_escrow(&mut open, 10, state_bump, wallet_bump, 100);
    assert_eq!(r, Ok(()));

    let mut pullback = PullbackEscrow {
        escrow_state_account: open.escrow_state_account,
        escrow_state_address: open.escrow_state_address,
        escrow_wallet_account: open.escrow_wallet_account,
        escrow_wallet_address: open.escrow_wallet_address,
        from_user: sender,
        to_user: recipient,
        mint_of_token_being_sent: mint,
        refund_wallet: TokenAccount {
            owner: recipient,
            mint,
            amount: 0,
            initialized: true,
        },
        program_id: program(),
    };
    let r = pullback_escrow(&mut pullback, 10, state_bump, wallet_bump);
    assert_eq!(r, Err(EscrowError::Escrow(ErrorCode::WalletToWithdrawFromInvalid)));
}

/// Parsing a persisted stage byte fails closed on unknown codes and accepts
/// exactly the three known ones; every stage's code parses back to it.
#[test]
fn stage_codes_round_trip_and_fail_closed() {
    assert_eq!(Stage::from(1), Ok(Stage::FundsDeposited));
    assert_eq!(Stage::from(2), Ok(Stage::EscrowCompleted));
    assert_eq!(Stage::from(3), Ok(Stage::PullBackComplete));
    assert_eq!(Stage::from(0), Err(ErrorCode::StageInvalid));
    assert_eq!(Stage::from(4), Err(ErrorCode::StageInvalid));
    assert_eq!(Stage::from(255), Err(ErrorCode::StageInvalid));
    assert_eq!(Stage::from(Stage::FundsDeposited.to_code()), Ok(Stage::FundsDeposited));
    assert_eq!(Stage::from(Stage::EscrowCompleted.to_code()), Ok(Stage::EscrowCompleted));
    assert_eq!(Stage::from(Stage::PullBackComplete.to_code()), Ok(Stage::PullBackComplete));
}

/// A record carrying an unrecognized stage byte is rejected by both
/// operations.
#[test]
fn handlers_reject_unknown_stage_byte() {
    let (sender, recipient, mint) = (ident(101), ident(102), ident(103));
    let (mut open, state_bump, wallet_bump) = open_request(sender, recipient, mint, 11, 100);
    let r = initialize_new_escrow(&mut open, 11, state_bump, wallet_bump, 100);
    assert_eq!(r, Ok(()));
    let mut state = open.escrow_state_account;
    state.stage = 7;

    let mut complete = CompleteEscrow {
        escrow_state_account: state,
        escrow_state_address: open.escrow_state_address,
        escrow_wallet_account: open.escrow_wallet_account,
        escrow_wallet_address: open.escrow_wallet_address,
        wallet_to_deposit_to: TokenAccount {
            owner: recipient,
            mint,
            amount: 0,
            initialized: true,
        },
        from_user: sender,
        to_user: recipient,
        mint_of_token_being_sent: mint,
        program_id: program(),
    };
    let r = complete_escrow(&mut complete, 11, state_bump, wallet_bump);
    assert_eq!(r, Err(EscrowError::Escrow(ErrorCode::StageInvalid)));

    let mut pullback = PullbackEscrow {
        escrow_state_account: state,
        escrow_state_address: open.escrow_state_address,
        escrow_wallet_account: open.escrow_wallet_account,
        escrow_wallet_address: open.escrow_wallet_address,
        from_user: sender,
        to_user: recipient,
        mint_of_token_being_sent: mint,
        refund_wallet: open.wallet_to_withdraw_from,
        program_id: program(),
    };
    let r = pullback_escrow(&mut pullback, 11, state_bump, wallet_bump);
    assert_eq!(r, Err(EscrowError::Escrow(ErrorCode::StageInvalid)));
}

/// Address derivation is deterministic, and the two namespaces and different
/// instance ids give distinct addresses.
#[test]
fn derivation_deterministic_and_non_colliding() {
    let (sender, recipient, mint) = (ident(111), ident(112), ident(113));
    let pid = program();

    let first = find_state_address(&sender, &recipient, &mint, 1, &pid).unwrap();
    let again = find_state_address(&sender, &recipient, &mint, 1, &pid).unwrap();
    assert_eq!(first, again);

    // The found discriminator re-derives the same address.
    let rederived = derive_state_address(&sender, &recipient, &mint, 1, first.1, &pid).unwrap();
    assert_eq!(rederived, first.0);

    let wallet = find_wallet_address(&sender, &recipient, &mint, 1, &pid).unwrap();
    let wallet_rederived =
        derive_wallet_address(&sender, &recipient, &mint, 1, wallet.1, &pid).unwrap();
    assert_eq!(wallet_rederived, wallet.0);

    // The record and custody namespaces do not collide, and neither do
    // different instance ids; the derived address is none of the inputs.
    assert_ne!(first.0, wallet.0);
    let other_id = find_state_address(&sender, &recipient, &mint, 2, &pid).unwrap();
    assert_ne!(first.0, other_id.0);
    assert_ne!(first.0, sender);
    assert_ne!(first.0, recipient);
    assert_ne!(first.0, mint);
    assert_ne!(first.0, pid);
}

/// The egress routine refuses to sign for a state account that is not the
/// derived authority.
#[test]
fn egress_rejects_wrong_authority() {
    let (sender, recipient, mint) = (ident(121), ident(122), ident(123));
    let pid = program();
    let (state_addr, state_bump) = find_state_address(&sender, &recipient, &mint, 12, &pid).unwrap();
    let mut custody = TokenAccount {
        owner: state_addr,
        mint,
        amount: 40,
        initialized: true,
    };
    let mut destination = TokenAccount {
        owner: recipient,
        mint,
        amount: 0,
        initialized: true,
    };
    let wrong_state = ident(124);
    let r = transfer_escrow_out(
        &sender,
        &recipient,
        &mint,
        &mut custody,
        12,
        &wrong_state,
        state_bump,
        &mut destination,
        40,
        &pid,
    );
    assert_eq!(r, Err(EscrowError::Escrow(ErrorCode::DelegateNotSetCorrectly)));
    assert_eq!(custody.amount, 40);
    assert_eq!(destination.amount, 0);
}

/// The egress routine leaves the custody account open when it is not drained,
/// and surfaces the primitive's mismatch error for a destination of another
/// asset.
#[test]
fn egress_partial_drain_and_mint_mismatch() {
    let (sender, recipient, mint) = (ident(131), ident(132), ident(133));
    let pid = program();
    let (state_addr, state_bump) = find_state_address(&sender, &recipient, &mint, 13, &pid).unwrap();
    let mut custody = TokenAccount {
        owner: state_addr,
        mint,
        amount: 70,
        initialized: true,
    };
    let mut destination = TokenAccount {
        owner: recipient,
        mint,
        amount: 0,
        initialized: true,
    };
    let r = transfer_escrow_out(
        &sender,
        &recipient,
        &mint,
        &mut custody,
        13,
        &state_addr,
        state_bump,
        &mut destination,
        30,
        &pid,
    );
    assert_eq!(r, Ok(()));
    assert_eq!(custody.amount, 40);
    assert!(custody.initialized);
    assert_eq!(destination.amount, 30);

    let mut foreign = TokenAccount {
        owner: recipient,
        mint: ident(134),
        amount: 0,
        initialized: true,
    };
    let r = transfer_escrow_out(
        &sender,
        &recipient,
        &mint,
        &mut custody,
        13,
        &state_addr,
        state_bump,
        &mut foreign,
        40,
        &pid,
    );
    assert_eq!(r, Err(EscrowError::Token(TokenError::MintMismatch)));
    assert_eq!(custody.amount, 40);
}

/// The transfer and closure primitives check authority and balance.
#[test]
fn primitives_check_owner_and_balance() {
    let owner = ident(141);
    let mut from = TokenAccount {
        owner,
        mint: ident(142),
        amount: 10,
        initialized: true,
    };
    let mut to = TokenAccount {
        owner: ident(143),
        mint: ident(142),
        amount: 0,
        initialized: true,
    };
    let r = sol_pay::token_account::transfer(&mut from, &mut to, &ident(144), 5);
    assert_eq!(r, Err(TokenError::OwnerMismatch));
    assert_eq!(from.amount, 10);

    let r = sol_pay::token_account::close_account(&mut from, &owner);
    assert_eq!(r, Err(TokenError::NonZeroBalance));
    assert!(from.initialized);

    let r = sol_pay::token_account::transfer(&mut from, &mut to, &owner, 10);
    assert_eq!(r, Ok(()));
    assert_eq!(from.amount, 0);
    assert_eq!(to.amount, 10);

    let r = sol_pay::token_account::close_account(&mut from, &owner);
    assert_eq!(r, Ok(()));
    assert!(!from.initialized);
}

/// A zeroed record, as a freshly allocated ledger account, carries no stage.
#[test]
fn default_record_is_zeroed() {
    let s = EscrowState::default();
    assert_eq!(s.id, 0);
    assert_eq!(s.amount, 0);
    assert_eq!(s.stage, 0);
    assert_eq!(Stage::from(s.stage), Err(ErrorCode::StageInvalid));
}
