//! The protocol's laws, stated and proved over the operations' transition
//! functions: when each operation is owed success, what each success changes,
//! and that a completed escrow is terminal.

use vstd::prelude::*;
use crate::derivation::{spec_state_address, spec_wallet_address};
use crate::escrow::{
    deposit_target, record_matches_complete, record_matches_pullback, spec_complete_escrow,
    spec_initialize_new_escrow, spec_pullback_escrow, CompleteEscrow, InitializeNewEscrow,
    PullbackEscrow,
};
use crate::stage::Stage;
use crate::token_account::TokenAccount;

verus! {

/// An account set from which a complete request is owed success: both
/// addresses re-derive, the stored record matches the supplied parties and
/// asset, the receiving wallet (if it exists) belongs to the recipient, the
/// stage is `FundsDeposited`, the custody account exists under the record's
/// authority with at least the escrowed amount of the right asset, and the
/// recipient's balance has room for it.
pub open spec fn complete_ready(
    c: CompleteEscrow,
    escrow_id: u64,
    state_bump: u8,
    wallet_bump: u8,
) -> bool {
    &&& spec_state_address(
        c.from_user,
        c.to_user,
        c.mint_of_token_being_sent,
        escrow_id,
        state_bump,
        c.program_id,
    ) == Some(c.escrow_state_address)
    &&& spec_wallet_address(
        c.from_user,
        c.to_user,
        c.mint_of_token_being_sent,
        escrow_id,
        wallet_bump,
        c.program_id,
    ) == Some(c.escrow_wallet_address)
    &&& record_matches_complete(c)
    &&& (c.wallet_to_deposit_to.initialized ==> c.wallet_to_deposit_to.owner == c.to_user
        && c.wallet_to_deposit_to.mint == c.mint_of_token_being_sent)
    &&& c.escrow_state_account.stage == Stage::FundsDeposited.spec_code()
    &&& c.escrow_wallet_account.initialized
    &&& c.escrow_wallet_account.owner == c.escrow_state_address
    &&& c.escrow_wallet_account.mint == c.mint_of_token_being_sent
    &&& c.escrow_wallet_account.amount >= c.escrow_state_account.amount
    &&& deposit_target(c).amount + c.escrow_state_account.amount <= u64::MAX
}

/// Complete succeeds exactly from the deposited stage: a request is refused
/// unless the stage is `FundsDeposited`, it is owed success from a ready
/// account set, and success credits the recipient with the escrowed amount,
/// records `EscrowCompleted`, and drains and closes the custody account that
/// held exactly the escrowed amount.
pub proof fn lemma_complete_transition(
    c: CompleteEscrow,
    escrow_id: u64,
    state_bump: u8,
    wallet_bump: u8,
)
    ensures
        ({
            let (r, c2) = spec_complete_escrow(c, escrow_id, state_bump, wallet_bump);
            &&& (r is Ok ==> c.escrow_state_account.stage == Stage::FundsDeposited.spec_code())
            &&& (complete_ready(c, escrow_id, state_bump, wallet_bump) ==> r is Ok)
            &&& (r is Ok ==> c2.escrow_state_account.stage == Stage::EscrowCompleted.spec_code()
                && c2.wallet_to_deposit_to.amount == deposit_target(c).amount
                + c.escrow_state_account.amount)
            &&& (r is Ok && c.escrow_wallet_account.amount == c.escrow_state_account.amount
                ==> c2.escrow_wallet_account.amount == 0 && !c2.escrow_wallet_account.initialized)
            &&& (r is Err ==> c2 == c)
        }),
{
}

/// An account set from which a pullback request is owed success: both
/// addresses re-derive, the stored record matches the supplied parties and
/// asset, the refund wallet belongs to the sender and holds the right asset
/// with room for the amount, the stage is still `FundsDeposited`, and the
/// custody account exists under the record's authority with at least the
/// escrowed amount of the right asset.
pub open spec fn pullback_ready(
    c: PullbackEscrow,
    escrow_id: u64,
    state_bump: u8,
    wallet_bump: u8,
) -> bool {
    &&& spec_state_address(
        c.from_user,
        c.to_user,
        c.mint_of_token_being_sent,
        escrow_id,
        state_bump,
        c.program_id,
    ) == Some(c.escrow_state_address)
    &&& spec_wallet_address(
        c.from_user,
        c.to_user,
        c.mint_of_token_being_sent,
        escrow_id,
        wallet_bump,
        c.program_id,
    ) == Some(c.escrow_wallet_address)
    &&& record_matches_pullback(c)
    &&& c.refund_wallet.initialized
    &&& c.refund_wallet.owner == c.from_user
    &&& c.refund_wallet.mint == c.mint_of_token_being_sent
    &&& c.escrow_state_account.stage == Stage::FundsDeposited.spec_code()
    &&& c.escrow_wallet_account.initialized
    &&& c.escrow_wallet_account.owner == c.escrow_state_address
    &&& c.escrow_wallet_account.mint == c.mint_of_token_being_sent
    &&& c.escrow_wallet_account.amount >= c.escrow_state_account.amount
    &&& c.refund_wallet.amount + c.escrow_state_account.amount <= u64::MAX
}

/// Pullback is refused from the completed stage and owed success from a ready
/// account set; success refunds the sender with exactly the escrowed amount,
/// records `PullBackComplete`, and drains and closes the custody account that
/// held exactly the escrowed amount. The stage check alone would also admit a
/// record already at `PullBackComplete`; such a request is refused only
/// because its drained custody account no longer exists, so readiness here
/// asks for the deposited stage.
pub proof fn lemma_pullback_transition(
    c: PullbackEscrow,
    escrow_id: u64,
    state_bump: u8,
    wallet_bump: u8,
)
    ensures
        ({
            let (r, c2) = spec_pullback_escrow(c, escrow_id, state_bump, wallet_bump);
            &&& (r is Ok ==> c.escrow_state_account.stage != Stage::EscrowCompleted.spec_code())
            &&& (pullback_ready(c, escrow_id, state_bump, wallet_bump) ==> r is Ok)
            &&& (r is Ok ==> c2.escrow_state_account.stage == Stage::PullBackComplete.spec_code()
                && c2.refund_wallet.amount == c.refund_wallet.amount
                + c.escrow_state_account.amount)
            &&& (r is Ok && c.escrow_wallet_account.amount == c.escrow_state_account.amount
                ==> c2.escrow_wallet_account.amount == 0 && !c2.escrow_wallet_account.initialized)
            &&& (r is Err ==> c2 == c)
        }),
{
}

/// A successful open leaves a unit from which both settlements are owed
/// success: with the record and custody account it produced, a complete
/// request whose receiving wallet belongs to the recipient (or does not exist
/// yet), and a pullback request whose refund wallet belongs to the sender,
/// are both accepted — provided the destination balance has room for the
/// escrowed amount.
pub proof fn lemma_open_enables_settlement(
    c: InitializeNewEscrow,
    escrow_id: u64,
    state_bump: u8,
    wallet_bump: u8,
    amount: u64,
    deposit_to: TokenAccount,
    refund_to: TokenAccount,
)
    ensures
        ({
            let (r, c2) = spec_initialize_new_escrow(c, escrow_id, state_bump, wallet_bump, amount);
            let cc = CompleteEscrow {
                escrow_state_account: c2.escrow_state_account,
                escrow_state_address: c2.escrow_state_address,
                escrow_wallet_account: c2.escrow_wallet_account,
                escrow_wallet_address: c2.escrow_wallet_address,
                wallet_to_deposit_to: deposit_to,
                from_user: c2.from_user,
                to_user: c2.to_user,
                mint_of_token_being_sent: c2.mint_of_token_being_sent,
                program_id: c2.program_id,
            };
            let pp = PullbackEscrow {
                escrow_state_account: c2.escrow_state_account,
                escrow_state_address: c2.escrow_state_address,
                escrow_wallet_account: c2.escrow_wallet_account,
                escrow_wallet_address: c2.escrow_wallet_address,
                from_user: c2.from_user,
                to_user: c2.to_user,
                mint_of_token_being_sent: c2.mint_of_token_being_sent,
                refund_wallet: refund_to,
                program_id: c2.program_id,
            };
            &&& (r is Ok && (deposit_to.initialized ==> deposit_to.owner == c.to_user
                && deposit_to.mint == c.mint_of_token_being_sent) && deposit_target(cc).amount
                + amount <= u64::MAX ==> complete_ready(cc, escrow_id, state_bump, wallet_bump)
                && spec_complete_escrow(cc, escrow_id, state_bump, wallet_bump).0 is Ok)
            &&& (r is Ok && refund_to.initialized && refund_to.owner == c.from_user
                && refund_to.mint == c.mint_of_token_being_sent && refund_to.amount + amount
                <= u64::MAX ==> pullback_ready(pp, escrow_id, state_bump, wallet_bump)
                && spec_pullback_escrow(pp, escrow_id, state_bump, wallet_bump).0 is Ok)
        }),
{
}

/// A completed escrow is terminal: once the record's stage is
/// `EscrowCompleted`, a further complete or pullback request fails and leaves
/// every account — every balance among them — unchanged.
pub proof fn lemma_completed_is_terminal(
    c: CompleteEscrow,
    p: PullbackEscrow,
    escrow_id: u64,
    state_bump: u8,
    wallet_bump: u8,
)
    ensures
        c.escrow_state_account.stage == Stage::EscrowCompleted.spec_code() ==> ({
            let (r, c2) = spec_complete_escrow(c, escrow_id, state_bump, wallet_bump);
            r is Err && c2 == c
        }),
        p.escrow_state_account.stage == Stage::EscrowCompleted.spec_code() ==> ({
            let (r, p2) = spec_pullback_escrow(p, escrow_id, state_bump, wallet_bump);
            r is Err && p2 == p
        }),
{
}

} // verus!
