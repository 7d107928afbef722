//! The on-ledger escrow record.

use vstd::prelude::*;
use crate::identity::Identity;
use crate::stage::Stage;

verus! {

/// The escrow record persisted at the derived state address: the parties, the
/// asset, the committed amount, the paired custody account's address and the
/// current lifecycle stage.
#[derive(Clone, Copy, PartialEq, Eq, Structural, Debug)]
pub struct EscrowState {
    /// Disambiguates multiple escrows between the same parties and asset.
    pub id: u64,
    /// The quantity committed at open; immutable afterward.
    pub amount: u64,
    /// The party that funds the escrow and may pull it back.
    pub from_user: Identity,
    /// The party that may complete the escrow.
    pub to_user: Identity,
    /// The fungible asset accepted.
    pub mint_of_token_being_sent: Identity,
    /// The address of the paired custody account; immutable after open.
    pub escrow_wallet_account: Identity,
    /// The persisted code of the current lifecycle stage.
    pub stage: u8,
}

impl EscrowState {
    /// A populated record carries one of the three known stage codes.
    pub open spec fn wf(self) -> bool {
        Stage::spec_from(self.stage) is Ok
    }
}

impl Default for EscrowState {
    /// A freshly allocated record is all zeroes, like a zeroed ledger account
    /// before the open operation populates it.
    fn default() -> (r: EscrowState)
        ensures
            r.id == 0,
            r.amount == 0,
            r.from_user == (Identity { w0: 0, w1: 0, w2: 0, w3: 0 }),
            r.to_user == (Identity { w0: 0, w1: 0, w2: 0, w3: 0 }),
            r.mint_of_token_being_sent == (Identity { w0: 0, w1: 0, w2: 0, w3: 0 }),
            r.escrow_wallet_account == (Identity { w0: 0, w1: 0, w2: 0, w3: 0 }),
            r.stage == 0,
    {
        let zero = Identity { w0: 0, w1: 0, w2: 0, w3: 0 };
        EscrowState {
            id: 0,
            amount: 0,
            from_user: zero,
            to_user: zero,
            mint_of_token_being_sent: zero,
            escrow_wallet_account: zero,
            stage: 0,
        }
    }
}

} // verus!
