//! A two-party conditional value-transfer (escrow) protocol over a
//! programmable ledger: a sender deposits a fungible asset into a custody
//! account whose sole spending authority is a program-derived address, and the
//! deposit later moves either to the recipient (complete) or back to the
//! sender (pullback), governed by an explicit stage state machine.

pub mod derivation;
pub mod errors;
pub mod escrow;
pub mod identity;
pub mod laws;
pub mod stage;
pub mod state;
pub mod token_account;

pub use identity::Identity;
