//! The escrow lifecycle stage and its persisted encoding.

use vstd::prelude::*;
use crate::errors::ErrorCode;

verus! {

/// The escrow's position in its three-state lifecycle. A record only ever
/// advances from `FundsDeposited` to exactly one of the other two stages.
#[derive(Clone, Copy, PartialEq, Eq, Structural, Debug)]
pub enum Stage {
    FundsDeposited,
    EscrowCompleted,
    PullBackComplete,
}

impl Stage {
    /// The byte under which each stage is persisted.
    pub open spec fn spec_code(self) -> u8 {
        match self {
            Stage::FundsDeposited => 1,
            Stage::EscrowCompleted => 2,
            Stage::PullBackComplete => 3,
        }
    }

    /// Parsing a persisted stage byte fails closed: unknown codes are
    /// rejected, never defaulted.
    pub open spec fn spec_from(val: u8) -> Result<Stage, ErrorCode> {
        if val == 1 {
            Ok(Stage::FundsDeposited)
        } else if val == 2 {
            Ok(Stage::EscrowCompleted)
        } else if val == 3 {
            Ok(Stage::PullBackComplete)
        } else {
            Err(ErrorCode::StageInvalid)
        }
    }

    pub fn to_code(&self) -> (r: u8)
        ensures
            r == self.spec_code(),
    {
        match self {
            Stage::FundsDeposited => 1,
            Stage::EscrowCompleted => 2,
            Stage::PullBackComplete => 3,
        }
    }

    pub fn from(val: u8) -> (r: Result<Stage, ErrorCode>)
        ensures
            r == Stage::spec_from(val),
    {
        match val {
            1 => Ok(Stage::FundsDeposited),
            2 => Ok(Stage::EscrowCompleted),
            3 => Ok(Stage::PullBackComplete),
            _ => Err(ErrorCode::StageInvalid),
        }
    }

    /// Every stage's persisted code parses back to the same stage.
    pub proof fn lemma_code_round_trip(s: Stage)
        ensures
            Stage::spec_from(s.spec_code()) == Ok::<Stage, ErrorCode>(s),
    {
    }
}

} // verus!
