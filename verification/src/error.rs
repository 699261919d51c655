use vstd::prelude::*;

verus! {

/// Why an operation of the card table or of the exchange was refused.
#[derive(Clone, Copy, Debug, PartialEq, Eq, Structural)]
pub enum ErrorCode {
    /// The confidential computation did not deliver a usable result.
    AbortedComputation,
    /// The game is not in the state that the action needs.
    InvalidGameState,
    /// The action is not open to the player any more.
    InvalidMove,
    /// The dealer's card was revealed to a key other than the player's.
    InvalidDealerClientPubkey,
    /// No computation cluster is set.
    ClusterNotSet,
    /// The side is neither long nor short.
    InvalidPositionSide,
    /// The collateral would fall under the maintenance margin.
    InsufficientCollateral,
    /// The caller does not own the position.
    InvalidPositionOwner,
    /// The position is above the liquidation threshold.
    PositionNotLiquidatable,
    /// A parameter is zero or out of range.
    InvalidInput,
    /// An arithmetic step left its integer width.
    MathOverflow,
}

impl ErrorCode {
    /// The message that goes with the code.
    pub fn message(&self) -> (s: &'static str)
        ensures
            s@ == Self::message_spec(*self)@,
    {
        match self {
            ErrorCode::AbortedComputation => "The computation was aborted",
            ErrorCode::InvalidGameState => "Invalid game state",
            ErrorCode::InvalidMove => "Invalid move",
            ErrorCode::InvalidDealerClientPubkey => "Invalid dealer client pubkey",
            ErrorCode::ClusterNotSet => "Cluster not set",
            ErrorCode::InvalidPositionSide => "Invalid position side",
            ErrorCode::InsufficientCollateral => "Insufficient collateral",
            ErrorCode::InvalidPositionOwner => "Invalid position owner",
            ErrorCode::PositionNotLiquidatable => "Position not liquidatable",
            ErrorCode::InvalidInput => "Invalid input parameters",
            ErrorCode::MathOverflow => "Math overflow",
        }
    }

    pub open spec fn message_spec(e: ErrorCode) -> &'static str {
        match e {
            ErrorCode::AbortedComputation => "The computation was aborted",
            ErrorCode::InvalidGameState => "Invalid game state",
            ErrorCode::InvalidMove => "Invalid move",
            ErrorCode::InvalidDealerClientPubkey => "Invalid dealer client pubkey",
            ErrorCode::ClusterNotSet => "Cluster not set",
            ErrorCode::InvalidPositionSide => "Invalid position side",
            ErrorCode::InsufficientCollateral => "Insufficient collateral",
            ErrorCode::InvalidPositionOwner => "Invalid position owner",
            ErrorCode::PositionNotLiquidatable => "Position not liquidatable",
            ErrorCode::InvalidInput => "Invalid input parameters",
            ErrorCode::MathOverflow => "Math overflow",
        }
    }
}

} // verus!
