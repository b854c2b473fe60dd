use vstd::prelude::*;

verus! {

/// What the asset-transfer collaborator reported when it could not move the
/// assets. The library carries the code through without reading it.
#[derive(Clone, Copy, Debug, PartialEq, Eq, Structural)]
pub struct TransferError {
    pub code: u32,
}

/// The one error with which a rejected operation ends.
#[derive(Clone, Copy, Debug, PartialEq, Eq, Structural)]
pub enum ErrorCode {
    ExceedsMaximumLtv,
    ProtocolPaused,
    InsufficientLiquidity,
    PositionBeingUnstaked,
    NotBeingUnstaked,
    UnstakingNotComplete,
    InvalidAmount,
    MathOverflow,
    Unauthorized,
    InvalidOracleData,
    /// The transfer collaborator failed; its error is handed on as it came.
    TransferFailed(TransferError),
}

impl ErrorCode {
    /// The text that describes each error.
    pub open spec fn message_text(self) -> Seq<char> {
        match self {
            ErrorCode::ExceedsMaximumLtv => "Operation exceeds maximum LTV"@,
            ErrorCode::ProtocolPaused => "Protocol is paused"@,
            ErrorCode::InsufficientLiquidity => "Insufficient liquidity"@,
            ErrorCode::PositionBeingUnstaked => "Position is being unstaked"@,
            ErrorCode::NotBeingUnstaked => "Position is not being unstaked"@,
            ErrorCode::UnstakingNotComplete => "Unstaking period not complete"@,
            ErrorCode::InvalidAmount => "Invalid amount"@,
            ErrorCode::MathOverflow => "Math overflow"@,
            ErrorCode::Unauthorized => "Unauthorized"@,
            ErrorCode::InvalidOracleData => "Invalid Oracle Data!"@,
            ErrorCode::TransferFailed(_) => "Asset transfer failed"@,
        }
    }

    pub fn message(&self) -> (text: &'static str)
        ensures
            text@ == self.message_text(),
    {
        match self {
            ErrorCode::ExceedsMaximumLtv => "Operation exceeds maximum LTV",
            ErrorCode::ProtocolPaused => "Protocol is paused",
            ErrorCode::InsufficientLiquidity => "Insufficient liquidity",
            ErrorCode::PositionBeingUnstaked => "Position is being unstaked",
            ErrorCode::NotBeingUnstaked => "Position is not being unstaked",
            ErrorCode::UnstakingNotComplete => "Unstaking period not complete",
            ErrorCode::InvalidAmount => "Invalid amount",
            ErrorCode::MathOverflow => "Math overflow",
            ErrorCode::Unauthorized => "Unauthorized",
            ErrorCode::InvalidOracleData => "Invalid Oracle Data!",
            ErrorCode::TransferFailed(_) => "Asset transfer failed",
        }
    }
}

} // verus!
