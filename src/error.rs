//! Errors of the distribution engine.
use vstd::prelude::*;

verus! {

/// Why an operation of the distributor was rejected. Every error leaves all
/// state as it was before the call.
#[derive(Debug, Clone, Copy, PartialEq, Eq, Structural)]
pub enum DistributorError {
    InvalidProof,
    AlreadyClaimed,
    EpochNotFound,
    InsufficientBalance,
    Paused,
    Unauthorized,
    InvalidEpochSequence,
    EpochAlreadyPublished,
    MathOverflow,
    InvalidSlotRange,
    ZeroAmount,
}

impl DistributorError {
    /// A human-readable description of the error.
    pub fn message(&self) -> (r: &'static str) {
        match self {
            DistributorError::InvalidProof => "Invalid merkle proof",
            DistributorError::AlreadyClaimed => "Already claimed for this epoch",
            DistributorError::EpochNotFound => "Epoch not found",
            DistributorError::InsufficientBalance => "Insufficient vault balance",
            DistributorError::Paused => "Distributor is paused",
            DistributorError::Unauthorized => "Unauthorized",
            DistributorError::InvalidEpochSequence => "Invalid epoch sequence",
            DistributorError::EpochAlreadyPublished => "Epoch already published",
            DistributorError::MathOverflow => "Math overflow",
            DistributorError::InvalidSlotRange => "Invalid slot range",
            DistributorError::ZeroAmount => "Zero amount",
        }
    }
}

} // verus!

verus! {

/// Why an operation of the treasury controller was rejected. Every error
/// leaves all state as it was before the call.
#[derive(Debug, Clone, Copy, PartialEq, Eq, Structural)]
pub enum ControllerError {
    Paused,
    UnauthorizedKeeper,
    UnauthorizedAdmin,
    InvalidWeights,
    SlippageExceeded,
    TradeSizeExceeded,
    DailyLimitExceeded,
    DexNotAllowed,
    MaxKeepersReached,
    MaxDexProgramsReached,
    KeeperNotFound,
    InsufficientBalance,
    MathOverflow,
    ZeroAmount,
    InvalidAmount,
}

impl ControllerError {
    /// A human-readable description of the error.
    pub fn message(&self) -> (r: &'static str) {
        match self {
            ControllerError::Paused => "Controller is paused",
            ControllerError::UnauthorizedKeeper => "Unauthorized keeper",
            ControllerError::UnauthorizedAdmin => "Unauthorized admin",
            ControllerError::InvalidWeights => "Invalid routing weights - must sum to 100",
            ControllerError::SlippageExceeded => "Slippage exceeded maximum allowed",
            ControllerError::TradeSizeExceeded => "Trade size exceeds maximum",
            ControllerError::DailyLimitExceeded => "Daily trade limit exceeded",
            ControllerError::DexNotAllowed => "DEX program not allowed",
            ControllerError::MaxKeepersReached => "Maximum keepers reached",
            ControllerError::MaxDexProgramsReached => "Maximum DEX programs reached",
            ControllerError::KeeperNotFound => "Keeper not found",
            ControllerError::InsufficientBalance => "Insufficient treasury balance",
            ControllerError::MathOverflow => "Math overflow",
            ControllerError::ZeroAmount => "Zero amount",
            ControllerError::InvalidAmount => "Invalid amount",
        }
    }
}

} // verus!
