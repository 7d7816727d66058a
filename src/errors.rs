use vstd::prelude::*;

verus! {

/// Every way an operation of the library can be refused. A refused
/// operation leaves each record it was handed as it was.
#[derive(Debug, Clone, Copy, PartialEq, Eq, Structural)]
pub enum MiniMetaDaoError {
    /// The caller is not the identity the record requires.
    Unauthorized,
    /// A stake arrived at or after the market's close time.
    MarketClosed,
    /// Resolution was attempted before the market's close time.
    MarketStillActive,
    /// The market already has an outcome.
    MarketAlreadyResolved,
    /// The market has no outcome yet.
    MarketNotResolved,
    /// A market duration outside the allowed window.
    InvalidMarketDuration,
    /// A stake below the minimum bet.
    BetTooSmall,
    /// A holding cannot cover a transfer out of it.
    InsufficientFunds,
    /// The proposal was executed before.
    ProposalAlreadyExecuted,
    /// A redemption on the losing side, or of a position already redeemed.
    InvalidOutcome,
    /// Checked arithmetic left the 64-bit range (or divided by zero).
    Overflow,
    /// The proposal's market resolved against it.
    ProposalRejected,
}

impl MiniMetaDaoError {
    /// The human-readable message of the error.
    pub fn message(&self) -> (r: &'static str) {
        match self {
            MiniMetaDaoError::Unauthorized => "Unauthorized action",
            MiniMetaDaoError::MarketClosed => "Market is already closed",
            MiniMetaDaoError::MarketStillActive => "Market is still active",
            MiniMetaDaoError::MarketAlreadyResolved => "Market already resolved",
            MiniMetaDaoError::MarketNotResolved => "Market not yet resolved",
            MiniMetaDaoError::InvalidMarketDuration => "Invalid market duration",
            MiniMetaDaoError::BetTooSmall => "Bet amount too small",
            MiniMetaDaoError::InsufficientFunds => "Insufficient funds",
            MiniMetaDaoError::ProposalAlreadyExecuted => "Proposal already executed",
            MiniMetaDaoError::InvalidOutcome => "Invalid outcome",
            MiniMetaDaoError::Overflow => "Math Overflow",
            MiniMetaDaoError::ProposalRejected => "Proposal rejected by market",
        }
    }
}

} // verus!
