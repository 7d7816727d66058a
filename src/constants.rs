use vstd::prelude::*;

verus! {

/// Shortest allowed betting window of a market: one day, in seconds.
pub const MIN_MARKET_DURATION: i64 = 86400;

/// Longest allowed betting window of a market: seven days, in seconds.
pub const MAX_MARKET_DURATION: i64 = 604800;

/// Smallest gross stake accepted, in base currency units.
pub const MIN_BET_AMOUNT: u64 = 1_000_000;

/// Protocol fee on YES stakes, in basis points (2%).
pub const FEE_BPS: u64 = 200;

/// Basis points in one whole.
pub const BPS_DENOMINATOR: u64 = 10_000;

} // verus!
