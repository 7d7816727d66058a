use vstd::prelude::*;
use crate::constants::{MAX_MARKET_DURATION, MIN_BET_AMOUNT, MIN_MARKET_DURATION};
use crate::errors::MiniMetaDaoError;

verus! {

/// Whether a market duration lies in the allowed window.
pub open spec fn duration_ok(duration: int) -> bool {
    MIN_MARKET_DURATION <= duration <= MAX_MARKET_DURATION
}

/// Accepts a market duration inside `[MIN_MARKET_DURATION, MAX_MARKET_DURATION]`.
pub fn validate_market_duration(duration: i64) -> (r: Result<(), MiniMetaDaoError>)
    ensures
        r is Ok <==> duration_ok(duration as int),
        r is Err ==> r->Err_0 == MiniMetaDaoError::InvalidMarketDuration,
{
    if duration >= MIN_MARKET_DURATION && duration <= MAX_MARKET_DURATION {
        Ok(())
    } else {
        Err(MiniMetaDaoError::InvalidMarketDuration)
    }
}

/// Accepts a gross stake of at least `MIN_BET_AMOUNT`.
pub fn validate_bet_amount(amount: u64) -> (r: Result<(), MiniMetaDaoError>)
    ensures
        r is Ok <==> amount >= MIN_BET_AMOUNT,
        r is Err ==> r->Err_0 == MiniMetaDaoError::BetTooSmall,
{
    if amount >= MIN_BET_AMOUNT {
        Ok(())
    } else {
        Err(MiniMetaDaoError::BetTooSmall)
    }
}

/// Takes `amount` out of a holding of `balance`: the balance left, or
/// `InsufficientFunds` when the holding cannot cover it.
pub fn debit(balance: u64, amount: u64) -> (r: Result<u64, MiniMetaDaoError>)
    ensures
        r is Ok <==> amount <= balance,
        r is Ok ==> r->Ok_0 == balance - amount,
        r is Err ==> r->Err_0 == MiniMetaDaoError::InsufficientFunds,
{
    if amount <= balance {
        Ok(balance - amount)
    } else {
        Err(MiniMetaDaoError::InsufficientFunds)
    }
}

} // verus!
