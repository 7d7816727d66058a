use vstd::prelude::*;
use crate::constants::MIN_BET_AMOUNT;
use crate::errors::MiniMetaDaoError;
use crate::fees::{apply_fee, fee_fits, fee_of, net_of};
use crate::key::AccountKey;
use crate::state::{Market, Position, Proposal};
use crate::time::is_expired;
use crate::validation::{duration_ok, validate_bet_amount, validate_market_duration};

verus! {

/// The market that opening against `proposal_key` at `now` for `duration`
/// seconds yields, or the reason it is refused.
pub open spec fn open_outcome(proposal_key: AccountKey, duration: i64, now: i64) -> Result<Market, MiniMetaDaoError> {
    if !duration_ok(duration as int) {
        Err(MiniMetaDaoError::InvalidMarketDuration)
    } else if now + duration > i64::MAX {
        Err(MiniMetaDaoError::Overflow)
    } else {
        Ok(Market {
            proposal: proposal_key,
            yes_pool: 0,
            no_pool: 0,
            fee_pool: 0,
            closes_at: (now + duration) as i64,
            resolved: false,
            outcome_yes: false,
        })
    }
}

/// The market after a gross stake of `amount` on one side at `now`, or the
/// reason it is refused. A YES stake credits its net to the YES pool and its
/// fee to the fee pool; a NO stake credits the whole amount to the NO pool.
/// That NO stakes pay no fee is a known asymmetry, kept because callers rely
/// on it; whether NO stakes should pay the same fee is an open product
/// question.
pub open spec fn stake_outcome(m: Market, is_yes: bool, amount: u64, now: i64) -> Result<Market, MiniMetaDaoError> {
    if amount < MIN_BET_AMOUNT {
        Err(MiniMetaDaoError::BetTooSmall)
    } else if now >= m.closes_at {
        Err(MiniMetaDaoError::MarketClosed)
    } else if is_yes {
        if !fee_fits(amount as int) || m.yes_pool + net_of(amount as int) > u64::MAX
            || m.fee_pool + fee_of(amount as int) > u64::MAX {
            Err(MiniMetaDaoError::Overflow)
        } else {
            Ok(Market {
                yes_pool: (m.yes_pool + net_of(amount as int)) as u64,
                fee_pool: (m.fee_pool + fee_of(amount as int)) as u64,
                ..m
            })
        }
    } else {
        if m.no_pool + amount > u64::MAX {
            Err(MiniMetaDaoError::Overflow)
        } else {
            Ok(Market { no_pool: (m.no_pool + amount) as u64, ..m })
        }
    }
}

/// The amount credited to a position for a gross stake on one side.
pub open spec fn credited(is_yes: bool, amount: u64) -> int {
    if is_yes {
        net_of(amount as int)
    } else {
        amount as int
    }
}

/// The market after resolving it with `outcome_yes` at `now`, or the reason
/// it is refused.
pub open spec fn resolve_outcome(m: Market, outcome_yes: bool, now: i64) -> Result<Market, MiniMetaDaoError> {
    if now < m.closes_at {
        Err(MiniMetaDaoError::MarketStillActive)
    } else if m.resolved {
        Err(MiniMetaDaoError::MarketAlreadyResolved)
    } else {
        Ok(Market { resolved: true, outcome_yes, ..m })
    }
}

/// Opens a market against `proposal` (whose record key is `proposal_key`)
/// under the key `market_key`, closing `duration` seconds after `now`, and
/// links the proposal to it.
pub fn open_market(
    proposal: &mut Proposal,
    proposal_key: &AccountKey,
    market_key: &AccountKey,
    duration: i64,
    now: i64,
) -> (r: Result<Market, MiniMetaDaoError>)
    ensures
        r == open_outcome(*proposal_key, duration, now),
        r is Ok ==> *final(proposal) == (Proposal { market: *market_key, ..*old(proposal) }),
        r is Err ==> *final(proposal) == *old(proposal),
{
    validate_market_duration(duration)?;
    let closes_at = match now.checked_add(duration) {
        Some(t) => t,
        None => {
            return Err(MiniMetaDaoError::Overflow);
        },
    };
    let market = Market {
        proposal: *proposal_key,
        yes_pool: 0,
        no_pool: 0,
        fee_pool: 0,
        closes_at,
        resolved: false,
        outcome_yes: false,
    };
    proposal.market = *market_key;
    Ok(market)
}

/// Stakes a gross `amount` on YES for `bettor`: the fee is skimmed into the
/// fee pool, the net credited to the YES pool and to the new position.
pub fn buy_yes(
    market: &mut Market,
    market_key: &AccountKey,
    bettor: &AccountKey,
    amount: u64,
    now: i64,
) -> (r: Result<Position, MiniMetaDaoError>)
    ensures
        r is Ok <==> stake_outcome(*old(market), true, amount, now) is Ok,
        r is Ok ==> *final(market) == stake_outcome(*old(market), true, amount, now)->Ok_0
            && r->Ok_0 == (Position {
                bettor: *bettor,
                market: *market_key,
                amount: credited(true, amount) as u64,
                is_yes: true,
                redeemed: false,
            }),
        r is Err ==> r->Err_0 == stake_outcome(*old(market), true, amount, now)->Err_0
            && *final(market) == *old(market),
{
    validate_bet_amount(amount)?;
    if is_expired(now, market.closes_at) {
        return Err(MiniMetaDaoError::MarketClosed);
    }
    let (net_amount, fee) = apply_fee(amount)?;
    let yes_pool = match market.yes_pool.checked_add(net_amount) {
        Some(v) => v,
        None => {
            return Err(MiniMetaDaoError::Overflow);
        },
    };
    let fee_pool = match market.fee_pool.checked_add(fee) {
        Some(v) => v,
        None => {
            return Err(MiniMetaDaoError::Overflow);
        },
    };
    market.yes_pool = yes_pool;
    market.fee_pool = fee_pool;
    Ok(Position { bettor: *bettor, market: *market_key, amount: net_amount, is_yes: true, redeemed: false })
}

/// Stakes a gross `amount` on NO for `bettor`: the whole amount is credited
/// to the NO pool and to the new position, with no fee skimmed.
pub fn buy_no(
    market: &mut Market,
    market_key: &AccountKey,
    bettor: &AccountKey,
    amount: u64,
    now: i64,
) -> (r: Result<Position, MiniMetaDaoError>)
    ensures
        r is Ok <==> stake_outcome(*old(market), false, amount, now) is Ok,
        r is Ok ==> *final(market) == stake_outcome(*old(market), false, amount, now)->Ok_0
            && r->Ok_0 == (Position {
                bettor: *bettor,
                market: *market_key,
                amount: credited(false, amount) as u64,
                is_yes: false,
                redeemed: false,
            }),
        r is Err ==> r->Err_0 == stake_outcome(*old(market), false, amount, now)->Err_0
            && *final(market) == *old(market),
{
    validate_bet_amount(amount)?;
    if is_expired(now, market.closes_at) {
        return Err(MiniMetaDaoError::MarketClosed);
    }
    let no_pool = match market.no_pool.checked_add(amount) {
        Some(v) => v,
        None => {
            return Err(MiniMetaDaoError::Overflow);
        },
    };
    market.no_pool = no_pool;
    Ok(Position { bettor: *bettor, market: *market_key, amount, is_yes: false, redeemed: false })
}

/// Fixes the market's outcome once its close time has passed; an outcome
/// once set is never changed.
pub fn resolve_market(market: &mut Market, outcome_yes: bool, now: i64) -> (r: Result<(), MiniMetaDaoError>)
    ensures
        r is Ok <==> resolve_outcome(*old(market), outcome_yes, now) is Ok,
        r is Ok ==> *final(market) == resolve_outcome(*old(market), outcome_yes, now)->Ok_0,
        r is Err ==> r->Err_0 == resolve_outcome(*old(market), outcome_yes, now)->Err_0
            && *final(market) == *old(market),
{
    if !is_expired(now, market.closes_at) {
        return Err(MiniMetaDaoError::MarketStillActive);
    }
    if market.resolved {
        return Err(MiniMetaDaoError::MarketAlreadyResolved);
    }
    market.resolved = true;
    market.outcome_yes = outcome_yes;
    Ok(())
}

/// One stake as it reaches a market: side (`true` for YES), gross amount
/// and arrival time.
pub type StakeRequest = (bool, u64, i64);

/// The market after a run of stakes in order; each refused stake leaves it
/// as it was.
pub open spec fn apply_stakes(m: Market, stakes: Seq<StakeRequest>) -> Market
    decreases stakes.len(),
{
    if stakes.len() == 0 {
        m
    } else {
        let prev = apply_stakes(m, stakes.drop_last());
        let s = stakes.last();
        match stake_outcome(prev, s.0, s.1, s.2) {
            Ok(next) => next,
            Err(_) => prev,
        }
    }
}

/// The gross value the accepted stakes of a run brought into the market.
pub open spec fn contributed(m: Market, stakes: Seq<StakeRequest>) -> int
    decreases stakes.len(),
{
    if stakes.len() == 0 {
        0
    } else {
        let prev = apply_stakes(m, stakes.drop_last());
        let s = stakes.last();
        contributed(m, stakes.drop_last()) + if stake_outcome(prev, s.0, s.1, s.2) is Ok {
            s.1 as int
        } else {
            0
        }
    }
}

/// Value is conserved by staking: after any run of stakes the pools of a
/// market hold exactly what they held before plus the gross amounts of the
/// stakes accepted, so their total never decreases; no stake changes the
/// close time or the resolution.
pub proof fn lemma_stakes_conserve_value(m: Market, stakes: Seq<StakeRequest>)
    ensures
        apply_stakes(m, stakes).pool_total() == m.pool_total() + contributed(m, stakes),
        apply_stakes(m, stakes).pool_total() >= m.pool_total(),
        apply_stakes(m, stakes).closes_at == m.closes_at,
        apply_stakes(m, stakes).resolved == m.resolved,
        apply_stakes(m, stakes).outcome_yes == m.outcome_yes,
    decreases stakes.len(),
{
    if stakes.len() > 0 {
        lemma_stakes_conserve_value(m, stakes.drop_last());
        assert(contributed(m, stakes.drop_last()) >= 0) by {
            lemma_contributed_nonnegative(m, stakes.drop_last());
        }
    }
}

proof fn lemma_contributed_nonnegative(m: Market, stakes: Seq<StakeRequest>)
    ensures
        contributed(m, stakes) >= 0,
    decreases stakes.len(),
{
    if stakes.len() > 0 {
        lemma_contributed_nonnegative(m, stakes.drop_last());
    }
}

/// Resolution happens once: after a successful resolution at `t1`, another
/// at any later `t2` fails with `MarketAlreadyResolved`, and the outcome of
/// the first stands in the market; a refused call changes nothing.
pub proof fn lemma_resolve_once(m: Market, first: bool, second: bool, t1: i64, t2: i64)
    requires
        resolve_outcome(m, first, t1) is Ok,
        t1 <= t2,
    ensures
        resolve_outcome(m, first, t1)->Ok_0.resolved,
        resolve_outcome(m, first, t1)->Ok_0.outcome_yes == first,
        resolve_outcome(resolve_outcome(m, first, t1)->Ok_0, second, t2)
            == Err::<Market, MiniMetaDaoError>(MiniMetaDaoError::MarketAlreadyResolved),
{
}

/// A resolved market accepts no stakes: the outcome can no longer be moved
/// by money arriving after the close.
pub proof fn lemma_resolved_market_refuses_stakes(m: Market, outcome_yes: bool, t1: i64, is_yes: bool, amount: u64, t2: i64)
    requires
        resolve_outcome(m, outcome_yes, t1) is Ok,
        t1 <= t2,
        amount >= MIN_BET_AMOUNT,
    ensures
        stake_outcome(resolve_outcome(m, outcome_yes, t1)->Ok_0, is_yes, amount, t2)
            == Err::<Market, MiniMetaDaoError>(MiniMetaDaoError::MarketClosed),
{
}

} // verus!
