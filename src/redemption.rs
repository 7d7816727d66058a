use vstd::prelude::*;
use crate::errors::MiniMetaDaoError;
use crate::key::AccountKey;
use crate::state::{Market, Position};
use vstd::arithmetic::div_mod::{lemma_div_is_ordered, lemma_div_multiples_vanish, lemma_fundamental_div_mod, lemma_mod_pos_bound};

verus! {

/// The pool of the side the market resolved for.
pub open spec fn winning_pool(m: Market) -> int {
    if m.outcome_yes {
        m.yes_pool as int
    } else {
        m.no_pool as int
    }
}

/// The pool of the side the market resolved against.
pub open spec fn losing_pool(m: Market) -> int {
    if m.outcome_yes {
        m.no_pool as int
    } else {
        m.yes_pool as int
    }
}

/// The pari-mutuel payout of a winning stake: its share of the losing pool,
/// rounded down, plus the stake itself.
pub open spec fn payout_of(amount: int, winning: int, losing: int) -> int {
    amount * losing / winning + amount
}

/// What redeeming `p` against the market `m` (record key `market_key`) by
/// `caller` pays, or the reason it is refused. A winning side with an empty
/// pool cannot be divided by and is refused as `Overflow`, as is a payout
/// beyond 64 bits.
pub open spec fn redeem_outcome(m: Market, market_key: AccountKey, p: Position, caller: AccountKey) -> Result<u64, MiniMetaDaoError> {
    if p.bettor@ != caller@ || p.market@ != market_key@ {
        Err(MiniMetaDaoError::Unauthorized)
    } else if !m.resolved {
        Err(MiniMetaDaoError::MarketNotResolved)
    } else if p.redeemed || p.is_yes != m.outcome_yes {
        Err(MiniMetaDaoError::InvalidOutcome)
    } else if winning_pool(m) == 0 {
        Err(MiniMetaDaoError::Overflow)
    } else if payout_of(p.amount as int, winning_pool(m), losing_pool(m)) > u64::MAX {
        Err(MiniMetaDaoError::Overflow)
    } else {
        Ok(payout_of(p.amount as int, winning_pool(m), losing_pool(m)) as u64)
    }
}

/// Redeems a winning position: returns the payout owed to its bettor and
/// marks the position redeemed, or refuses and leaves it as it was. The
/// market's pools are only read, so redemptions of distinct positions are
/// independent of one another. A market resolved for a side nobody backed
/// has an empty winning pool; redeeming against it is refused with
/// `Overflow` rather than dividing by zero.
pub fn redeem(
    market: &Market,
    market_key: &AccountKey,
    position: &mut Position,
    caller: &AccountKey,
) -> (r: Result<u64, MiniMetaDaoError>)
    ensures
        r == redeem_outcome(*market, *market_key, *old(position), *caller),
        r is Ok ==> *final(position) == (Position { redeemed: true, ..*old(position) }),
        r is Err ==> *final(position) == *old(position),
{
    if !position.bettor.same_as(caller) || !position.market.same_as(market_key) {
        return Err(MiniMetaDaoError::Unauthorized);
    }
    if !market.resolved {
        return Err(MiniMetaDaoError::MarketNotResolved);
    }
    if position.redeemed || position.is_yes != market.outcome_yes {
        return Err(MiniMetaDaoError::InvalidOutcome);
    }
    let (winning, losing) = if market.outcome_yes {
        (market.yes_pool, market.no_pool)
    } else {
        (market.no_pool, market.yes_pool)
    };
    if winning == 0 {
        return Err(MiniMetaDaoError::Overflow);
    }
    let amount = position.amount;
    proof {
        assert((amount as int) * (losing as int) <= (u64::MAX as int) * (u64::MAX as int)) by (nonlinear_arith)
            requires amount <= u64::MAX, losing <= u64::MAX;
    }
    let share: u128 = (amount as u128) * (losing as u128) / (winning as u128);
    proof {
        assert(share <= (amount as int) * (losing as int)) by (nonlinear_arith)
            requires share == (amount as int) * (losing as int) / (winning as int), winning >= 1,
                amount >= 0, losing >= 0;
    }
    let total: u128 = share + amount as u128;
    if total > u64::MAX as u128 {
        return Err(MiniMetaDaoError::Overflow);
    }
    position.redeemed = true;
    Ok(total as u64)
}

/// A position pays out at most once: once redeemed, redeeming it again
/// against the same market fails with `InvalidOutcome`.
pub proof fn lemma_redeem_once(m: Market, market_key: AccountKey, p: Position, caller: AccountKey)
    requires
        redeem_outcome(m, market_key, p, caller) is Ok,
    ensures
        redeem_outcome(m, market_key, Position { redeemed: true, ..p }, caller)
            == Err::<u64, MiniMetaDaoError>(MiniMetaDaoError::InvalidOutcome),
{
}

/// A position on the losing side of a resolved market pays nothing: its
/// owner's redemption fails with `InvalidOutcome`.
pub proof fn lemma_losing_side_pays_nothing(m: Market, market_key: AccountKey, p: Position)
    requires
        m.resolved,
        p.is_yes != m.outcome_yes,
        p.market@ == market_key@,
    ensures
        redeem_outcome(m, market_key, p, p.bettor)
            == Err::<u64, MiniMetaDaoError>(MiniMetaDaoError::InvalidOutcome),
{
}

/// The total of a run of stakes.
pub open spec fn sum_amounts(amounts: Seq<u64>) -> int
    decreases amounts.len(),
{
    if amounts.len() == 0 {
        0
    } else {
        sum_amounts(amounts.drop_last()) + amounts.last()
    }
}

/// The total paid out to a run of winning stakes from pools `winning` and
/// `losing`.
pub open spec fn sum_payouts(amounts: Seq<u64>, winning: int, losing: int) -> int
    decreases amounts.len(),
{
    if amounts.len() == 0 {
        0
    } else {
        sum_payouts(amounts.drop_last(), winning, losing) + payout_of(amounts.last() as int, winning, losing)
    }
}

proof fn lemma_floor_sum(x: int, y: int, w: int)
    requires
        x >= 0,
        y >= 0,
        w > 0,
    ensures
        x / w + y / w <= (x + y) / w,
{
    lemma_fundamental_div_mod(x, w);
    lemma_fundamental_div_mod(y, w);
    lemma_mod_pos_bound(x, w);
    lemma_mod_pos_bound(y, w);
    let q = x / w + y / w;
    assert(w * q <= x + y) by (nonlinear_arith)
        requires
            x == w * (x / w) + x % w,
            y == w * (y / w) + y % w,
            x % w >= 0,
            y % w >= 0,
            q == x / w + y / w;
    lemma_div_is_ordered(w * q, x + y, w);
    lemma_div_multiples_vanish(q, w);
}

proof fn lemma_payouts_bounded(amounts: Seq<u64>, winning: int, losing: int)
    requires
        winning > 0,
        losing >= 0,
    ensures
        sum_payouts(amounts, winning, losing)
            <= sum_amounts(amounts) + sum_amounts(amounts) * losing / winning,
        sum_amounts(amounts) >= 0,
    decreases amounts.len(),
{
    if amounts.len() > 0 {
        let rest = amounts.drop_last();
        let x = amounts.last() as int;
        let s = sum_amounts(rest);
        lemma_payouts_bounded(rest, winning, losing);
        assert(s * losing >= 0 && x * losing >= 0) by (nonlinear_arith)
            requires s >= 0, x >= 0, losing >= 0;
        lemma_floor_sum(s * losing, x * losing, winning);
        assert(s * losing + x * losing == (s + x) * losing) by (nonlinear_arith);
    }
}

/// The pools cover every winner: when the winning stakes redeemed add up to
/// no more than the winning pool, their payouts together never exceed the
/// two pools, so the market's holding cannot be overdrawn by redemptions.
pub proof fn lemma_payouts_covered_by_pools(amounts: Seq<u64>, winning: int, losing: int)
    requires
        winning > 0,
        losing >= 0,
        sum_amounts(amounts) <= winning,
    ensures
        sum_payouts(amounts, winning, losing) <= winning + losing,
{
    lemma_payouts_bounded(amounts, winning, losing);
    let s = sum_amounts(amounts);
    assert(s * losing <= winning * losing) by (nonlinear_arith)
        requires s <= winning, losing >= 0;
    lemma_div_is_ordered(s * losing, winning * losing, winning);
    lemma_div_multiples_vanish(losing, winning);
}

} // verus!
