use vstd::prelude::*;
use crate::key::AccountKey;

verus! {

/// The organisation: its admin, treasury and governance token, and the
/// number of proposals created so far.
#[derive(Debug, Clone)]
pub struct Dao {
    pub admin: AccountKey,
    pub treasury: AccountKey,
    pub governance_mint: AccountKey,
    pub proposal_count: u64,
}

/// A governance proposal; `market` is the zero key until a market is opened
/// against it, and `executed` only ever goes from false to true.
#[derive(Debug, Clone)]
pub struct Proposal {
    pub id: u64,
    pub creator: AccountKey,
    pub description: String,
    pub market: AccountKey,
    pub executed: bool,
}

/// A binary pari-mutuel market. The pools hold net stakes per side and the
/// fees skimmed; `outcome_yes` means something only once `resolved`.
#[derive(Debug, Clone, Copy)]
pub struct Market {
    pub proposal: AccountKey,
    pub yes_pool: u64,
    pub no_pool: u64,
    pub fee_pool: u64,
    pub closes_at: i64,
    pub resolved: bool,
    pub outcome_yes: bool,
}

/// One bettor's stake on one side of one market.
#[derive(Debug, Clone, Copy)]
pub struct Position {
    pub bettor: AccountKey,
    pub market: AccountKey,
    pub amount: u64,
    pub is_yes: bool,
    pub redeemed: bool,
}

/// Where a market stands in its life: strictly forward from `Open` to
/// `Closed` to `Resolved`.
#[derive(Debug, Clone, Copy, PartialEq, Eq, Structural)]
pub enum MarketState {
    Open,
    Closed,
    Resolved,
}

impl Market {
    /// The total value credited to the market's pools.
    pub open spec fn pool_total(self) -> int {
        self.yes_pool + self.no_pool + self.fee_pool
    }

    /// The state of the market at time `now`.
    pub open spec fn state_at(self, now: int) -> MarketState {
        if self.resolved {
            MarketState::Resolved
        } else if now >= self.closes_at {
            MarketState::Closed
        } else {
            MarketState::Open
        }
    }

    /// The state of the market at time `now`.
    pub fn state(&self, now: i64) -> (r: MarketState)
        ensures
            r == self.state_at(now as int),
    {
        if self.resolved {
            MarketState::Resolved
        } else if crate::time::is_expired(now, self.closes_at) {
            MarketState::Closed
        } else {
            MarketState::Open
        }
    }
}

} // verus!
