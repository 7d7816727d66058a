use vstd::prelude::*;
use crate::errors::MiniMetaDaoError;
use crate::key::AccountKey;
use crate::state::{Dao, Market, Proposal};

verus! {

/// Whether proposal execution by `caller` is allowed, or the first rule it
/// breaks: the caller must be the admin, the proposal not yet executed, and
/// `m` must be the proposal's linked market (record key `market_key`),
/// resolved in favour of YES.
pub open spec fn execute_check(dao: Dao, p: Proposal, market_key: AccountKey, m: Market, caller: AccountKey) -> Result<(), MiniMetaDaoError> {
    if caller@ != dao.admin@ {
        Err(MiniMetaDaoError::Unauthorized)
    } else if p.executed {
        Err(MiniMetaDaoError::ProposalAlreadyExecuted)
    } else if p.market@ != market_key@ || !m.resolved {
        Err(MiniMetaDaoError::MarketNotResolved)
    } else if !m.outcome_yes {
        Err(MiniMetaDaoError::ProposalRejected)
    } else {
        Ok(())
    }
}

/// A new organisation with no proposals yet.
pub fn init_dao(admin: &AccountKey, treasury: &AccountKey, governance_mint: &AccountKey) -> (r: Dao)
    ensures
        r == (Dao {
            admin: *admin,
            treasury: *treasury,
            governance_mint: *governance_mint,
            proposal_count: 0,
        }),
{
    Dao { admin: *admin, treasury: *treasury, governance_mint: *governance_mint, proposal_count: 0 }
}

/// Creates the next proposal: its id is the current proposal count, which
/// then grows by one. Fails with `Overflow`, changing nothing, when the
/// count is at its maximum.
pub fn create_proposal(dao: &mut Dao, creator: &AccountKey, description: String) -> (r: Result<Proposal, MiniMetaDaoError>)
    ensures
        r is Ok <==> old(dao).proposal_count < u64::MAX,
        r is Ok ==> *final(dao) == (Dao { proposal_count: (old(dao).proposal_count + 1) as u64, ..*old(dao) })
            && r->Ok_0.id == old(dao).proposal_count
            && r->Ok_0.creator == *creator
            && r->Ok_0.description@ == description@
            && r->Ok_0.market@ == Seq::new(32, |i: int| 0u8)
            && !r->Ok_0.executed,
        r is Err ==> r->Err_0 == MiniMetaDaoError::Overflow && *final(dao) == *old(dao),
{
    let next = match dao.proposal_count.checked_add(1) {
        Some(n) => n,
        None => {
            return Err(MiniMetaDaoError::Overflow);
        },
    };
    let proposal = Proposal {
        id: dao.proposal_count,
        creator: *creator,
        description,
        market: AccountKey::zero(),
        executed: false,
    };
    dao.proposal_count = next;
    Ok(proposal)
}

/// Authorises the treasury movement of a proposal and marks it executed.
/// The transfer is allowed only when `execute_check` passes; on refusal the
/// proposal is left as it was.
pub fn execute_proposal(
    dao: &Dao,
    proposal: &mut Proposal,
    market_key: &AccountKey,
    market: &Market,
    caller: &AccountKey,
) -> (r: Result<(), MiniMetaDaoError>)
    ensures
        r == execute_check(*dao, *old(proposal), *market_key, *market, *caller),
        r is Ok ==> *final(proposal) == (Proposal { executed: true, ..*old(proposal) }),
        r is Err ==> *final(proposal) == *old(proposal),
{
    if !caller.same_as(&dao.admin) {
        return Err(MiniMetaDaoError::Unauthorized);
    }
    if proposal.executed {
        return Err(MiniMetaDaoError::ProposalAlreadyExecuted);
    }
    if !proposal.market.same_as(market_key) || !market.resolved {
        return Err(MiniMetaDaoError::MarketNotResolved);
    }
    if !market.outcome_yes {
        return Err(MiniMetaDaoError::ProposalRejected);
    }
    proposal.executed = true;
    Ok(())
}

/// A proposal is executed at most once: after a successful execution, the
/// same call again fails with `ProposalAlreadyExecuted`.
pub proof fn lemma_execute_once(dao: Dao, p: Proposal, market_key: AccountKey, m: Market, caller: AccountKey)
    requires
        execute_check(dao, p, market_key, m, caller) is Ok,
    ensures
        execute_check(dao, Proposal { executed: true, ..p }, market_key, m, caller)
            == Err::<(), MiniMetaDaoError>(MiniMetaDaoError::ProposalAlreadyExecuted),
{
}

/// Execution is gated on the market: it is allowed only when the given
/// market is the proposal's own and resolved YES, and the caller is the
/// admin of a proposal not yet executed.
pub proof fn lemma_execution_gated_by_market(dao: Dao, p: Proposal, market_key: AccountKey, m: Market, caller: AccountKey)
    ensures
        execute_check(dao, p, market_key, m, caller) is Ok <==> (caller@ == dao.admin@ && !p.executed
            && p.market@ == market_key@ && m.resolved && m.outcome_yes),
{
}

} // verus!
