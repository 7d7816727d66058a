use mini_meta_dao::errors::MiniMetaDaoError;
use mini_meta_dao::governance::{create_proposal, execute_proposal, init_dao};
use mini_meta_dao::key::AccountKey;
use mini_meta_dao::market::{buy_no, buy_yes, open_market, resolve_market};
use mini_meta_dao::redemption::redeem;
use mini_meta_dao::state::{Market, Position};

fn key(b: u8) -> AccountKey {
    AccountKey::new([b; 32])
}

fn resolved(yes_pool: u64, no_pool: u64, outcome_yes: bool) -> Market {
    Market {
        proposal: key(10),
        yes_pool,
        no_pool,
        fee_pool: 0,
        closes_at: 0,
        resolved: true,
        outcome_yes,
    }
}

fn position(amount: u64, is_yes: bool) -> Position {
    Position { bettor: key(5), market: key(20), amount, is_yes, redeemed: false }
}

#[test]
fn pari_mutuel_payout() {
    let m = resolved(800_000, 200_000, true);
    let mut p = position(100_000, true);
    assert_eq!(redeem(&m, &key(20), &mut p, &key(5)), Ok(125_000));
    assert!(p.redeemed);
}

#[test]
fn payout_rounds_share_down() {
    let m = resolved(300_000, 100_000, false);
    let mut p = position(7, false);
    assert_eq!(redeem(&m, &key(20), &mut p, &key(5)), Ok(7 * 300_000 / 100_000 + 7));
    let m = resolved(3, 1, true);
    let mut p = position(1, true);
    assert_eq!(redeem(&m, &key(20), &mut p, &key(5)), Ok(1));
}

#[test]
fn payout_with_large_product_is_exact() {
    let m = resolved(u64::MAX / 2, u64::MAX / 2, true);
    let mut p = position(u64::MAX / 4, true);
    assert_eq!(redeem(&m, &key(20), &mut p, &key(5)), Ok((u64::MAX / 4) * 2));
}

#[test]
fn redeem_twice_fails() {
    let m = resolved(800_000, 200_000, true);
    let mut p = position(100_000, true);
    assert_eq!(redeem(&m, &key(20), &mut p, &key(5)), Ok(125_000));
    assert_eq!(redeem(&m, &key(20), &mut p, &key(5)), Err(MiniMetaDaoError::InvalidOutcome));
    assert!(p.redeemed);
}

#[test]
fn redeem_losing_side_fails() {
    let m = resolved(800_000, 200_000, true);
    let mut p = position(100_000, false);
    assert_eq!(redeem(&m, &key(20), &mut p, &key(5)), Err(MiniMetaDaoError::InvalidOutcome));
    assert!(!p.redeemed);
}

#[test]
fn redeem_before_resolution_fails() {
    let mut m = resolved(800_000, 200_000, true);
    m.resolved = false;
    let mut p = position(100_000, true);
    assert_eq!(redeem(&m, &key(20), &mut p, &key(5)), Err(MiniMetaDaoError::MarketNotResolved));
    assert!(!p.redeemed);
}

#[test]
fn redeem_by_other_identity_fails() {
    let m = resolved(800_000, 200_000, true);
    let mut p = position(100_000, true);
    assert_eq!(redeem(&m, &key(20), &mut p, &key(6)), Err(MiniMetaDaoError::Unauthorized));
    assert_eq!(redeem(&m, &key(21), &mut p, &key(5)), Err(MiniMetaDaoError::Unauthorized));
    assert!(!p.redeemed);
}

#[test]
fn redeem_empty_winning_pool_fails() {
    let m = resolved(0, 200_000, true);
    let mut p = position(100_000, true);
    assert_eq!(redeem(&m, &key(20), &mut p, &key(5)), Err(MiniMetaDaoError::Overflow));
    assert!(!p.redeemed);
}

#[test]
fn redeem_payout_overflow_fails() {
    let m = resolved(1, u64::MAX, true);
    let mut p = position(2, true);
    assert_eq!(redeem(&m, &key(20), &mut p, &key(5)), Err(MiniMetaDaoError::Overflow));
    assert!(!p.redeemed);
}

#[test]
fn full_round_pays_out_within_pools() {
    let mut dao = init_dao(&key(1), &key(2), &key(3));
    let mut proposal = create_proposal(&mut dao, &key(4), String::from("grant")).unwrap();
    let now: i64 = 1_000;
    let mut m = open_market(&mut proposal, &key(10), &key(20), 86_400, now).unwrap();
    let mut a = buy_yes(&mut m, &key(20), &key(5), 3_000_000, now).unwrap();
    let mut b = buy_yes(&mut m, &key(20), &key(6), 1_000_000, now).unwrap();
    let mut c = buy_no(&mut m, &key(20), &key(7), 2_000_000, now).unwrap();
    let close = m.closes_at;
    resolve_market(&mut m, true, close).unwrap();
    let pa = redeem(&m, &key(20), &mut a, &key(5)).unwrap();
    let pb = redeem(&m, &key(20), &mut b, &key(6)).unwrap();
    assert_eq!(pa, 2_940_000 + 2_940_000 * 2_000_000 / 3_920_000);
    assert_eq!(pb, 980_000 + 980_000 * 2_000_000 / 3_920_000);
    assert!(pa + pb <= m.yes_pool + m.no_pool);
    assert_eq!(redeem(&m, &key(20), &mut c, &key(7)), Err(MiniMetaDaoError::InvalidOutcome));
    assert_eq!(execute_proposal(&dao, &mut proposal, &key(20), &m, &key(1)), Ok(()));
    assert!(proposal.executed);
}

#[test]
fn proposals_get_increasing_ids() {
    let mut dao = init_dao(&key(1), &key(2), &key(3));
    assert_eq!(dao.proposal_count, 0);
    let p0 = create_proposal(&mut dao, &key(4), String::from("a")).unwrap();
    let p1 = create_proposal(&mut dao, &key(4), String::from("b")).unwrap();
    assert_eq!((p0.id, p1.id, dao.proposal_count), (0, 1, 2));
    assert_eq!(p1.description, "b");
    assert!(!p0.executed);
    assert!(p0.market.same_as(&AccountKey::zero()));
}

#[test]
fn proposal_count_overflow() {
    let mut dao = init_dao(&key(1), &key(2), &key(3));
    dao.proposal_count = u64::MAX;
    assert_eq!(create_proposal(&mut dao, &key(4), String::from("a")).unwrap_err(), MiniMetaDaoError::Overflow);
    assert_eq!(dao.proposal_count, u64::MAX);
}

fn linked_proposal() -> (mini_meta_dao::state::Dao, mini_meta_dao::state::Proposal) {
    let mut dao = init_dao(&key(1), &key(2), &key(3));
    let mut proposal = create_proposal(&mut dao, &key(4), String::from("x")).unwrap();
    proposal.market = key(20);
    (dao, proposal)
}

#[test]
fn execute_twice_fails() {
    let (dao, mut proposal) = linked_proposal();
    let m = resolved(1, 1, true);
    assert_eq!(execute_proposal(&dao, &mut proposal, &key(20), &m, &key(1)), Ok(()));
    assert_eq!(
        execute_proposal(&dao, &mut proposal, &key(20), &m, &key(1)),
        Err(MiniMetaDaoError::ProposalAlreadyExecuted)
    );
    assert!(proposal.executed);
}

#[test]
fn execute_requires_admin() {
    let (dao, mut proposal) = linked_proposal();
    let m = resolved(1, 1, true);
    assert_eq!(execute_proposal(&dao, &mut proposal, &key(20), &m, &key(9)), Err(MiniMetaDaoError::Unauthorized));
    assert!(!proposal.executed);
}

#[test]
fn execute_requires_resolved_linked_market() {
    let (dao, mut proposal) = linked_proposal();
    let mut m = resolved(1, 1, true);
    m.resolved = false;
    assert_eq!(execute_proposal(&dao, &mut proposal, &key(20), &m, &key(1)), Err(MiniMetaDaoError::MarketNotResolved));
    let m = resolved(1, 1, true);
    assert_eq!(execute_proposal(&dao, &mut proposal, &key(21), &m, &key(1)), Err(MiniMetaDaoError::MarketNotResolved));
    assert!(!proposal.executed);
}

#[test]
fn execute_rejected_by_market() {
    let (dao, mut proposal) = linked_proposal();
    let m = resolved(1, 1, false);
    assert_eq!(execute_proposal(&dao, &mut proposal, &key(20), &m, &key(1)), Err(MiniMetaDaoError::ProposalRejected));
    assert!(!proposal.executed);
}

#[test]
fn key_comparison() {
    let mut bytes = [7u8; 32];
    assert!(AccountKey::new(bytes).same_as(&AccountKey::new(bytes)));
    bytes[31] = 8;
    assert!(!AccountKey::new(bytes).same_as(&key(7)));
    assert!(!key(0).same_as(&key(1)));
    assert!(key(0).same_as(&AccountKey::zero()));
}
