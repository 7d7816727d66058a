use vstd::prelude::*;
use crate::constants::{BPS_DENOMINATOR, FEE_BPS};
use crate::errors::MiniMetaDaoError;

verus! {

/// The protocol fee on a gross amount: `floor(amount * FEE_BPS / BPS_DENOMINATOR)`.
pub open spec fn fee_of(amount: int) -> int {
    amount * FEE_BPS / BPS_DENOMINATOR as int
}

/// The gross amount less its fee.
pub open spec fn net_of(amount: int) -> int {
    amount - fee_of(amount)
}

/// Whether `amount * FEE_BPS` fits in 64 bits.
pub open spec fn fee_fits(amount: int) -> bool {
    amount * FEE_BPS <= u64::MAX
}

/// Computes the fee on `amount`, failing with `Overflow` when the product
/// with the fee rate leaves 64 bits.
pub fn calculate_fee(amount: u64) -> (r: Result<u64, MiniMetaDaoError>)
    ensures
        fee_fits(amount as int) <==> r is Ok,
        r is Ok ==> r->Ok_0 == fee_of(amount as int),
        r is Err ==> r->Err_0 == MiniMetaDaoError::Overflow,
{
    match amount.checked_mul(FEE_BPS) {
        Some(scaled) => Ok(scaled / BPS_DENOMINATOR),
        None => Err(MiniMetaDaoError::Overflow),
    }
}

/// Splits a gross amount into `(net, fee)`; the two always add up to the
/// gross amount.
pub fn apply_fee(amount: u64) -> (r: Result<(u64, u64), MiniMetaDaoError>)
    ensures
        fee_fits(amount as int) <==> r is Ok,
        r is Ok ==> r->Ok_0.1 == fee_of(amount as int)
            && r->Ok_0.0 == net_of(amount as int)
            && r->Ok_0.0 + r->Ok_0.1 == amount,
        r is Err ==> r->Err_0 == MiniMetaDaoError::Overflow,
{
    let fee = calculate_fee(amount)?;
    proof {
        assert(fee_of(amount as int) <= amount) by (nonlinear_arith)
            requires amount >= 0;
    }
    Ok((amount - fee, fee))
}

} // verus!
