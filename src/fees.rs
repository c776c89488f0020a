use vstd::prelude::*;

use crate::error::SettleError;

verus! {

/// The amount left for the user once `fee` is taken out of `deposit`, or
/// `None` when the fee exceeds the deposit.
pub open spec fn spec_user_amount(deposit: u64, fee: u64) -> Option<u64> {
    if fee <= deposit {
        Some((deposit - fee) as u64)
    } else {
        None
    }
}

/// Splits a deposit into the user amount and the protocol fee.
pub fn compute_user_amount(deposit: u64, fee: u64) -> (r: Result<u64, SettleError>)
    ensures
        r is Ok <==> fee <= deposit,
        r is Err ==> r == Err::<u64, SettleError>(SettleError::FeeExceedsDeposit),
        r is Ok ==> r->Ok_0 + fee == deposit,
        r is Ok ==> spec_user_amount(deposit, fee) == Some(r->Ok_0),
{
    if fee > deposit {
        Err(SettleError::FeeExceedsDeposit)
    } else {
        Ok(deposit - fee)
    }
}

/// Whenever the fee does not exceed the deposit, the user amount and the fee
/// add back up to the deposit, with nothing lost.
pub proof fn lemma_amount_conserved(deposit: u64, fee: u64)
    requires
        fee <= deposit,
    ensures
        spec_user_amount(deposit, fee) is Some,
        spec_user_amount(deposit, fee)->Some_0 + fee == deposit,
{
}

} // verus!
