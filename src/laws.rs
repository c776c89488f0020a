use vstd::prelude::*;

use crate::error::SettleError;
use crate::ledger::{lemma_sum_bounds, has_holding, has_record, holding_index, ledger_wf, LedgerView};
use crate::settle::{custody_of, settle_error, settled_view, user_amount_of};
use crate::state::PreparedOrderResponse;

verus! {

/// Once a settlement of `p` has succeeded, any further attempt on the same
/// attested message through the burn-and-mint path fails with
/// `AlreadySettled`, whatever its fee; a successful settlement registers
/// exactly one burn and publishes exactly one message.
pub proof fn lemma_settle_twice(
    v: LedgerView,
    p: PreparedOrderResponse,
    fee: u64,
    again: PreparedOrderResponse,
    fee_again: u64,
)
    requires
        ledger_wf(v),
        settle_error(v, p, fee) is None,
        again.fast_vaa_hash == p.fast_vaa_hash,
        again.to_endpoint.protocol is Cctp,
    ensures
        settle_error(settled_view(v, p, fee), again, fee_again) == Some(SettleError::AlreadySettled),
        settled_view(v, p, fee).burns.len() == v.burns.len() + 1,
        settled_view(v, p, fee).messages.len() == v.messages.len() + 1,
{
    let w = settled_view(v, p, fee);
    assert(w.records[v.records.len() as int] == p.fast_vaa_hash);
    assert(has_record(w, again.fast_vaa_hash));
}

/// A settlement whose destination does not use the burn-and-mint bridge fails
/// with `ProtocolMismatch`, before any other step.
pub proof fn lemma_protocol_mismatch(v: LedgerView, p: PreparedOrderResponse, fee: u64)
    requires
        !(p.to_endpoint.protocol is Cctp),
    ensures
        settle_error(v, p, fee) == Some(SettleError::ProtocolMismatch),
{
}

/// After a successful settlement the custody holding no longer exists, and it
/// held exactly the fee and the burned user amount, so it was empty when it
/// was closed.
pub proof fn lemma_custody_closed(v: LedgerView, p: PreparedOrderResponse, fee: u64)
    requires
        ledger_wf(v),
        settle_error(v, p, fee) is None,
    ensures
        !has_holding(settled_view(v, p, fee), p.custody_token),
        custody_of(v, p).balance == fee + user_amount_of(p, fee),
{
    let i = holding_index(v, p.custody_token);
    let w = settled_view(v, p, fee);
    assert(v.holdings[i].address == p.custody_token);
    assert forall|j: int| 0 <= j < w.holdings.len() implies w.holdings[j].address
        != p.custody_token by {
        let k = if j < i { j } else { j + 1 };
        assert(w.holdings[j] == v.holdings[k]);
        assert(v.holdings[k].address != v.holdings[i].address);
    }
}

/// A settlement moves exactly the deposit: the fee recipient gains the fee,
/// the burned amount is the rest, and together they make the deposit.
pub proof fn lemma_funds_moved(v: LedgerView, p: PreparedOrderResponse, fee: u64)
    requires
        ledger_wf(v),
        settle_error(v, p, fee) is None,
    ensures
        settled_view(v, p, fee).fee_recipient_balance == v.fee_recipient_balance + fee,
        settled_view(v, p, fee).burns.last().amount + fee == p.amount_in,
        settled_view(v, p, fee).total == v.total - user_amount_of(p, fee),
{
    let i = holding_index(v, p.custody_token);
    lemma_sum_bounds(v.holdings, i);
}

/// A settlement that the bridge refuses leaves no settlement record behind:
/// none existed before, and a failed settlement changes nothing.
pub proof fn lemma_bridge_failure_leaves_no_record(
    v: LedgerView,
    p: PreparedOrderResponse,
    fee: u64,
)
    requires
        settle_error(v, p, fee) == Some(SettleError::BridgeCallFailed),
    ensures
        !has_record(v, p.fast_vaa_hash),
{
}

} // verus!
