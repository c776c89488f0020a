use vstd::prelude::*;

use crate::error::SettleError;
use crate::fees::compute_user_amount;
use crate::fill::{spec_fill_bytes, Fill};
use crate::ledger::{
    has_burn_slot, has_holding, has_message_slot, has_record, holding_index, BurnOrder, Holding,
    Ledger, LedgerView, MessageSlot, PostedMessage, PostedMessageView, Reclaim, SlotKind,
};
use crate::state::{same_address, MessageProtocol, PreparedOrderResponse};

verus! {

/// Nonce that every published fill message carries.
pub const MESSAGE_NONCE: u32 = 0;

/// The bridge's message slot of the settlement recorded under `key`.
pub open spec fn bridge_slot(key: [u8; 32]) -> MessageSlot {
    MessageSlot { kind: SlotKind::Bridge, auction: key }
}

/// The fill message's slot of the settlement recorded under `key`.
pub open spec fn core_slot(key: [u8; 32]) -> MessageSlot {
    MessageSlot { kind: SlotKind::Core, auction: key }
}

/// The fill that a settlement of `p` paying `amount` publishes.
pub open spec fn fill_of(p: PreparedOrderResponse, amount: u64) -> Fill {
    Fill {
        source_chain: p.source_chain,
        order_sender: p.order_sender,
        redeemer: p.redeemer,
        amount,
        redeemer_message: p.redeemer_message,
    }
}

/// The custody holding of `p`, where it exists.
pub open spec fn custody_of(v: LedgerView, p: PreparedOrderResponse) -> Holding {
    v.holdings[holding_index(v, p.custody_token)]
}

pub open spec fn user_amount_of(p: PreparedOrderResponse, fee: u64) -> u64 {
    (p.amount_in - fee) as u64
}

/// Why writing the settlement record and moving the fee would fail. The fee
/// moves out of the custody holding under the custodian's authority; a
/// holding that is missing, answers to another authority or cannot cover the
/// fee is a failed token movement.
pub open spec fn writer_error(v: LedgerView, p: PreparedOrderResponse, fee: u64) -> Option<
    SettleError,
> {
    if has_record(v, p.fast_vaa_hash) {
        Some(SettleError::AlreadySettled)
    } else if fee > p.amount_in {
        Some(SettleError::FeeExceedsDeposit)
    } else if !has_holding(v, p.custody_token) || custody_of(v, p).authority != v.custodian
        || custody_of(v, p).balance < fee {
        Some(SettleError::BridgeCallFailed)
    } else {
        None
    }
}

/// Why the burn or the publication would fail once the fee has moved. The
/// bridge refuses a zero amount, one over its per-message limit, one that the
/// holding cannot cover, and a message slot in use; the messaging module
/// refuses a message slot in use.
pub open spec fn dispatch_error(v: LedgerView, p: PreparedOrderResponse, fee: u64) -> Option<
    SettleError,
> {
    let user = user_amount_of(p, fee);
    if user == 0 || user > v.burn_limit_per_message || custody_of(v, p).balance - fee < user
        || has_burn_slot(v, bridge_slot(p.fast_vaa_hash)) {
        Some(SettleError::BridgeCallFailed)
    } else if has_message_slot(v, core_slot(p.fast_vaa_hash)) {
        Some(SettleError::PublishCallFailed)
    } else {
        None
    }
}

/// The first step of a settlement of `p` with `fee` on `v` that would fail,
/// in the order the steps run; `None` when all of them succeed.
pub open spec fn settle_error(v: LedgerView, p: PreparedOrderResponse, fee: u64) -> Option<
    SettleError,
> {
    if !(p.to_endpoint.protocol is Cctp) {
        Some(SettleError::ProtocolMismatch)
    } else if writer_error(v, p, fee) is Some {
        writer_error(v, p, fee)
    } else if dispatch_error(v, p, fee) is Some {
        dispatch_error(v, p, fee)
    } else if custody_of(v, p).balance - fee - user_amount_of(p, fee) != 0 {
        Some(SettleError::NonZeroBalanceOnClose)
    } else {
        None
    }
}

/// The ledger after a successful settlement of `p` with `fee` on `v`: the
/// record exists, the fee went to the fee recipient, the user amount was
/// burned towards the destination, the fill was published, and the custody
/// holding was closed in favour of its preparer.
pub open spec fn settled_view(v: LedgerView, p: PreparedOrderResponse, fee: u64) -> LedgerView {
    let key = p.fast_vaa_hash;
    let user = user_amount_of(p, fee);
    LedgerView {
        records: v.records.push(key),
        holdings: v.holdings.remove(holding_index(v, p.custody_token)),
        fee_recipient_balance: (v.fee_recipient_balance + fee) as u64,
        total: (v.total - user) as u64,
        burns: v.burns.push(
            BurnOrder {
                slot: bridge_slot(key),
                source: p.custody_token,
                amount: user,
                destination_domain: p.to_endpoint.protocol->Cctp_domain,
                destination_caller: p.to_endpoint.address,
                mint_recipient: p.to_endpoint.mint_recipient,
            },
        ),
        messages: v.messages.push(
            PostedMessageView {
                slot: core_slot(key),
                emitter: v.custodian,
                nonce: MESSAGE_NONCE,
                payload: spec_fill_bytes(fill_of(p, user)),
            },
        ),
        reclaims: v.reclaims.push(Reclaim { holding: p.custody_token, recipient: p.prepared_by }),
        ..v
    }
}

/// What the settlement record writer hands on: the amount owed to the
/// destination, the encoded fill, and where the custody holding stands.
pub struct SettledNone {
    pub user_amount: u64,
    pub fill: Vec<u8>,
    pub custody_index: usize,
}

/// Checks that the settlement record of `prepared` can be written and its fee
/// moved, and prepares the fill. Reads the ledger only.
pub fn settle_none_and_prepare_fill(ledger: &Ledger, prepared: &PreparedOrderResponse, fee: u64)
    -> (r: Result<SettledNone, SettleError>)
    requires
        ledger.wf(),
        prepared.redeemer_message@.len() <= u32::MAX,
    ensures
        r is Err <==> writer_error(ledger@, *prepared, fee) is Some,
        r is Err ==> r->Err_0 == writer_error(ledger@, *prepared, fee)->Some_0,
        r is Ok ==> r->Ok_0.user_amount == user_amount_of(*prepared, fee),
        r is Ok ==> r->Ok_0.user_amount + fee == prepared.amount_in,
        r is Ok ==> r->Ok_0.fill@ == spec_fill_bytes(
            fill_of(*prepared, user_amount_of(*prepared, fee)),
        ),
        r is Ok ==> r->Ok_0.custody_index == holding_index(ledger@, prepared.custody_token),
        r is Ok ==> r->Ok_0.custody_index < ledger@.holdings.len(),
{
    if ledger.is_settled(&prepared.fast_vaa_hash) {
        return Err(SettleError::AlreadySettled);
    }
    let user_amount = match compute_user_amount(prepared.amount_in, fee) {
        Ok(a) => a,
        Err(e) => return Err(e),
    };
    let custody_index = match ledger.find_holding(&prepared.custody_token) {
        Some(i) => i,
        None => return Err(SettleError::BridgeCallFailed),
    };
    let custody = ledger.holding(custody_index);
    let custodian = ledger.custodian();
    if !same_address(&custody.authority, &custodian) || custody.balance < fee {
        return Err(SettleError::BridgeCallFailed);
    }
    let fill = Fill {
        source_chain: prepared.source_chain,
        order_sender: prepared.order_sender,
        redeemer: prepared.redeemer,
        amount: user_amount,
        redeemer_message: copy_bytes(&prepared.redeemer_message),
    };
    let bytes = fill.to_vec();
    Ok(SettledNone { user_amount, fill: bytes, custody_index })
}

/// Checks that the bridge would burn the user amount and that the messaging
/// module would publish the fill, once the fee has left the custody holding.
/// Reads the ledger only.
pub fn check_burn_and_publish(
    ledger: &Ledger,
    prepared: &PreparedOrderResponse,
    fee: u64,
    settled: &SettledNone,
) -> (r: Result<(), SettleError>)
    requires
        ledger.wf(),
        writer_error(ledger@, *prepared, fee) is None,
        settled.user_amount == user_amount_of(*prepared, fee),
        settled.custody_index == holding_index(ledger@, prepared.custody_token),
        settled.custody_index < ledger@.holdings.len(),
    ensures
        r is Err <==> dispatch_error(ledger@, *prepared, fee) is Some,
        r is Err ==> r->Err_0 == dispatch_error(ledger@, *prepared, fee)->Some_0,
{
    let custody = ledger.holding(settled.custody_index);
    let amount = settled.user_amount;
    let left = custody.balance - fee;
    let bridge = MessageSlot { kind: SlotKind::Bridge, auction: prepared.fast_vaa_hash };
    if amount == 0 || amount > ledger.burn_limit_per_message() || left < amount
        || ledger.burn_slot_used(&bridge) {
        return Err(SettleError::BridgeCallFailed);
    }
    let core = MessageSlot { kind: SlotKind::Core, auction: prepared.fast_vaa_hash };
    if ledger.message_slot_used(&core) {
        return Err(SettleError::PublishCallFailed);
    }
    Ok(())
}

/// Checks that the custody holding would be empty once the fee has left it and
/// the user amount has been burned.
pub fn check_close(ledger: &Ledger, fee: u64, settled: &SettledNone) -> (r: Result<(), SettleError>)
    requires
        settled.custody_index < ledger@.holdings.len(),
        fee + settled.user_amount <= ledger@.holdings[settled.custody_index as int].balance,
    ensures
        r is Err <==> ledger@.holdings[settled.custody_index as int].balance - fee
            - settled.user_amount != 0,
        r is Err ==> r->Err_0 == SettleError::NonZeroBalanceOnClose,
{
    let custody = ledger.holding(settled.custody_index);
    if custody.balance - fee - settled.user_amount != 0 {
        Err(SettleError::NonZeroBalanceOnClose)
    } else {
        Ok(())
    }
}

/// What a no-auction settlement through the burn-and-mint bridge settles: the
/// prepared order response, and the fee that the fee policy sets for it.
#[derive(Debug, Clone)]
pub struct SettleAuctionNoneCctp {
    pub prepared: PreparedOrderResponse,
    pub fee: u64,
}

/// Settles `ctx.prepared`, whose destination goes through the burn-and-mint
/// bridge, with `ctx.fee` going to the fee recipient. Either every step takes
/// effect or none does: on an error the ledger is left as it was.
pub fn settle_auction_none_cctp(ledger: &mut Ledger, ctx: &SettleAuctionNoneCctp) -> (r: Result<
    (),
    SettleError,
>)
    requires
        old(ledger).wf(),
        ctx.prepared.redeemer_message@.len() <= u32::MAX,
    ensures
        final(ledger).wf(),
        r is Ok <==> settle_error(old(ledger)@, ctx.prepared, ctx.fee) is None,
        r is Err ==> r->Err_0 == settle_error(old(ledger)@, ctx.prepared, ctx.fee)->Some_0,
        r is Err ==> final(ledger)@ == old(ledger)@,
        r is Ok ==> final(ledger)@ == settled_view(old(ledger)@, ctx.prepared, ctx.fee),
{
    match ctx.prepared.to_endpoint.protocol {
        MessageProtocol::Cctp { domain } => handle_settle_auction_none_cctp(ledger, ctx, domain),
        _ => Err(SettleError::ProtocolMismatch),
    }
}

fn handle_settle_auction_none_cctp(
    ledger: &mut Ledger,
    ctx: &SettleAuctionNoneCctp,
    destination_cctp_domain: u32,
) -> (r: Result<(), SettleError>)
    requires
        old(ledger).wf(),
        ctx.prepared.redeemer_message@.len() <= u32::MAX,
        ctx.prepared.to_endpoint.protocol == (MessageProtocol::Cctp {
            domain: destination_cctp_domain,
        }),
    ensures
        final(ledger).wf(),
        r is Ok <==> settle_error(old(ledger)@, ctx.prepared, ctx.fee) is None,
        r is Err ==> r->Err_0 == settle_error(old(ledger)@, ctx.prepared, ctx.fee)->Some_0,
        r is Err ==> final(ledger)@ == old(ledger)@,
        r is Ok ==> final(ledger)@ == settled_view(old(ledger)@, ctx.prepared, ctx.fee),
{
    let prepared = &ctx.prepared;
    let fee = ctx.fee;
    let ghost v0 = ledger@;
    // Every step is checked before the ledger is touched.
    let settled = match settle_none_and_prepare_fill(ledger, prepared, fee) {
        Ok(s) => s,
        Err(e) => return Err(e),
    };
    match check_burn_and_publish(ledger, prepared, fee, &settled) {
        Ok(()) => {},
        Err(e) => return Err(e),
    }
    match check_close(ledger, fee, &settled) {
        Ok(()) => {},
        Err(e) => return Err(e),
    }
    let i = settled.custody_index;
    let key = prepared.fast_vaa_hash;
    let custodian = ledger.custodian();

    // Settlement record and fee.
    ledger.insert_record(key);
    ledger.transfer_to_fee_recipient(i, fee);

    // Burn towards the destination, then publish the fill.
    ledger.burn(
        i,
        BurnOrder {
            slot: MessageSlot { kind: SlotKind::Bridge, auction: key },
            source: prepared.custody_token,
            amount: settled.user_amount,
            destination_domain: destination_cctp_domain,
            destination_caller: prepared.to_endpoint.address,
            mint_recipient: prepared.to_endpoint.mint_recipient,
        },
    );
    ledger.post_message(
        PostedMessage {
            slot: MessageSlot { kind: SlotKind::Core, auction: key },
            emitter: custodian,
            nonce: MESSAGE_NONCE,
            payload: settled.fill,
        },
    );

    // The holding is empty now: close it in favour of its preparer.
    ledger.close_holding(i, prepared.prepared_by);

    let ghost w = settled_view(v0, *prepared, fee);
    assert(ledger@.holdings =~= w.holdings);
    assert(ledger@.records =~= w.records);
    assert(ledger@.burns =~= w.burns);
    assert(ledger@.messages =~= w.messages);
    assert(ledger@.reclaims =~= w.reclaims);
    Ok(())
}

/// A copy of `b`.
fn copy_bytes(b: &Vec<u8>) -> (r: Vec<u8>)
    ensures
        r@ == b@,
{
    let mut out: Vec<u8> = Vec::new();
    let mut i: usize = 0;
    while i < b.len()
        invariant
            0 <= i <= b@.len(),
            out@ == b@.subrange(0, i as int),
        decreases b@.len() - i,
    {
        out.push(b[i]);
        i = i + 1;
        assert(out@ =~= b@.subrange(0, i as int));
    }
    assert(b@.subrange(0, i as int) =~= b@);
    out
}

} // verus!
