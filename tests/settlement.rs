use matching_engine::error::SettleError;
use matching_engine::fees::compute_user_amount;
use matching_engine::fill::Fill;
use matching_engine::ledger::{Ledger, MessageSlot, PostedMessage, SlotKind};
use matching_engine::settle::{settle_auction_none_cctp, SettleAuctionNoneCctp};
use matching_engine::state::{EndpointInfo, MessageProtocol, PreparedOrderResponse};

const CUSTODIAN: [u8; 32] = [7; 32];
const CUSTODY: [u8; 32] = [21; 32];
const PREPARER: [u8; 32] = [33; 32];
const VAA_HASH: [u8; 32] = [44; 32];
const RECIPIENT: [u8; 32] = [55; 32];
const CALLER: [u8; 32] = [66; 32];
const MINT_RECIPIENT: [u8; 32] = [77; 32];
const SENDER: [u8; 32] = [88; 32];

fn prepared(protocol: MessageProtocol, amount_in: u64) -> PreparedOrderResponse {
    PreparedOrderResponse {
        fast_vaa_hash: VAA_HASH,
        prepared_by: PREPARER,
        custody_token: CUSTODY,
        source_chain: 6,
        order_sender: SENDER,
        redeemer: RECIPIENT,
        redeemer_message: vec![1, 2, 3],
        to_endpoint: EndpointInfo {
            chain: 2,
            address: CALLER,
            mint_recipient: MINT_RECIPIENT,
            protocol,
        },
        amount_in,
    }
}

fn ledger_with_custody(balance: u64, burn_limit: u64) -> Ledger {
    let mut ledger = Ledger::new(CUSTODIAN, burn_limit);
    assert!(ledger.open_holding(CUSTODY, CUSTODIAN, balance));
    ledger
}

fn settle(ledger: &mut Ledger, p: &PreparedOrderResponse, fee: u64) -> Result<(), SettleError> {
    let ctx = SettleAuctionNoneCctp { prepared: p.clone(), fee };
    settle_auction_none_cctp(ledger, &ctx)
}

fn cctp(domain: u32) -> MessageProtocol {
    MessageProtocol::Cctp { domain }
}

fn assert_untouched(ledger: &Ledger, custody_balance: u64) {
    assert!(!ledger.is_settled(&VAA_HASH));
    assert_eq!(ledger.holding_balance(&CUSTODY), Some(custody_balance));
    assert_eq!(ledger.fee_recipient_balance(), 0);
    assert!(ledger.burns().is_empty());
    assert!(ledger.messages().is_empty());
    assert!(ledger.reclaims().is_empty());
}

#[test]
fn user_amount_plus_fee_is_deposit() {
    for (deposit, fee) in [(1_000_000u64, 1_000u64), (5, 5), (u64::MAX, 1), (0, 0)] {
        let user = compute_user_amount(deposit, fee).unwrap();
        assert_eq!(user + fee, deposit);
    }
    assert_eq!(compute_user_amount(1_000_000, 1_000), Ok(999_000));
}

#[test]
fn fee_over_deposit_is_refused() {
    assert_eq!(compute_user_amount(5, 6), Err(SettleError::FeeExceedsDeposit));
}

#[test]
fn fill_encoding_is_exact() {
    let fill = Fill {
        source_chain: 0x0102,
        order_sender: [3; 32],
        redeemer: [4; 32],
        amount: 0x0506_0708_090a_0b0c,
        redeemer_message: vec![0xaa, 0xbb],
    };
    let mut expected = vec![1u8, 0x01, 0x02];
    expected.extend_from_slice(&[3; 32]);
    expected.extend_from_slice(&[4; 32]);
    expected.extend_from_slice(&[0x05, 0x06, 0x07, 0x08, 0x09, 0x0a, 0x0b, 0x0c]);
    expected.extend_from_slice(&[0, 0, 0, 2, 0xaa, 0xbb]);
    assert_eq!(fill.to_vec(), expected);
}

#[test]
fn settles_deposit_to_domain_three() {
    let mut ledger = ledger_with_custody(1_000_000, u64::MAX);
    let p = prepared(cctp(3), 1_000_000);
    assert_eq!(settle(&mut ledger, &p, 1_000), Ok(()));

    assert!(ledger.is_settled(&VAA_HASH));
    assert_eq!(ledger.fee_recipient_balance(), 1_000);
    assert_eq!(ledger.holding_balance(&CUSTODY), None);

    let burns = ledger.burns();
    assert_eq!(burns.len(), 1);
    assert_eq!(burns[0].amount, 999_000);
    assert_eq!(burns[0].destination_domain, 3);
    assert_eq!(burns[0].destination_caller, CALLER);
    assert_eq!(burns[0].mint_recipient, MINT_RECIPIENT);
    assert_eq!(burns[0].source, CUSTODY);
    assert!(matches!(burns[0].slot.kind, SlotKind::Bridge));
    assert_eq!(burns[0].slot.auction, VAA_HASH);

    let messages = ledger.messages();
    assert_eq!(messages.len(), 1);
    assert_eq!(messages[0].emitter, CUSTODIAN);
    assert_eq!(messages[0].nonce, 0);
    assert!(matches!(messages[0].slot.kind, SlotKind::Core));
    let payload = &messages[0].payload;
    assert_eq!(payload[0], 1);
    assert_eq!(&payload[1..3], &[0, 6]);
    assert_eq!(&payload[3..35], &SENDER);
    assert_eq!(&payload[35..67], &RECIPIENT);
    assert_eq!(&payload[67..75], &999_000u64.to_be_bytes());
    assert_eq!(&payload[75..], &[0, 0, 0, 3, 1, 2, 3]);

    let reclaims = ledger.reclaims();
    assert_eq!(reclaims.len(), 1);
    assert_eq!(reclaims[0].holding, CUSTODY);
    assert_eq!(reclaims[0].recipient, PREPARER);
}

#[test]
fn second_settlement_is_already_settled() {
    let mut ledger = ledger_with_custody(1_000_000, u64::MAX);
    let p = prepared(cctp(3), 1_000_000);
    assert_eq!(settle(&mut ledger, &p, 1_000), Ok(()));
    assert_eq!(
        settle(&mut ledger, &p, 1_000),
        Err(SettleError::AlreadySettled)
    );
    assert_eq!(ledger.burns().len(), 1);
    assert_eq!(ledger.messages().len(), 1);
    assert_eq!(ledger.reclaims().len(), 1);
    assert_eq!(ledger.fee_recipient_balance(), 1_000);
}

#[test]
fn racing_settlements_move_one_settlements_worth() {
    let mut ledger = ledger_with_custody(1_000_000, u64::MAX);
    let first = prepared(cctp(3), 1_000_000);
    let mut second = prepared(cctp(3), 1_000_000);
    second.prepared_by = [99; 32];
    let results = [
        settle(&mut ledger, &first, 1_000),
        settle(&mut ledger, &second, 1_000),
    ];
    assert_eq!(results.iter().filter(|r| r.is_ok()).count(), 1);
    assert_eq!(results[1], Err(SettleError::AlreadySettled));
    let burned: u64 = ledger.burns().iter().map(|b| b.amount).sum();
    assert_eq!(burned + ledger.fee_recipient_balance(), 1_000_000);
}

#[test]
fn local_endpoint_is_a_protocol_mismatch() {
    let mut ledger = ledger_with_custody(1_000_000, u64::MAX);
    let p = prepared(MessageProtocol::Local { program_id: [1; 32] }, 1_000_000);
    assert_eq!(
        settle(&mut ledger, &p, 1_000),
        Err(SettleError::ProtocolMismatch)
    );
    assert_untouched(&ledger, 1_000_000);
}

#[test]
fn unconfigured_endpoint_is_a_protocol_mismatch() {
    let mut ledger = ledger_with_custody(1_000_000, u64::MAX);
    let p = prepared(MessageProtocol::Unconfigured, 1_000_000);
    assert_eq!(
        settle(&mut ledger, &p, 1_000),
        Err(SettleError::ProtocolMismatch)
    );
    assert_untouched(&ledger, 1_000_000);
}

#[test]
fn fee_over_deposit_leaves_ledger_unchanged() {
    let mut ledger = ledger_with_custody(1_000_000, u64::MAX);
    let p = prepared(cctp(3), 1_000_000);
    assert_eq!(
        settle(&mut ledger, &p, 1_000_001),
        Err(SettleError::FeeExceedsDeposit)
    );
    assert_untouched(&ledger, 1_000_000);
}

#[test]
fn insufficient_custody_rolls_back() {
    let mut ledger = ledger_with_custody(500_000, u64::MAX);
    let p = prepared(cctp(3), 1_000_000);
    assert_eq!(
        settle(&mut ledger, &p, 1_000),
        Err(SettleError::BridgeCallFailed)
    );
    assert_untouched(&ledger, 500_000);
}

#[test]
fn burn_over_limit_rolls_back() {
    let mut ledger = ledger_with_custody(1_000_000, 10_000);
    let p = prepared(cctp(3), 1_000_000);
    assert_eq!(
        settle(&mut ledger, &p, 1_000),
        Err(SettleError::BridgeCallFailed)
    );
    assert_untouched(&ledger, 1_000_000);
}

#[test]
fn zero_user_amount_is_refused_by_bridge() {
    let mut ledger = ledger_with_custody(1_000, u64::MAX);
    let p = prepared(cctp(3), 1_000);
    assert_eq!(
        settle(&mut ledger, &p, 1_000),
        Err(SettleError::BridgeCallFailed)
    );
    assert_untouched(&ledger, 1_000);
}

#[test]
fn missing_custody_is_refused() {
    let mut ledger = Ledger::new(CUSTODIAN, u64::MAX);
    let p = prepared(cctp(3), 1_000_000);
    assert_eq!(
        settle(&mut ledger, &p, 1_000),
        Err(SettleError::BridgeCallFailed)
    );
    assert!(!ledger.is_settled(&VAA_HASH));
}

#[test]
fn custody_of_another_authority_is_refused() {
    let mut ledger = Ledger::new(CUSTODIAN, u64::MAX);
    assert!(ledger.open_holding(CUSTODY, [8; 32], 1_000_000));
    let p = prepared(cctp(3), 1_000_000);
    assert_eq!(
        settle(&mut ledger, &p, 1_000),
        Err(SettleError::BridgeCallFailed)
    );
    assert_untouched(&ledger, 1_000_000);
}

#[test]
fn occupied_message_slot_fails_publication() {
    let mut ledger = ledger_with_custody(1_000_000, u64::MAX);
    ledger.post_message(PostedMessage {
        slot: MessageSlot { kind: SlotKind::Core, auction: VAA_HASH },
        emitter: CUSTODIAN,
        nonce: 0,
        payload: vec![],
    });
    let p = prepared(cctp(3), 1_000_000);
    assert_eq!(
        settle(&mut ledger, &p, 1_000),
        Err(SettleError::PublishCallFailed)
    );
    assert!(!ledger.is_settled(&VAA_HASH));
    assert_eq!(ledger.holding_balance(&CUSTODY), Some(1_000_000));
    assert!(ledger.burns().is_empty());
    assert_eq!(ledger.messages().len(), 1);
}

#[test]
fn leftover_custody_balance_fails_close() {
    let mut ledger = ledger_with_custody(1_500_000, u64::MAX);
    let p = prepared(cctp(3), 1_000_000);
    assert_eq!(
        settle(&mut ledger, &p, 1_000),
        Err(SettleError::NonZeroBalanceOnClose)
    );
    assert_untouched(&ledger, 1_500_000);
}

#[test]
fn opening_a_taken_or_overflowing_holding_fails() {
    let mut ledger = ledger_with_custody(1_000, u64::MAX);
    assert!(!ledger.open_holding(CUSTODY, CUSTODIAN, 5));
    assert!(!ledger.open_holding([1; 32], CUSTODIAN, u64::MAX));
    assert!(ledger.open_holding([1; 32], CUSTODIAN, u64::MAX - 1_000));
}
