use rozo_intents::engine::RozoIntentsContract;
use rozo_intents::errors::Error;
use rozo_intents::fill_hash::compute_fill_hash;
use rozo_intents::types::{
    Address, CreateIntentParams, IntentData, IntentStatus, Party, RelayerType, Transfer,
};
use rozo_intents::wire::encode_notify_payload;

fn addr(b: u8, is_account: bool) -> Address {
    Address { key: [b; 32], is_account }
}

/// (token, holder, amount) rows of a toy ledger the tests settle the
/// engine's ordered transfers against.
type Ledger = Vec<(Address, Party, i128)>;

fn balance_of(led: &Ledger, token: &Address, who: &Party) -> i128 {
    for (t, w, a) in led.iter() {
        if t == token && w == who {
            return *a;
        }
    }
    0
}

fn credit(led: &mut Ledger, token: &Address, who: &Party, amount: i128) {
    for row in led.iter_mut() {
        if &row.0 == token && &row.1 == who {
            row.2 += amount;
            return;
        }
    }
    led.push((*token, *who, amount));
}

fn apply_transfer(led: &mut Ledger, t: &Transfer) {
    credit(led, &t.token, &t.from, -t.amount);
    credit(led, &t.token, &t.to, t.amount);
}

fn setup_env() -> (RozoIntentsContract, Address, Address, Address, Address, Address, Ledger) {
    let owner = addr(10, true);
    let sender = addr(2, true);
    let receiver = addr(5, true);
    let relayer = addr(3, true);
    let token = addr(7, false);

    let mut ledger: Ledger = Vec::new();
    credit(&mut ledger, &token, &Party::Addr(sender), 10_000_000_000);
    credit(&mut ledger, &token, &Party::Addr(relayer), 10_000_000_000);

    let mut c = RozoIntentsContract::new();
    c.initialize(owner, owner, 1500u64).unwrap();
    c.set_protocol_fee(owner, 3).unwrap();
    c.add_relayer(owner, relayer, RelayerType::External).unwrap();
    c.set_trusted_contract(owner, "base".to_string(), "0x123...".to_string()).unwrap();
    c.set_chain_id_to_name(owner, 8453u64, "base".to_string()).unwrap();
    c.set_chain_id_to_name(owner, 1500u64, "stellar".to_string()).unwrap();

    (c, owner, sender, receiver, relayer, token, ledger)
}

fn generate_intent_id() -> [u8; 32] {
    [1u8; 32]
}

fn base_params(sender: &Address, token: &Address) -> CreateIntentParams {
    CreateIntentParams {
        intent_id: generate_intent_id(),
        source_token: *token,
        source_amount: 1_000_000_000i128,
        destination_chain_id: 8453u64,
        destination_token: [2u8; 32],
        receiver: [2u8; 32],
        receiver_is_account: false,
        destination_amount: 990_000_000i128,
        deadline: 2000u64,
        refund_address: *sender,
        relayer: [0u8; 32],
    }
}

#[test]
fn test_initialize() {
    let mut c = RozoIntentsContract::new();
    let owner = addr(10, true);

    c.initialize(owner, owner, 1500u64).unwrap();

    // Should not be able to initialize again
    let result = c.initialize(owner, owner, 1500u64);
    assert!(result.is_err());
}

#[test]
fn test_create_intent() {
    let (mut c, _owner, sender, _receiver, _relayer, token, _ledger) = setup_env();

    let intent_id = generate_intent_id();
    let params = base_params(&sender, &token);

    c.create_intent(1000, sender, params).unwrap();

    // Verify intent was created
    let intent = c.get_intent(&intent_id).unwrap();
    assert_eq!(intent.sender, sender);
    assert_eq!(intent.source_amount, 1_000_000_000i128);
    assert_eq!(intent.status, IntentStatus::Pending);
}

#[test]
fn test_create_intent_with_assigned_relayer() {
    let (mut c, _owner, sender, _receiver, _relayer, token, _ledger) = setup_env();

    let intent_id = generate_intent_id();
    let relayer_bytes = [3u8; 32];
    let mut params = base_params(&sender, &token);
    params.relayer = relayer_bytes;

    c.create_intent(1000, sender, params).unwrap();

    // Verify intent has relayer assigned
    let intent = c.get_intent(&intent_id).unwrap();
    assert_eq!(intent.relayer, relayer_bytes);
    assert_eq!(intent.status, IntentStatus::Pending);
}

#[test]
fn test_refund_after_deadline() {
    let (mut c, _owner, sender, _receiver, _relayer, token, mut ledger) = setup_env();

    let intent_id = generate_intent_id();
    let initial_balance = balance_of(&ledger, &token, &Party::Addr(sender));

    let amount = 1_000_000_000i128;
    let params = base_params(&sender, &token);
    let escrow = c.create_intent(1000, sender, params).unwrap();
    apply_transfer(&mut ledger, &escrow);

    // Verify tokens were transferred
    assert_eq!(balance_of(&ledger, &token, &Party::Addr(sender)), initial_balance - amount);

    // Refund after the deadline
    let refund = c.refund(3000, sender, &intent_id).unwrap();
    apply_transfer(&mut ledger, &refund);

    // Verify refund
    let intent = c.get_intent(&intent_id).unwrap();
    assert_eq!(intent.status, IntentStatus::Refunded);
    assert_eq!(balance_of(&ledger, &token, &Party::Addr(sender)), initial_balance);
}

#[test]
fn test_refund_before_deadline_fails() {
    let (mut c, _owner, sender, _receiver, _relayer, token, _ledger) = setup_env();

    let intent_id = generate_intent_id();
    let params = base_params(&sender, &token);
    c.create_intent(1000, sender, params).unwrap();

    // Too early: the deadline has not passed yet
    let result = c.refund(1500, sender, &intent_id);
    assert_eq!(result, Err(Error::IntentNotExpired));
    assert_eq!(c.get_intent(&intent_id).unwrap().status, IntentStatus::Pending);
}

#[test]
fn test_duplicate_intent_id_rejected() {
    let (mut c, _owner, sender, _receiver, _relayer, token, _ledger) = setup_env();

    let params = base_params(&sender, &token);
    c.create_intent(1000, sender, params).unwrap();
    let before = c.get_intent(&params.intent_id).unwrap();

    // The second creation under the same id must fail and change nothing
    let mut second = params;
    second.source_amount = 42;
    let result = c.create_intent(1100, sender, second);
    assert_eq!(result, Err(Error::IntentAlreadyExists));
    let after = c.get_intent(&params.intent_id).unwrap();
    assert_eq!(after, before);
}

#[test]
fn test_admin_functions() {
    let (mut c, owner, _sender, _receiver, _relayer, _token, _ledger) = setup_env();

    // Set protocol fee
    c.set_protocol_fee(owner, 10).unwrap();
    assert_eq!(c.get_protocol_fee(), 10);

    // Add/remove relayer with RelayerType
    let new_relayer = addr(21, true);
    c.add_relayer(owner, new_relayer, RelayerType::External).unwrap();
    assert!(c.is_relayer(&new_relayer));

    // Check relayer type
    let relayer_type = c.get_relayer_type(&new_relayer);
    assert_eq!(relayer_type, RelayerType::External);

    // Add Rozo relayer
    let rozo_relayer = addr(22, true);
    c.add_relayer(owner, rozo_relayer, RelayerType::Rozo).unwrap();
    let rozo_type = c.get_relayer_type(&rozo_relayer);
    assert_eq!(rozo_type, RelayerType::Rozo);

    c.remove_relayer(owner, new_relayer).unwrap();
    assert!(!c.is_relayer(&new_relayer));

    // Set trusted contract
    c.set_trusted_contract(owner, "ethereum".to_string(), "0x456...".to_string()).unwrap();
}

#[test]
fn test_rozo_relayer_config() {
    let (mut c, owner, _sender, _receiver, _relayer, _token, _ledger) = setup_env();

    // Set Rozo relayer
    let rozo = addr(23, true);
    c.set_rozo_relayer(owner, rozo).unwrap();

    // Set Rozo threshold (e.g., 300 seconds = 5 minutes)
    c.set_rozo_threshold(owner, 300u64).unwrap();

    // Verify settings
    assert_eq!(c.get_rozo_threshold(), 300);
}

#[test]
fn test_admin_refund() {
    let (mut c, owner, sender, _receiver, _relayer, token, mut ledger) = setup_env();

    let intent_id = generate_intent_id();
    let initial_balance = balance_of(&ledger, &token, &Party::Addr(sender));

    let params = base_params(&sender, &token);
    let escrow = c.create_intent(1000, sender, params).unwrap();
    apply_transfer(&mut ledger, &escrow);

    // Admin refund (before deadline) - uses stored owner
    let refund = c.admin_refund(owner, &intent_id).unwrap();
    apply_transfer(&mut ledger, &refund);

    // Verify refund
    let intent = c.get_intent(&intent_id).unwrap();
    assert_eq!(intent.status, IntentStatus::Refunded);
    assert_eq!(balance_of(&ledger, &token, &Party::Addr(sender)), initial_balance);
}

#[test]
fn test_admin_set_intent_status() {
    let (mut c, owner, sender, _receiver, _relayer, token, _ledger) = setup_env();

    let intent_id = generate_intent_id();
    let params = base_params(&sender, &token);
    c.create_intent(1000, sender, params).unwrap();

    // Admin can change status
    c.set_intent_status(owner, &intent_id, IntentStatus::Failed).unwrap();

    let intent = c.get_intent(&intent_id).unwrap();
    assert_eq!(intent.status, IntentStatus::Failed);
}

#[test]
fn test_admin_set_intent_relayer() {
    let (mut c, owner, sender, _receiver, _relayer, token, _ledger) = setup_env();

    let intent_id = generate_intent_id();
    let new_relayer = [5u8; 32];
    let params = base_params(&sender, &token);
    c.create_intent(1000, sender, params).unwrap();

    // Admin can assign relayer
    c.set_intent_relayer(owner, &intent_id, new_relayer).unwrap();

    let intent = c.get_intent(&intent_id).unwrap();
    assert_eq!(intent.relayer, new_relayer);
}

/// A destination-chain engine (chain id 8453) ready to accept fills.
fn setup_destination() -> (RozoIntentsContract, Address, Address, Address) {
    let owner = addr(10, true);
    let relayer = addr(3, true);
    let adapter = addr(40, false);
    let mut c = RozoIntentsContract::new();
    c.initialize(owner, owner, 8453u64).unwrap();
    c.add_relayer(owner, relayer, RelayerType::External).unwrap();
    c.set_msger_adapter(owner, 1, adapter).unwrap();
    c.set_chain_id_to_name(owner, 1500u64, "stellar".to_string()).unwrap();
    c.set_trusted_contract(owner, "stellar".to_string(), "CSOURCE...".to_string()).unwrap();
    (c, owner, relayer, adapter)
}

fn destination_intent_data() -> IntentData {
    IntentData {
        intent_id: [1u8; 32],
        sender: [2u8; 32],
        refund_address: [2u8; 32],
        source_token: [7u8; 32],
        source_amount: 1_000_000_000i128,
        source_chain_id: 1500u64,
        destination_chain_id: 8453u64,
        destination_token: [7u8; 32],
        receiver: [5u8; 32],
        destination_amount: 990_000_000i128,
        deadline: 2000u64,
        created_at: 1000u64,
        relayer: [0u8; 32],
        receiver_is_account: false,
    }
}

#[test]
fn test_fill_and_notify_success() {
    let (mut c, _owner, relayer, adapter) = setup_destination();
    let data = destination_intent_data();

    let out = c.fill_and_notify(1500, relayer, data, [9u8; 32], 1).unwrap();

    assert_eq!(out.fill_hash, compute_fill_hash(&data));
    assert_eq!(out.adapter, adapter);
    assert_eq!(out.notify_chain_id, 1500u64);
    assert_eq!(out.message.payload.len(), 160);
    assert_eq!(out.message.destination_chain, "stellar".to_string());
    assert_eq!(out.message.destination_address, "CSOURCE...".to_string());
    assert_eq!(out.transfer.amount, 990_000_000i128);
    assert_eq!(out.transfer.from, Party::Addr(relayer));

    // the fill is recorded under its hash
    let record = c.get_fill_record(&out.fill_hash).unwrap();
    assert_eq!(record.relayer, relayer);
    assert_eq!(record.repayment_address, [9u8; 32]);
    // the outbound message is logged
    assert_eq!(c.get_outbound_messages().len(), 1);
}

#[test]
fn test_double_fill_rejected() {
    let (mut c, _owner, relayer, _adapter) = setup_destination();
    let data = destination_intent_data();

    let first = c.fill_and_notify(1500, relayer, data, [9u8; 32], 1).unwrap();

    // An identical second attempt recomputes the identical hash and must
    // be turned away without any new record or message.
    let second = c.fill_and_notify(1600, relayer, data, [11u8; 32], 1);
    assert_eq!(second, Err(Error::AlreadyFilled));

    let record = c.get_fill_record(&first.fill_hash).unwrap();
    assert_eq!(record.repayment_address, [9u8; 32]);
    assert!(c.has_fill_record(&first.fill_hash));
    assert_eq!(c.get_outbound_messages().len(), 1);
}

#[test]
fn test_fallback_relayer_window() {
    let (mut c, owner, _relayer, _adapter) = setup_destination();

    // The intent is assigned to someone else; F is the fallback with a
    // 300-second threshold.
    let fallback = addr(30, true);
    c.add_relayer(owner, fallback, RelayerType::Rozo).unwrap();
    c.set_rozo_relayer(owner, fallback).unwrap();
    c.set_rozo_threshold(owner, 300u64).unwrap();

    let mut data = destination_intent_data();
    data.relayer = [77u8; 32];
    data.deadline = 5000;

    // Before created_at + threshold: not authorized
    let early = c.fill_and_notify(1299, fallback, data, [9u8; 32], 1);
    assert_eq!(early, Err(Error::NotAssignedRelayer));

    // At created_at + threshold: authorized
    let on_time = c.fill_and_notify(1300, fallback, data, [9u8; 32], 1);
    assert!(on_time.is_ok());
}

#[test]
fn test_fill_unknown_relayer_rejected() {
    let (mut c, _owner, _relayer, _adapter) = setup_destination();
    let data = destination_intent_data();

    let stranger = addr(99, true);
    let result = c.fill_and_notify(1500, stranger, data, [9u8; 32], 1);
    assert_eq!(result, Err(Error::NotRelayer));
}

#[test]
fn test_fill_wrong_chain_rejected() {
    let (mut c, _owner, relayer, _adapter) = setup_destination();
    let mut data = destination_intent_data();
    data.destination_chain_id = 1111;

    let result = c.fill_and_notify(1500, relayer, data, [9u8; 32], 1);
    assert_eq!(result, Err(Error::WrongChain));
}

#[test]
fn test_fill_expired_rejected() {
    let (mut c, _owner, relayer, _adapter) = setup_destination();
    let data = destination_intent_data();

    let result = c.fill_and_notify(2000, relayer, data, [9u8; 32], 1);
    assert_eq!(result, Err(Error::IntentExpired));
}

#[test]
fn test_fill_unknown_messenger_rejected() {
    let (mut c, _owner, relayer, _adapter) = setup_destination();
    let data = destination_intent_data();

    let result = c.fill_and_notify(1500, relayer, data, [9u8; 32], 2);
    assert_eq!(result, Err(Error::InvalidMessenger));
}

#[test]
fn test_retry_notify_only_original_filler() {
    let (mut c, owner, relayer, adapter) = setup_destination();
    let data = destination_intent_data();

    c.fill_and_notify(1500, relayer, data, [9u8; 32], 1).unwrap();

    // A different relayer may not retry
    let other = addr(31, true);
    c.add_relayer(owner, other, RelayerType::External).unwrap();
    let denied = c.retry_notify(other, data, 1);
    assert_eq!(denied, Err(Error::NotAssignedRelayer));

    // The original filler may, through another adapter as well
    c.set_msger_adapter(owner, 2, adapter).unwrap();
    let out = c.retry_notify(relayer, data, 2).unwrap();
    assert_eq!(out.message.payload.len(), 160);
    assert_eq!(c.get_outbound_messages().len(), 2);
    // the retried payload carries the same terms
    assert_eq!(out.message.payload, c.get_outbound_messages()[0].payload);
}

#[test]
fn test_retry_notify_unfilled_rejected() {
    let (mut c, _owner, relayer, _adapter) = setup_destination();
    let data = destination_intent_data();

    let result = c.retry_notify(relayer, data, 1);
    assert_eq!(result, Err(Error::IntentNotFound));
}

/// A source-chain engine (chain id 1500) with one pending intent, plus
/// the snapshot that hashes to the stored intent's canonical form.
fn setup_source_with_intent() -> (RozoIntentsContract, Address, Address, Address, Address, IntentData, Ledger)
{
    let (mut c, owner, sender, _receiver, _relayer, token, mut ledger) = setup_env();
    let adapter = addr(40, false);
    c.set_msger_adapter(owner, 1, adapter).unwrap();

    let mut params = base_params(&sender, &token);
    params.destination_token = [7u8; 32];
    params.receiver = [5u8; 32];
    let escrow = c.create_intent(1000, sender, params).unwrap();
    apply_transfer(&mut ledger, &escrow);

    let data = IntentData {
        intent_id: params.intent_id,
        sender: sender.key,
        refund_address: sender.key,
        source_token: token.key,
        source_amount: params.source_amount,
        source_chain_id: 1500u64,
        destination_chain_id: params.destination_chain_id,
        destination_token: params.destination_token,
        receiver: params.receiver,
        destination_amount: params.destination_amount,
        deadline: params.deadline,
        created_at: 1000u64,
        relayer: params.relayer,
        receiver_is_account: params.receiver_is_account,
    };
    (c, owner, sender, token, adapter, data, ledger)
}

#[test]
fn test_notify_settles_intent() {
    let (mut c, _owner, _sender, token, adapter, data, mut ledger) = setup_source_with_intent();

    let fill_hash = compute_fill_hash(&data);
    let payload = encode_notify_payload(
        &data.intent_id,
        &fill_hash,
        &[9u8; 32],
        &[3u8; 32],
        data.destination_amount,
    );

    let outcome = c.notify(adapter, 1, 8453, &payload).unwrap();
    match outcome {
        rozo_intents::types::NotifyOutcome::Settled { payout, fee } => {
            // fee = floor(1_000_000_000 * 3 / 10000), payout the rest
            assert_eq!(fee, 300_000i128);
            assert_eq!(payout.amount, 999_700_000i128);
            assert_eq!(payout.token, token);
            assert_eq!(payout.from, Party::Custody);
            apply_transfer(&mut ledger, &payout);
        },
        other => panic!("expected settlement, got {:?}", other),
    }

    let intent = c.get_intent(&data.intent_id).unwrap();
    assert_eq!(intent.status, IntentStatus::Filled);
    assert_eq!(c.get_accum_fees(&token), 300_000i128);
}

#[test]
fn test_notify_tampered_amount_fails() {
    let (mut c, _owner, _sender, token, adapter, data, ledger) = setup_source_with_intent();

    // The relayer claims a snapshot with a tampered destination amount:
    // the recomputed hash cannot match the claimed one.
    let mut tampered = data;
    tampered.destination_amount = 1i128;
    let claimed_hash = compute_fill_hash(&tampered);
    assert_ne!(claimed_hash, compute_fill_hash(&data));

    let payload = encode_notify_payload(
        &tampered.intent_id,
        &claimed_hash,
        &[9u8; 32],
        &[3u8; 32],
        tampered.destination_amount,
    );

    let outcome = c.notify(adapter, 1, 8453, &payload).unwrap();
    match outcome {
        rozo_intents::types::NotifyOutcome::Rejected { expected_hash, received_hash } => {
            assert_eq!(received_hash, claimed_hash);
            assert_ne!(expected_hash, received_hash);
        },
        other => panic!("expected rejection, got {:?}", other),
    }

    // Failed, not Filled; no payout was ordered, so custody still holds
    // exactly the escrow.
    let intent = c.get_intent(&data.intent_id).unwrap();
    assert_eq!(intent.status, IntentStatus::Failed);
    assert_eq!(c.get_accum_fees(&token), 0);
    assert_eq!(balance_of(&ledger, &token, &Party::Custody), 1_000_000_000i128);
}

#[test]
fn test_notify_underpayment_fails() {
    let (mut c, _owner, _sender, _token, adapter, data, _ledger) = setup_source_with_intent();

    // Correct hash, but the reported paid amount is under the owed one.
    let fill_hash = compute_fill_hash(&data);
    let payload =
        encode_notify_payload(&data.intent_id, &fill_hash, &[9u8; 32], &[3u8; 32], 1i128);

    let outcome = c.notify(adapter, 1, 8453, &payload).unwrap();
    assert!(matches!(
        outcome,
        rozo_intents::types::NotifyOutcome::Rejected { .. }
    ));
    assert_eq!(c.get_intent(&data.intent_id).unwrap().status, IntentStatus::Failed);
}

#[test]
fn test_notify_wrong_caller_rejected() {
    let (mut c, _owner, _sender, _token, _adapter, data, _ledger) = setup_source_with_intent();

    let fill_hash = compute_fill_hash(&data);
    let payload = encode_notify_payload(
        &data.intent_id,
        &fill_hash,
        &[9u8; 32],
        &[3u8; 32],
        data.destination_amount,
    );

    let stranger = addr(99, false);
    let result = c.notify(stranger, 1, 8453, &payload);
    assert_eq!(result, Err(Error::NotMessenger));
    assert_eq!(c.get_intent(&data.intent_id).unwrap().status, IntentStatus::Pending);
}

#[test]
fn test_notify_bad_payload_length_rejected() {
    let (mut c, _owner, _sender, _token, adapter, data, _ledger) = setup_source_with_intent();

    let short = vec![0u8; 159];
    assert_eq!(c.notify(adapter, 1, 8453, &short), Err(Error::InvalidPayload));
    let long = vec![0u8; 161];
    assert_eq!(c.notify(adapter, 1, 8453, &long), Err(Error::InvalidPayload));
    assert_eq!(c.get_intent(&data.intent_id).unwrap().status, IntentStatus::Pending);
}

#[test]
fn test_withdraw_fees_flow() {
    let (mut c, owner, _sender, token, adapter, data, mut ledger) = setup_source_with_intent();

    let fill_hash = compute_fill_hash(&data);
    let payload = encode_notify_payload(
        &data.intent_id,
        &fill_hash,
        &[9u8; 32],
        &[3u8; 32],
        data.destination_amount,
    );
    c.notify(adapter, 1, 8453, &payload).unwrap();
    assert_eq!(c.get_accum_fees(&token), 300_000i128);

    let transfer = c.withdraw_fees(owner, token).unwrap();
    assert_eq!(transfer.amount, 300_000i128);
    assert_eq!(transfer.to, Party::Addr(owner));
    apply_transfer(&mut ledger, &transfer);
    assert_eq!(c.get_accum_fees(&token), 0);

    // nothing left to withdraw
    assert_eq!(c.withdraw_fees(owner, token), Err(Error::InvalidAmount));
}

#[test]
fn test_admin_surface_requires_owner() {
    let (mut c, _owner, sender, _receiver, _relayer, _token, _ledger) = setup_env();

    assert_eq!(c.set_protocol_fee(sender, 5), Err(Error::NotOwner));
    assert_eq!(c.set_rozo_threshold(sender, 10), Err(Error::NotOwner));
    assert_eq!(
        c.add_relayer(sender, addr(50, true), RelayerType::External),
        Err(Error::NotOwner)
    );

    let mut fresh = RozoIntentsContract::new();
    assert_eq!(fresh.set_protocol_fee(sender, 5), Err(Error::NotInitialized));
}

#[test]
fn test_protocol_fee_cap() {
    let (mut c, owner, _sender, _receiver, _relayer, _token, _ledger) = setup_env();

    assert_eq!(c.set_protocol_fee(owner, 31), Err(Error::InvalidFee));
    c.set_protocol_fee(owner, 30).unwrap();
    assert_eq!(c.get_protocol_fee(), 30);
}
