use rozo_intents::addr::{address_from_xdr, address_to_bytes32, bytes32_to_address_typed};
use rozo_intents::errors::Error;
use rozo_intents::fee::compute_fee;
use rozo_intents::fill_hash::{compute_fill_hash, encode_intent_data};
use rozo_intents::types::IntentData;
use rozo_intents::wire::{decode_notify_payload, encode_notify_payload};

fn sample_intent_data() -> IntentData {
    IntentData {
        intent_id: [1u8; 32],
        sender: [2u8; 32],
        refund_address: [2u8; 32],
        source_token: [7u8; 32],
        source_amount: 1_000_000_000i128,
        source_chain_id: 1500u64,
        destination_chain_id: 8453u64,
        destination_token: [7u8; 32],
        receiver: [5u8; 32],
        destination_amount: 990_000_000i128,
        deadline: 2000u64,
        created_at: 1000u64,
        relayer: [0u8; 32],
        receiver_is_account: false,
    }
}

#[test]
fn test_notify_payload_roundtrip() {
    let intent_id = [1u8; 32];
    let fill_hash = [2u8; 32];
    let repayment = [3u8; 32];
    let relayer = [4u8; 32];
    let amount = 990_000_000i128;

    let payload = encode_notify_payload(&intent_id, &fill_hash, &repayment, &relayer, amount);
    assert_eq!(payload.len(), 160);

    let m = decode_notify_payload(&payload).unwrap();
    assert_eq!(m.intent_id, intent_id);
    assert_eq!(m.fill_hash, fill_hash);
    assert_eq!(m.repayment_address, repayment);
    assert_eq!(m.relayer, relayer);
    assert_eq!(m.amount, amount);
}

#[test]
fn test_notify_payload_roundtrip_negative_amount() {
    let payload =
        encode_notify_payload(&[1u8; 32], &[2u8; 32], &[3u8; 32], &[4u8; 32], -123456789i128);
    let m = decode_notify_payload(&payload).unwrap();
    assert_eq!(m.amount, -123456789i128);
}

#[test]
fn test_decode_rejects_wrong_lengths() {
    for len in [0usize, 1, 159, 161, 320] {
        let buf = vec![0u8; len];
        assert_eq!(decode_notify_payload(&buf), Err(Error::InvalidPayload));
    }
    // exactly 160 bytes decode
    let buf = vec![0u8; 160];
    assert!(decode_notify_payload(&buf).is_ok());
}

#[test]
fn test_payload_layout_is_byte_stable() {
    let payload =
        encode_notify_payload(&[1u8; 32], &[2u8; 32], &[3u8; 32], &[4u8; 32], 256i128);
    assert_eq!(&payload[0..32], &[1u8; 32]);
    assert_eq!(&payload[32..64], &[2u8; 32]);
    assert_eq!(&payload[64..96], &[3u8; 32]);
    assert_eq!(&payload[96..128], &[4u8; 32]);
    // amount right-aligned big-endian in the last 32 bytes
    assert_eq!(&payload[128..158], &[0u8; 30]);
    assert_eq!(payload[158], 1);
    assert_eq!(payload[159], 0);
}

#[test]
fn test_fee_exact_values() {
    // fee = floor(amount * bps / 10000), fee + payout == amount exactly
    let cases: [(i128, u32, i128); 6] = [
        (1_000_000_000, 3, 300_000),
        (10000, 30, 30),
        (9999, 30, 29),
        (1, 30, 0),
        (0, 30, 0),
        (123_456_789, 7, 86_419),
    ];
    for (amount, bps, want_fee) in cases {
        let (fee, payout) = compute_fee(amount, bps);
        assert_eq!(fee, want_fee);
        assert_eq!(fee + payout, amount);
    }
}

#[test]
fn test_fee_zero_bps() {
    let (fee, payout) = compute_fee(987_654_321, 0);
    assert_eq!(fee, 0);
    assert_eq!(payout, 987_654_321);
}

#[test]
fn test_intent_preimage_layout() {
    let data = sample_intent_data();
    let pre = encode_intent_data(&data);
    assert_eq!(pre.len(), 288);
    assert_eq!(&pre[0..32], &[1u8; 32]);
    // source_amount big-endian in bytes 128..144
    assert_eq!(pre[143], (1_000_000_000u64 & 0xff) as u8);
    // source chain id 1500 = 0x05dc at bytes 144..152
    assert_eq!(pre[150], 0x05);
    assert_eq!(pre[151], 0xdc);
}

#[test]
fn test_fill_hash_known_vector() {
    // SHA-256 of the sample preimage, fixed independently; this fails if
    // the digest does not come from the real hash function or if the
    // preimage layout drifts.
    let data = sample_intent_data();
    let expected: [u8; 32] = [
        65, 112, 69, 79, 102, 139, 23, 177, 117, 26, 80, 0, 41, 101, 233, 99, 144, 235, 107, 159,
        214, 150, 6, 159, 178, 219, 227, 171, 6, 228, 147, 232,
    ];
    assert_eq!(compute_fill_hash(&data), expected);
}

#[test]
fn test_fill_hash_depends_on_fields() {
    let data = sample_intent_data();
    let mut tampered = data;
    tampered.destination_amount += 1;
    assert_ne!(compute_fill_hash(&data), compute_fill_hash(&tampered));

    let mut reassigned = data;
    reassigned.relayer = [8u8; 32];
    assert_ne!(compute_fill_hash(&data), compute_fill_hash(&reassigned));
}

#[test]
fn test_address_codec_roundtrip() {
    let key = [42u8; 32];

    // account form: 8-byte prefix, 40 bytes total
    let account_xdr = bytes32_to_address_typed(&key, true);
    assert_eq!(account_xdr.len(), 40);
    assert_eq!(address_to_bytes32(&account_xdr), key);
    let parsed = address_from_xdr(&account_xdr);
    assert_eq!(parsed.key, key);
    assert!(parsed.is_account);

    // contract form: 4-byte prefix, 36 bytes total
    let contract_xdr = bytes32_to_address_typed(&key, false);
    assert_eq!(contract_xdr.len(), 36);
    assert_eq!(address_to_bytes32(&contract_xdr), key);
    let parsed = address_from_xdr(&contract_xdr);
    assert_eq!(parsed.key, key);
    assert!(!parsed.is_account);
}

#[test]
fn test_address_parse_short_input_zeroes() {
    let empty: Vec<u8> = Vec::new();
    assert_eq!(address_to_bytes32(&empty), [0u8; 32]);
    let short = vec![0u8, 0, 0, 1, 5, 6];
    assert_eq!(address_to_bytes32(&short), [0u8; 32]);
}
