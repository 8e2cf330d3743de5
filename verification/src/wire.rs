//! Fixed-width big-endian encoding and the 160-byte cross-chain payload.
//!
//! The notify payload is the sole cross-chain contract surface: five
//! 32-byte fields in order — intent id, fill-hash, repayment address,
//! relayer, and a 128-bit amount right-aligned in 32 bytes — and it must
//! stay byte-stable. Decoding rejects any other length outright.

use vstd::prelude::*;

use crate::errors::Error;

verus! {

/// The 8 bytes of `x`, most significant first.
pub open spec fn spec_u64_be(x: u64) -> Seq<u8> {
    seq![
        ((x >> 56) & 0xff) as u8,
        ((x >> 48) & 0xff) as u8,
        ((x >> 40) & 0xff) as u8,
        ((x >> 32) & 0xff) as u8,
        ((x >> 24) & 0xff) as u8,
        ((x >> 16) & 0xff) as u8,
        ((x >> 8) & 0xff) as u8,
        (x & 0xff) as u8,
    ]
}

/// The value whose big-endian bytes are `s` (which must have length 8).
pub open spec fn spec_u64_from_be(s: Seq<u8>) -> u64 {
    (((s[0] as u64) << 56) | ((s[1] as u64) << 48) | ((s[2] as u64) << 40) | ((s[3] as u64) << 32)
        | ((s[4] as u64) << 24) | ((s[5] as u64) << 16) | ((s[6] as u64) << 8) | (s[7] as u64))
}

/// The 16 bytes of `x`, most significant first.
pub open spec fn spec_u128_be(x: u128) -> Seq<u8> {
    seq![
        ((x >> 120) & 0xff) as u8,
        ((x >> 112) & 0xff) as u8,
        ((x >> 104) & 0xff) as u8,
        ((x >> 96) & 0xff) as u8,
        ((x >> 88) & 0xff) as u8,
        ((x >> 80) & 0xff) as u8,
        ((x >> 72) & 0xff) as u8,
        ((x >> 64) & 0xff) as u8,
        ((x >> 56) & 0xff) as u8,
        ((x >> 48) & 0xff) as u8,
        ((x >> 40) & 0xff) as u8,
        ((x >> 32) & 0xff) as u8,
        ((x >> 24) & 0xff) as u8,
        ((x >> 16) & 0xff) as u8,
        ((x >> 8) & 0xff) as u8,
        (x & 0xff) as u8,
    ]
}

/// The value whose big-endian bytes are `s` (which must have length 16).
pub open spec fn spec_u128_from_be(s: Seq<u8>) -> u128 {
    (((s[0] as u128) << 120) | ((s[1] as u128) << 112) | ((s[2] as u128) << 104) | ((
    s[3] as u128) << 96) | ((s[4] as u128) << 88) | ((s[5] as u128) << 80) | ((s[6] as u128) << 72)
        | ((s[7] as u128) << 64) | ((s[8] as u128) << 56) | ((s[9] as u128) << 48) | ((
    s[10] as u128) << 40) | ((s[11] as u128) << 32) | ((s[12] as u128) << 24) | ((
    s[13] as u128) << 16) | ((s[14] as u128) << 8) | (s[15] as u128))
}

/// The 16 bytes of a signed amount: its two's-complement bit pattern,
/// most significant first.
pub open spec fn spec_i128_be(x: i128) -> Seq<u8> {
    spec_u128_be(x as u128)
}

/// The signed value whose big-endian two's-complement bytes are `s`.
pub open spec fn spec_i128_from_be(s: Seq<u8>) -> i128 {
    spec_u128_from_be(s) as i128
}

/// Decoding the big-endian bytes of a `u64` gives the value back.
pub proof fn lemma_u64_be_roundtrip(x: u64)
    ensures
        spec_u64_from_be(spec_u64_be(x)) == x,
{
    assert(((((((x >> 56) & 0xff) as u8) as u64) << 56) | (((((x >> 48) & 0xff) as u8) as u64)
        << 48) | (((((x >> 40) & 0xff) as u8) as u64) << 40) | (((((x >> 32) & 0xff) as u8) as u64)
        << 32) | (((((x >> 24) & 0xff) as u8) as u64) << 24) | (((((x >> 16) & 0xff) as u8) as u64)
        << 16) | (((((x >> 8) & 0xff) as u8) as u64) << 8) | (((x & 0xff) as u8) as u64)) == x)
        by (bit_vector);
}

/// Decoding the big-endian bytes of a `u128` gives the value back.
pub proof fn lemma_u128_be_roundtrip(x: u128)
    ensures
        spec_u128_from_be(spec_u128_be(x)) == x,
{
    assert(((((((x >> 120) & 0xff) as u8) as u128) << 120) | (((((x >> 112) & 0xff) as u8) as u128)
        << 112) | (((((x >> 104) & 0xff) as u8) as u128) << 104) | (((((x >> 96)
        & 0xff) as u8) as u128) << 96) | (((((x >> 88) & 0xff) as u8) as u128) << 88) | (((((x
        >> 80) & 0xff) as u8) as u128) << 80) | (((((x >> 72) & 0xff) as u8) as u128) << 72) | ((((
    (x >> 64) & 0xff) as u8) as u128) << 64) | (((((x >> 56) & 0xff) as u8) as u128) << 56) | ((((
    (x >> 48) & 0xff) as u8) as u128) << 48) | (((((x >> 40) & 0xff) as u8) as u128) << 40) | ((((
    (x >> 32) & 0xff) as u8) as u128) << 32) | (((((x >> 24) & 0xff) as u8) as u128) << 24) | ((((
    (x >> 16) & 0xff) as u8) as u128) << 16) | (((((x >> 8) & 0xff) as u8) as u128) << 8) | (((x
        & 0xff) as u8) as u128)) == x) by (bit_vector);
}

/// Decoding the big-endian bytes of an `i128` gives the value back.
pub proof fn lemma_i128_be_roundtrip(x: i128)
    ensures
        spec_i128_from_be(spec_i128_be(x)) == x,
{
    lemma_u128_be_roundtrip(x as u128);
    assert(((x as u128) as i128) == x) by (bit_vector);
}

/// Append a fixed-width byte block.
pub fn push_arr<const N: usize>(out: &mut Vec<u8>, b: &[u8; N])
    ensures
        final(out)@ == old(out)@ + b@,
{
    broadcast use vstd::array::group_array_axioms;

    let ghost base = out@;
    let mut i: usize = 0;
    while i < N
        invariant
            0 <= i <= N,
            out@ == base + b@.take(i as int),
        decreases N - i,
    {
        proof {
            assert(base + b@.take((i + 1) as int) =~= (base + b@.take(i as int)).push(b@[i as int]));
        }
        out.push(b[i]);
        i += 1;
    }
    proof {
        assert(b@.take(N as int) =~= b@);
    }
}

/// Append the 8 big-endian bytes of `x`.
pub fn push_u64_be(out: &mut Vec<u8>, x: u64)
    ensures
        final(out)@ == old(out)@ + spec_u64_be(x),
{
    out.push(((x >> 56) & 0xff) as u8);
    out.push(((x >> 48) & 0xff) as u8);
    out.push(((x >> 40) & 0xff) as u8);
    out.push(((x >> 32) & 0xff) as u8);
    out.push(((x >> 24) & 0xff) as u8);
    out.push(((x >> 16) & 0xff) as u8);
    out.push(((x >> 8) & 0xff) as u8);
    out.push((x & 0xff) as u8);
    proof {
        assert(out@ =~= old(out)@ + spec_u64_be(x));
    }
}

/// Append the 16 big-endian bytes of `x`.
pub fn push_u128_be(out: &mut Vec<u8>, x: u128)
    ensures
        final(out)@ == old(out)@ + spec_u128_be(x),
{
    out.push(((x >> 120) & 0xff) as u8);
    out.push(((x >> 112) & 0xff) as u8);
    out.push(((x >> 104) & 0xff) as u8);
    out.push(((x >> 96) & 0xff) as u8);
    out.push(((x >> 88) & 0xff) as u8);
    out.push(((x >> 80) & 0xff) as u8);
    out.push(((x >> 72) & 0xff) as u8);
    out.push(((x >> 64) & 0xff) as u8);
    out.push(((x >> 56) & 0xff) as u8);
    out.push(((x >> 48) & 0xff) as u8);
    out.push(((x >> 40) & 0xff) as u8);
    out.push(((x >> 32) & 0xff) as u8);
    out.push(((x >> 24) & 0xff) as u8);
    out.push(((x >> 16) & 0xff) as u8);
    out.push(((x >> 8) & 0xff) as u8);
    out.push((x & 0xff) as u8);
    proof {
        assert(out@ =~= old(out)@ + spec_u128_be(x));
    }
}

/// Append the 16 big-endian two's-complement bytes of `x`.
pub fn push_i128_be(out: &mut Vec<u8>, x: i128)
    ensures
        final(out)@ == old(out)@ + spec_i128_be(x),
{
    push_u128_be(out, #[verifier::truncate] (x as u128));
}

/// Read 32 bytes starting at `off`.
pub fn read_b32(p: &Vec<u8>, off: usize) -> (r: [u8; 32])
    requires
        off + 32 <= p@.len(),
    ensures
        r@ == p@.subrange(off as int, off as int + 32),
{
    broadcast use vstd::array::group_array_axioms;

    let n = p.len();
    let mut r = [0u8; 32];
    let mut i: usize = 0;
    while i < 32
        invariant
            0 <= i <= 32,
            n == p@.len(),
            off + 32 <= n,
            forall|j: int| 0 <= j < i ==> r@[j] == p@[off + j],
        decreases 32 - i,
    {
        r[i] = p[off + i];
        i += 1;
    }
    proof {
        assert(r@ =~= p@.subrange(off as int, off as int + 32));
    }
    r
}

/// Read a big-endian `u128` from the 16 bytes starting at `off`.
pub fn read_u128_be(p: &Vec<u8>, off: usize) -> (r: u128)
    requires
        off + 16 <= p@.len(),
    ensures
        r == spec_u128_from_be(p@.subrange(off as int, off as int + 16)),
{
    let n = p.len();
    proof {
        assert(off + 16 <= n);
    }
    let r = (((p[off] as u128) << 120) | ((p[off + 1] as u128) << 112) | ((p[off + 2] as u128)
        << 104) | ((p[off + 3] as u128) << 96) | ((p[off + 4] as u128) << 88) | ((p[off
        + 5] as u128) << 80) | ((p[off + 6] as u128) << 72) | ((p[off + 7] as u128) << 64) | ((p[off
        + 8] as u128) << 56) | ((p[off + 9] as u128) << 48) | ((p[off + 10] as u128) << 40) | ((
    p[off + 11] as u128) << 32) | ((p[off + 12] as u128) << 24) | ((p[off + 13] as u128) << 16) | ((
    p[off + 14] as u128) << 8) | (p[off + 15] as u128));
    proof {
        let s = p@.subrange(off as int, off as int + 16);
        assert(forall|j: int| 0 <= j < 16 ==> s[j] == p@[off + j]);
    }
    r
}

/// One decoded cross-chain fill notification.
#[derive(Clone, Copy, Debug, PartialEq, Eq)]
pub struct NotifyMessage {
    pub intent_id: [u8; 32],
    pub fill_hash: [u8; 32],
    pub repayment_address: [u8; 32],
    pub relayer: [u8; 32],
    pub amount: i128,
}

/// The 160-byte wire form of a fill notification.
pub open spec fn spec_notify_payload(
    intent_id: Seq<u8>,
    fill_hash: Seq<u8>,
    repayment_address: Seq<u8>,
    relayer: Seq<u8>,
    amount: i128,
) -> Seq<u8> {
    intent_id + fill_hash + repayment_address + relayer + Seq::new(16, |i: int| 0u8)
        + spec_i128_be(amount)
}

/// Encode a fill notification: always exactly 160 bytes, the amount
/// right-aligned and zero-padded in its 32-byte slot.
pub fn encode_notify_payload(
    intent_id: &[u8; 32],
    fill_hash: &[u8; 32],
    repayment_address: &[u8; 32],
    relayer: &[u8; 32],
    amount: i128,
) -> (r: Vec<u8>)
    ensures
        r@ == spec_notify_payload(intent_id@, fill_hash@, repayment_address@, relayer@, amount),
        r@.len() == 160,
{
    broadcast use vstd::array::group_array_axioms;

    let mut out: Vec<u8> = Vec::new();
    push_arr(&mut out, intent_id);
    push_arr(&mut out, fill_hash);
    push_arr(&mut out, repayment_address);
    push_arr(&mut out, relayer);
    let pad = [0u8; 16];
    push_arr(&mut out, &pad);
    push_i128_be(&mut out, amount);
    proof {
        assert(pad@ =~= Seq::new(16, |i: int| 0u8));
        assert(out@ =~= spec_notify_payload(
            intent_id@,
            fill_hash@,
            repayment_address@,
            relayer@,
            amount,
        ));
    }
    out
}

/// Decode a fill notification. Exactly the payloads of length 160 are
/// accepted; everything else is `InvalidPayload`, with no partial
/// decoding attempted.
pub fn decode_notify_payload(payload: &Vec<u8>) -> (r: Result<NotifyMessage, Error>)
    ensures
        r is Err <==> payload@.len() != 160,
        r is Err ==> r == Err::<NotifyMessage, Error>(Error::InvalidPayload),
        r matches Ok(m) ==> {
            &&& m.intent_id@ == payload@.subrange(0, 32)
            &&& m.fill_hash@ == payload@.subrange(32, 64)
            &&& m.repayment_address@ == payload@.subrange(64, 96)
            &&& m.relayer@ == payload@.subrange(96, 128)
            &&& m.amount == spec_i128_from_be(payload@.subrange(144, 160))
        },
{
    if payload.len() != 160 {
        return Err(Error::InvalidPayload);
    }
    let intent_id = read_b32(payload, 0);
    let fill_hash = read_b32(payload, 32);
    let repayment_address = read_b32(payload, 64);
    let relayer = read_b32(payload, 96);
    let amount_bits = read_u128_be(payload, 144);
    let amount: i128 = #[verifier::truncate] (amount_bits as i128);
    Ok(NotifyMessage { intent_id, fill_hash, repayment_address, relayer, amount })
}

/// Round trip of the wire format: decoding an encoded notification
/// recovers every field exactly.
pub proof fn lemma_notify_payload_roundtrip(
    intent_id: Seq<u8>,
    fill_hash: Seq<u8>,
    repayment_address: Seq<u8>,
    relayer: Seq<u8>,
    amount: i128,
)
    requires
        intent_id.len() == 32,
        fill_hash.len() == 32,
        repayment_address.len() == 32,
        relayer.len() == 32,
    ensures
        spec_notify_payload(intent_id, fill_hash, repayment_address, relayer, amount).len() == 160,
        spec_notify_payload(intent_id, fill_hash, repayment_address, relayer, amount).subrange(
            0,
            32,
        ) == intent_id,
        spec_notify_payload(intent_id, fill_hash, repayment_address, relayer, amount).subrange(
            32,
            64,
        ) == fill_hash,
        spec_notify_payload(intent_id, fill_hash, repayment_address, relayer, amount).subrange(
            64,
            96,
        ) == repayment_address,
        spec_notify_payload(intent_id, fill_hash, repayment_address, relayer, amount).subrange(
            96,
            128,
        ) == relayer,
        spec_i128_from_be(
            spec_notify_payload(intent_id, fill_hash, repayment_address, relayer, amount).subrange(
                144,
                160,
            ),
        ) == amount,
{
    let p = spec_notify_payload(intent_id, fill_hash, repayment_address, relayer, amount);
    assert(p.subrange(0, 32) =~= intent_id);
    assert(p.subrange(32, 64) =~= fill_hash);
    assert(p.subrange(64, 96) =~= repayment_address);
    assert(p.subrange(96, 128) =~= relayer);
    assert(p.subrange(144, 160) =~= spec_i128_be(amount));
    lemma_i128_be_roundtrip(amount);
}

} // verus!
