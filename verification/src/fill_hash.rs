//! Fill-hash computation.
//!
//! The fill-hash is a SHA-256 digest over the ordered, fixed-width
//! concatenation of an intent's canonical fields. Any change to field
//! order or width is a protocol version bump: the encoding is proved
//! injective so that two snapshots hash the same preimage only when
//! every hashed field agrees.

use vstd::prelude::*;

use crate::types::IntentData;
use crate::wire::{
    lemma_i128_be_roundtrip, lemma_u64_be_roundtrip, push_arr, push_i128_be, push_u64_be,
    spec_i128_be, spec_i128_from_be, spec_u64_be, spec_u64_from_be,
};

verus! {

/// What SHA-256 returns on `data`: a fixed function of the bytes alone.
pub uninterp spec fn sha256_of(data: Seq<u8>) -> Seq<u8>;

/// Relies on `sha2::Sha256` (the FIPS 180-4 SHA-256 function): the
/// 32-byte digest depends on the input bytes alone.
#[verifier::external_body]
fn sha256(data: &Vec<u8>) -> (r: [u8; 32])
    ensures
        r@ == sha256_of(data@),
{
    let digest = <sha2::Sha256 as sha2::Digest>::digest(data.as_slice());
    let mut out = [0u8; 32];
    out.copy_from_slice(digest.as_ref());
    out
}

/// The ordered, fixed-width concatenation hashed into the fill-hash:
/// intent id, sender, refund address, source token, source amount,
/// source chain id, destination chain id, destination token, receiver,
/// destination amount, deadline, creation time, assigned relayer.
pub open spec fn spec_preimage(d: IntentData) -> Seq<u8> {
    d.intent_id@ + d.sender@ + d.refund_address@ + d.source_token@ + spec_i128_be(d.source_amount)
        + spec_u64_be(d.source_chain_id) + spec_u64_be(d.destination_chain_id)
        + d.destination_token@ + d.receiver@ + spec_i128_be(d.destination_amount) + spec_u64_be(
        d.deadline,
    ) + spec_u64_be(d.created_at) + d.relayer@
}

/// Serialize the hash preimage of `d`.
pub fn encode_intent_data(d: &IntentData) -> (r: Vec<u8>)
    ensures
        r@ == spec_preimage(*d),
        r@.len() == 288,
{
    let mut out: Vec<u8> = Vec::new();
    push_arr(&mut out, &d.intent_id);
    push_arr(&mut out, &d.sender);
    push_arr(&mut out, &d.refund_address);
    push_arr(&mut out, &d.source_token);
    push_i128_be(&mut out, d.source_amount);
    push_u64_be(&mut out, d.source_chain_id);
    push_u64_be(&mut out, d.destination_chain_id);
    push_arr(&mut out, &d.destination_token);
    push_arr(&mut out, &d.receiver);
    push_i128_be(&mut out, d.destination_amount);
    push_u64_be(&mut out, d.deadline);
    push_u64_be(&mut out, d.created_at);
    push_arr(&mut out, &d.relayer);
    proof {
        assert(out@ =~= spec_preimage(*d));
    }
    out
}

/// Recompute the canonical fill-hash of `d`.
pub fn compute_fill_hash(d: &IntentData) -> (r: [u8; 32])
    ensures
        r@ == sha256_of(spec_preimage(*d)),
{
    let pre = encode_intent_data(d);
    sha256(&pre)
}

/// The hash preimage determines every hashed field: two snapshots
/// serialize to the same bytes only when they agree on all of them, so
/// tampering with any hashed field changes the preimage.
#[verifier::rlimit(60)]
pub proof fn lemma_preimage_injective(d1: IntentData, d2: IntentData)
    requires
        spec_preimage(d1) == spec_preimage(d2),
    ensures
        d1.intent_id@ == d2.intent_id@,
        d1.sender@ == d2.sender@,
        d1.refund_address@ == d2.refund_address@,
        d1.source_token@ == d2.source_token@,
        d1.source_amount == d2.source_amount,
        d1.source_chain_id == d2.source_chain_id,
        d1.destination_chain_id == d2.destination_chain_id,
        d1.destination_token@ == d2.destination_token@,
        d1.receiver@ == d2.receiver@,
        d1.destination_amount == d2.destination_amount,
        d1.deadline == d2.deadline,
        d1.created_at == d2.created_at,
        d1.relayer@ == d2.relayer@,
{
    let s1 = spec_preimage(d1);
    let s2 = spec_preimage(d2);
    assert(s1.subrange(0, 32) =~= d1.intent_id@);
    assert(s2.subrange(0, 32) =~= d2.intent_id@);
    assert(s1.subrange(32, 64) =~= d1.sender@);
    assert(s2.subrange(32, 64) =~= d2.sender@);
    assert(s1.subrange(64, 96) =~= d1.refund_address@);
    assert(s2.subrange(64, 96) =~= d2.refund_address@);
    assert(s1.subrange(96, 128) =~= d1.source_token@);
    assert(s2.subrange(96, 128) =~= d2.source_token@);
    assert(s1.subrange(128, 144) =~= spec_i128_be(d1.source_amount));
    assert(s2.subrange(128, 144) =~= spec_i128_be(d2.source_amount));
    lemma_i128_be_roundtrip(d1.source_amount);
    lemma_i128_be_roundtrip(d2.source_amount);
    assert(s1.subrange(144, 152) =~= spec_u64_be(d1.source_chain_id));
    assert(s2.subrange(144, 152) =~= spec_u64_be(d2.source_chain_id));
    lemma_u64_be_roundtrip(d1.source_chain_id);
    lemma_u64_be_roundtrip(d2.source_chain_id);
    assert(s1.subrange(152, 160) =~= spec_u64_be(d1.destination_chain_id));
    assert(s2.subrange(152, 160) =~= spec_u64_be(d2.destination_chain_id));
    lemma_u64_be_roundtrip(d1.destination_chain_id);
    lemma_u64_be_roundtrip(d2.destination_chain_id);
    assert(s1.subrange(160, 192) =~= d1.destination_token@);
    assert(s2.subrange(160, 192) =~= d2.destination_token@);
    assert(s1.subrange(192, 224) =~= d1.receiver@);
    assert(s2.subrange(192, 224) =~= d2.receiver@);
    assert(s1.subrange(224, 240) =~= spec_i128_be(d1.destination_amount));
    assert(s2.subrange(224, 240) =~= spec_i128_be(d2.destination_amount));
    lemma_i128_be_roundtrip(d1.destination_amount);
    lemma_i128_be_roundtrip(d2.destination_amount);
    assert(s1.subrange(240, 248) =~= spec_u64_be(d1.deadline));
    assert(s2.subrange(240, 248) =~= spec_u64_be(d2.deadline));
    lemma_u64_be_roundtrip(d1.deadline);
    lemma_u64_be_roundtrip(d2.deadline);
    assert(s1.subrange(248, 256) =~= spec_u64_be(d1.created_at));
    assert(s2.subrange(248, 256) =~= spec_u64_be(d2.created_at));
    lemma_u64_be_roundtrip(d1.created_at);
    lemma_u64_be_roundtrip(d2.created_at);
    assert(s1.subrange(256, 288) =~= d1.relayer@);
    assert(s2.subrange(256, 288) =~= d2.relayer@);
}

} // verus!
