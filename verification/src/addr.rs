//! Canonical address codec.
//!
//! A native account identifier serializes (in XDR) as either
//! 4 discriminant bytes + 4 key-type bytes + a 32-byte key (an account),
//! or 4 discriminant bytes + a 32-byte contract id (a contract). The
//! canonical cross-chain form is the bare 32 bytes; the account-versus-
//! contract discriminant must be carried alongside, since the 32 bytes
//! alone cannot reconstruct the native form.

use vstd::prelude::*;

use crate::types::Address;

verus! {

/// All-zero 32-byte value, the canonical "no address".
pub open spec fn zero_key() -> Seq<u8> {
    Seq::new(32, |i: int| 0u8)
}

/// The discriminant of a serialized address: byte 3, or 0 when absent.
pub open spec fn spec_xdr_discriminant(b: Seq<u8>) -> u8 {
    if b.len() >= 4 {
        b[3]
    } else {
        0u8
    }
}

/// The canonical 32 bytes a serialized address carries: the key of an
/// account form of at least 40 bytes, the contract id of a contract
/// form of at least 36 bytes, and all zeros for anything shorter.
pub open spec fn spec_key_of_xdr(b: Seq<u8>) -> Seq<u8> {
    if spec_xdr_discriminant(b) == 0 {
        if b.len() >= 40 {
            b.subrange(8, 40)
        } else {
            zero_key()
        }
    } else {
        if b.len() >= 36 {
            b.subrange(4, 36)
        } else {
            zero_key()
        }
    }
}

/// The serialized form of a canonical key: 8 leading zero bytes plus the
/// key for an account, 3 zero bytes, a 1, and the key for a contract.
pub open spec fn spec_xdr_of_key(key: Seq<u8>, is_account: bool) -> Seq<u8> {
    if is_account {
        Seq::new(8, |i: int| 0u8) + key
    } else {
        Seq::new(3, |i: int| 0u8).push(1u8) + key
    }
}

/// Extract the canonical 32 bytes from a serialized address. The
/// account-versus-contract discriminant is *not* preserved; callers that
/// need to round-trip must keep it separately (see `address_from_xdr`).
pub fn address_to_bytes32(xdr: &Vec<u8>) -> (r: [u8; 32])
    ensures
        r@ == spec_key_of_xdr(xdr@),
{
    broadcast use vstd::array::group_array_axioms;

    let len = xdr.len();
    let disc: u8 = if len >= 4 {
        xdr[3]
    } else {
        0
    };
    let mut r = [0u8; 32];
    if disc == 0 {
        if len >= 40 {
            let mut i: usize = 0;
            while i < 32
                invariant
                    0 <= i <= 32,
                    len == xdr@.len(),
                    40 <= len,
                    forall|j: int| 0 <= j < i ==> r@[j] == xdr@[8 + j],
                decreases 32 - i,
            {
                r[i] = xdr[8 + i];
                i += 1;
            }
            proof {
                assert(r@ =~= xdr@.subrange(8, 40));
            }
        } else {
            proof {
                assert(r@ =~= zero_key());
            }
        }
    } else {
        if len >= 36 {
            let mut i: usize = 0;
            while i < 32
                invariant
                    0 <= i <= 32,
                    len == xdr@.len(),
                    36 <= len,
                    forall|j: int| 0 <= j < i ==> r@[j] == xdr@[4 + j],
                decreases 32 - i,
            {
                r[i] = xdr[4 + i];
                i += 1;
            }
            proof {
                assert(r@ =~= xdr@.subrange(4, 36));
            }
        } else {
            proof {
                assert(r@ =~= zero_key());
            }
        }
    }
    r
}

/// Parse a serialized address into the canonical form plus its type
/// flag, so the pair can be round-tripped.
pub fn address_from_xdr(xdr: &Vec<u8>) -> (r: Address)
    ensures
        r.key@ == spec_key_of_xdr(xdr@),
        r.is_account == (spec_xdr_discriminant(xdr@) == 0),
{
    let len = xdr.len();
    let disc: u8 = if len >= 4 {
        xdr[3]
    } else {
        0
    };
    let key = address_to_bytes32(xdr);
    Address { key, is_account: disc == 0 }
}

/// Serialize a canonical key back to the native byte form dictated by
/// the explicit type flag.
pub fn bytes32_to_address_typed(bytes: &[u8; 32], is_account: bool) -> (r: Vec<u8>)
    ensures
        r@ == spec_xdr_of_key(bytes@, is_account),
        r@.len() == (if is_account {
            40int
        } else {
            36int
        }),
{
    let mut out: Vec<u8> = Vec::new();
    if is_account {
        let prefix = [0u8; 8];
        crate::wire::push_arr(&mut out, &prefix);
        crate::wire::push_arr(&mut out, bytes);
        proof {
            broadcast use vstd::array::group_array_axioms;

            assert(out@ =~= spec_xdr_of_key(bytes@, is_account));
        }
    } else {
        out.push(0u8);
        out.push(0u8);
        out.push(0u8);
        out.push(1u8);
        crate::wire::push_arr(&mut out, bytes);
        proof {
            assert(out@ =~= spec_xdr_of_key(bytes@, is_account));
        }
    }
    out
}

/// Serialize a canonical key as a contract address, the default for
/// cross-chain use (tokens are always contracts); an account form must
/// be requested explicitly through `bytes32_to_address_typed`.
pub fn bytes32_to_address(bytes: &[u8; 32]) -> (r: Vec<u8>)
    ensures
        r@ == spec_xdr_of_key(bytes@, false),
{
    bytes32_to_address_typed(bytes, false)
}

/// Round trip of the canonical codec: serializing a key with its type
/// flag and parsing the result recovers both exactly.
pub proof fn lemma_address_roundtrip(key: Seq<u8>, is_account: bool)
    requires
        key.len() == 32,
    ensures
        spec_key_of_xdr(spec_xdr_of_key(key, is_account)) == key,
        (spec_xdr_discriminant(spec_xdr_of_key(key, is_account)) == 0) == is_account,
{
    let b = spec_xdr_of_key(key, is_account);
    if is_account {
        assert(b.len() == 40);
        assert(b[3] == 0);
        assert(b.subrange(8, 40) =~= key);
    } else {
        assert(b.len() == 36);
        assert(b[3] == 1);
        assert(b.subrange(4, 36) =~= key);
    }
}

} // verus!
