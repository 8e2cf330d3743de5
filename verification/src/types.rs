//! Data model of the settlement engine.
//!
//! Chain-native account identifiers are modelled as their canonical
//! 32-byte form paired with the account-versus-contract discriminant,
//! which the 32 bytes alone cannot carry.

use vstd::prelude::*;

verus! {

/// A chain-native account identifier: the canonical 32-byte value plus
/// the type flag (`true` = account, `false` = contract) that is needed to
/// reconstruct the native form.
#[derive(Clone, Copy, Debug)]
pub struct Address {
    pub key: [u8; 32],
    pub is_account: bool,
}

/// Byte-for-byte equality of two 32-byte values.
pub fn b32_eq(a: &[u8; 32], b: &[u8; 32]) -> (r: bool)
    ensures
        r == (a@ == b@),
{
    broadcast use vstd::array::group_array_axioms;

    let mut i: usize = 0;
    while i < 32
        invariant
            0 <= i <= 32,
            forall|j: int| 0 <= j < i ==> a@[j] == b@[j],
        decreases 32 - i,
    {
        if a[i] != b[i] {
            return false;
        }
        i += 1;
    }
    proof {
        assert(a@ =~= b@);
    }
    true
}

impl PartialEq for Address {
    fn eq(&self, other: &Address) -> (r: bool) {
        proof {
            broadcast use vstd::array::group_array_axioms;

            if self.key@ == other.key@ {
                assert(self.key =~= other.key);
            }
        }
        b32_eq(&self.key, &other.key) && self.is_account == other.is_account
    }
}

impl Eq for Address {

}

impl vstd::std_specs::cmp::PartialEqSpecImpl for Address {
    open spec fn obeys_eq_spec() -> bool {
        true
    }

    open spec fn eq_spec(&self, other: &Address) -> bool {
        *self == *other
    }
}

/// Lifecycle status of an intent. `Pending` is the only initial state;
/// the other three are terminal for the normal flow.
#[derive(Clone, Copy, Debug, PartialEq, Eq, Structural)]
pub enum IntentStatus {
    Pending,
    Filled,
    Failed,
    Refunded,
}

/// Class of a relayer, governing who may fill.
#[derive(Clone, Copy, Debug, PartialEq, Eq, Structural)]
pub enum RelayerType {
    /// Not a relayer at all.
    Unregistered,
    /// Operator-run relayer, eligible for the time-gated fallback rule.
    Rozo,
    /// Third-party relayer.
    External,
}

/// A source-chain intent record, keyed by `intent_id`.
#[derive(Clone, Copy, Debug, PartialEq, Eq)]
pub struct Intent {
    pub intent_id: [u8; 32],
    pub sender: Address,
    pub refund_address: Address,
    pub source_token: Address,
    pub source_amount: i128,
    pub destination_chain_id: u64,
    pub destination_token: [u8; 32],
    pub receiver: [u8; 32],
    pub receiver_is_account: bool,
    pub destination_amount: i128,
    pub deadline: u64,
    pub created_at: u64,
    pub status: IntentStatus,
    pub relayer: [u8; 32],
}

/// The canonical, hash-stable snapshot of the fields that determine the
/// fill-hash. It must reconstruct byte-for-byte identically on the side
/// that fills and on the side that verifies.
#[derive(Clone, Copy, Debug, PartialEq, Eq)]
pub struct IntentData {
    pub intent_id: [u8; 32],
    pub sender: [u8; 32],
    pub refund_address: [u8; 32],
    pub source_token: [u8; 32],
    pub source_amount: i128,
    pub source_chain_id: u64,
    pub destination_chain_id: u64,
    pub destination_token: [u8; 32],
    pub receiver: [u8; 32],
    pub destination_amount: i128,
    pub deadline: u64,
    pub created_at: u64,
    pub relayer: [u8; 32],
    /// Address type of `receiver`, carried out-of-band; not hashed.
    pub receiver_is_account: bool,
}

/// Destination-chain record of one performed fill, keyed by fill-hash.
/// Its existence is itself the double-fill guard.
#[derive(Clone, Copy, Debug, PartialEq, Eq)]
pub struct FillRecord {
    /// Who performed the fill on the destination chain.
    pub relayer: Address,
    /// Canonical source-chain identifier to reimburse.
    pub repayment_address: [u8; 32],
}

/// Bundled inputs of intent creation.
#[derive(Clone, Copy, Debug, PartialEq, Eq)]
pub struct CreateIntentParams {
    pub intent_id: [u8; 32],
    pub source_token: Address,
    pub source_amount: i128,
    pub destination_chain_id: u64,
    pub destination_token: [u8; 32],
    pub receiver: [u8; 32],
    pub receiver_is_account: bool,
    pub destination_amount: i128,
    pub deadline: u64,
    pub refund_address: Address,
    pub relayer: [u8; 32],
}

/// One side of a token movement ordered by the engine.
#[derive(Clone, Copy, Debug, PartialEq, Eq)]
pub enum Party {
    /// The engine's own custody (the contract account).
    Custody,
    /// An external account or contract.
    Addr(Address),
}

/// A token movement the host must perform, atomically with the state
/// change that ordered it.
#[derive(Clone, Copy, Debug, PartialEq, Eq)]
pub struct Transfer {
    pub token: Address,
    pub from: Party,
    pub to: Party,
    pub amount: i128,
}

/// An outbound cross-chain notification for the host to deliver.
#[derive(Clone, Debug, PartialEq, Eq)]
pub struct OutboundMessage {
    pub destination_chain: String,
    pub destination_address: String,
    pub payload: Vec<u8>,
}

/// Everything a successful `fill_and_notify` orders the host to do.
#[derive(Clone, Debug, PartialEq, Eq)]
pub struct FillOutcome {
    /// Digest binding this fill to exactly one source-side intent.
    pub fill_hash: [u8; 32],
    /// Payment from the relayer to the receiver.
    pub transfer: Transfer,
    /// The registered adapter that must carry the notification.
    pub adapter: Address,
    /// Chain the notification must reach (the intent's source chain).
    pub notify_chain_id: u64,
    /// The notification itself.
    pub message: OutboundMessage,
}

/// Everything a successful `retry_notify` orders the host to do.
#[derive(Clone, Debug, PartialEq, Eq)]
pub struct RetryOutcome {
    pub fill_hash: [u8; 32],
    pub adapter: Address,
    pub notify_chain_id: u64,
    pub message: OutboundMessage,
}

/// Result of a verified `notify` call: either the intent settled and the
/// relayer payout must be performed, or verification failed and the
/// intent was recorded as `Failed` with both hashes kept for audit.
#[derive(Clone, Copy, Debug, PartialEq, Eq)]
pub enum NotifyOutcome {
    /// The claim verified: pay the relayer.
    Settled { payout: Transfer, fee: i128 },
    /// The claim did not verify: no payout, intent is `Failed`.
    Rejected { expected_hash: [u8; 32], received_hash: [u8; 32] },
}

} // verus!
