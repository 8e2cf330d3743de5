//! The intent settlement engine.
//!
//! All contract state lives in one explicit [`RozoIntentsContract`]
//! value. Every entry point is a function from state and plain inputs
//! (including the caller and the current time, which a host supplies) to
//! the next state, an error or an outcome describing the token
//! transfers and outbound messages the host must perform atomically with
//! the state change. Calls that return an error change nothing.

use vstd::prelude::*;

use crate::addr::zero_key;
use crate::errors::Error;
use crate::fee::{compute_fee, spec_fee, spec_payout, MAX_FEE_BPS};
use crate::fill_hash::{compute_fill_hash, sha256_of, spec_preimage};
use crate::store::{ChainNameMap, KvMap, TrustedMap};
use crate::types::{
    Address, CreateIntentParams, FillOutcome, FillRecord, Intent, IntentData, IntentStatus,
    NotifyOutcome, OutboundMessage, Party, RelayerType, RetryOutcome, Transfer,
};
use crate::wire::{decode_notify_payload, encode_notify_payload, spec_notify_payload};

verus! {

/// The byte key under which an address is registered: its canonical 32
/// bytes plus one discriminant byte, so that an account and a contract
/// with the same key stay distinct.
pub open spec fn addr_key(a: Address) -> Seq<u8> {
    a.key@.push(
        if a.is_account {
            1u8
        } else {
            0u8
        },
    )
}

fn addr_key33(a: &Address) -> (k: [u8; 33])
    ensures
        k@ == addr_key(*a),
{
    broadcast use vstd::array::group_array_axioms;

    let mut k = [0u8; 33];
    let mut i: usize = 0;
    while i < 32
        invariant
            0 <= i <= 32,
            forall|j: int| 0 <= j < i ==> k@[j] == a.key@[j],
            k@.len() == 33,
        decreases 32 - i,
    {
        k[i] = a.key[i];
        i += 1;
    }
    k[32] = if a.is_account {
        1
    } else {
        0
    };
    proof {
        assert(k@ =~= addr_key(*a));
    }
    k
}

/// Whether a 32-byte value is the all-zero "open to any relayer" marker.
pub fn is_zero_key(b: &[u8; 32]) -> (r: bool)
    ensures
        r == (b@ == zero_key()),
{
    broadcast use vstd::array::group_array_axioms;

    let z = [0u8; 32];
    proof {
        assert(z@ =~= zero_key());
    }
    crate::types::b32_eq(b, &z)
}

/// The intent settlement engine's whole state.
pub struct RozoIntentsContract {
    pub owner: Option<Address>,
    pub fee_recipient: Option<Address>,
    pub fee_bps: u32,
    pub chain_id: u64,
    pub rozo_relayer: Option<Address>,
    pub rozo_threshold: u64,
    pub intents: KvMap<32, Intent>,
    pub relayers: KvMap<33, RelayerType>,
    pub adapters: KvMap<1, Address>,
    pub fills: KvMap<32, FillRecord>,
    pub chain_names: ChainNameMap,
    pub trusted: TrustedMap,
    pub fees: KvMap<33, i128>,
    pub outbound: Vec<OutboundMessage>,
}

impl RozoIntentsContract {
    /// Internal consistency: the fee rate respects the policy cap, and
    /// every stored intent sits under its own id with positive amounts.
    pub open spec fn wf(self) -> bool {
        &&& self.fee_bps <= MAX_FEE_BPS
        &&& forall|k: Seq<u8>|
            (#[trigger] self.intents.spec_get(k)) matches Some(i) ==> i.intent_id@ == k
                && i.source_amount > 0 && i.destination_amount > 0
    }

    /// The stored intent under `id`, if any.
    pub open spec fn spec_intent(self, id: Seq<u8>) -> Option<Intent> {
        self.intents.spec_get(id)
    }

    /// The registered class of `a`; unregistered addresses are no
    /// relayers.
    pub open spec fn spec_relayer_type(self, a: Address) -> RelayerType {
        match self.relayers.spec_get(addr_key(a)) {
            Some(t) => t,
            None => RelayerType::Unregistered,
        }
    }

    /// The registered adapter under `messenger_id`, if any.
    pub open spec fn spec_adapter(self, messenger_id: u8) -> Option<Address> {
        self.adapters.spec_get(seq![messenger_id])
    }

    /// The fill record under `fill_hash`, if any.
    pub open spec fn spec_fill(self, fill_hash: Seq<u8>) -> Option<FillRecord> {
        self.fills.spec_get(fill_hash)
    }

    /// The registered name of chain `chain_id`, if any.
    pub open spec fn spec_chain_name(self, chain_id: u64) -> Option<Seq<char>> {
        self.chain_names.spec_get(chain_id)
    }

    /// The trusted remote contract for `chain_name`, if any.
    pub open spec fn spec_trusted(self, chain_name: Seq<char>) -> Option<Seq<char>> {
        self.trusted.spec_get(chain_name)
    }

    /// Fees accumulated so far for `token`.
    pub open spec fn spec_accum_fees(self, token: Address) -> i128 {
        match self.fees.spec_get(addr_key(token)) {
            Some(v) => v,
            None => 0,
        }
    }

    /// Whether `a` is the configured owner.
    pub open spec fn spec_is_owner(self, a: Address) -> bool {
        self.owner == Some(a)
    }

    /// A fresh engine: nothing configured, nothing stored.
    pub fn new() -> (r: Self)
        ensures
            r.wf(),
            r.owner is None,
            r.fee_recipient is None,
            r.fee_bps == 0,
            r.chain_id == 0,
            r.rozo_relayer is None,
            r.rozo_threshold == 0,
            forall|k: Seq<u8>| r.spec_intent(k) is None,
            forall|a: Address| r.spec_relayer_type(a) == RelayerType::Unregistered,
            forall|m: u8| r.spec_adapter(m) is None,
            forall|k: Seq<u8>| r.spec_fill(k) is None,
            forall|c: u64| r.spec_chain_name(c) is None,
            forall|n: Seq<char>| r.spec_trusted(n) is None,
            forall|t: Address| r.spec_accum_fees(t) == 0,
            r.outbound@.len() == 0,
    {
        RozoIntentsContract {
            owner: None,
            fee_recipient: None,
            fee_bps: 0,
            chain_id: 0,
            rozo_relayer: None,
            rozo_threshold: 0,
            intents: KvMap::new(),
            relayers: KvMap::new(),
            adapters: KvMap::new(),
            fills: KvMap::new(),
            chain_names: ChainNameMap::new(),
            trusted: TrustedMap::new(),
            fees: KvMap::new(),
            outbound: Vec::new(),
        }
    }

    /// Configure owner, fee recipient and this chain's id, once.
    pub fn initialize(&mut self, owner: Address, fee_recipient: Address, chain_id: u64) -> (r:
        Result<(), Error>)
        requires
            old(self).wf(),
        ensures
            final(self).wf(),
            r is Err <==> old(self).owner is Some,
            r is Err ==> r == Err::<(), Error>(Error::AlreadyInitialized) && *final(self) == *old(
                self,
            ),
            r is Ok ==> *final(self) == (Self {
                owner: Some(owner),
                fee_recipient: Some(fee_recipient),
                chain_id,
                ..*old(self)
            }),
    {
        if self.owner.is_some() {
            return Err(Error::AlreadyInitialized);
        }
        self.owner = Some(owner);
        self.fee_recipient = Some(fee_recipient);
        self.chain_id = chain_id;
        Ok(())
    }

    /// Owner gate of the admin surface: the engine must be initialized
    /// and the caller must be the owner.
    fn require_owner(&self, admin: &Address) -> (r: Result<(), Error>)
        ensures
            r is Ok <==> self.spec_is_owner(*admin),
            r is Err ==> (self.owner is None && r == Err::<(), Error>(Error::NotInitialized)) || (
            self.owner is Some && r == Err::<(), Error>(Error::NotOwner)),
    {
        match &self.owner {
            None => Err(Error::NotInitialized),
            Some(o) => {
                if *o == *admin {
                    Ok(())
                } else {
                    Err(Error::NotOwner)
                }
            },
        }
    }

    /// Set the protocol fee, capped at 30 basis points.
    pub fn set_protocol_fee(&mut self, admin: Address, fee_bps: u32) -> (r: Result<(), Error>)
        requires
            old(self).wf(),
        ensures
            final(self).wf(),
            r is Err ==> *final(self) == *old(self),
            !old(self).spec_is_owner(admin) ==> r is Err && r != Err::<(), Error>(
                Error::InvalidFee,
            ),
            old(self).spec_is_owner(admin) && fee_bps > MAX_FEE_BPS <==> r == Err::<(), Error>(
                Error::InvalidFee,
            ),
            r is Ok <==> old(self).spec_is_owner(admin) && fee_bps <= MAX_FEE_BPS,
            r is Ok ==> *final(self) == (Self { fee_bps, ..*old(self) }),
    {
        let owner_check = self.require_owner(&admin);
        if let Err(e) = owner_check {
            return Err(e);
        }
        if fee_bps > MAX_FEE_BPS {
            return Err(Error::InvalidFee);
        }
        self.fee_bps = fee_bps;
        Ok(())
    }

    /// Set the fee recipient.
    pub fn set_fee_rcpt(&mut self, admin: Address, recipient: Address) -> (r: Result<(), Error>)
        requires
            old(self).wf(),
        ensures
            final(self).wf(),
            r is Err ==> *final(self) == *old(self),
            r is Ok <==> old(self).spec_is_owner(admin),
            r is Ok ==> *final(self) == (Self { fee_recipient: Some(recipient), ..*old(self) }),
    {
        let owner_check = self.require_owner(&admin);
        if let Err(e) = owner_check {
            return Err(e);
        }
        self.fee_recipient = Some(recipient);
        Ok(())
    }

    /// Register a relayer with its class, which must not be the
    /// unregistered one.
    pub fn add_relayer(&mut self, admin: Address, relayer: Address, relayer_type: RelayerType) -> (r:
        Result<(), Error>)
        requires
            old(self).wf(),
        ensures
            final(self).wf(),
            r is Err ==> *final(self) == *old(self),
            !old(self).spec_is_owner(admin) ==> r is Err && r != Err::<(), Error>(
                Error::InvalidPayload,
            ),
            old(self).spec_is_owner(admin) && relayer_type == RelayerType::Unregistered <==> r
                == Err::<(), Error>(Error::InvalidPayload),
            r is Ok <==> old(self).spec_is_owner(admin) && relayer_type
                != RelayerType::Unregistered,
            r is Ok ==> {
                &&& final(self).spec_relayer_type(relayer) == relayer_type
                &&& forall|a: Address|
                    addr_key(a) != addr_key(relayer) ==> final(self).spec_relayer_type(a) == old(
                        self,
                    ).spec_relayer_type(a)
                &&& *final(self) == (Self { relayers: final(self).relayers, ..*old(self) })
            },
    {
        let owner_check = self.require_owner(&admin);
        if let Err(e) = owner_check {
            return Err(e);
        }
        if relayer_type == RelayerType::Unregistered {
            return Err(Error::InvalidPayload);
        }
        let k = addr_key33(&relayer);
        self.relayers.set(k, relayer_type);
        Ok(())
    }

    /// Strike a relayer from the registry.
    pub fn remove_relayer(&mut self, admin: Address, relayer: Address) -> (r: Result<(), Error>)
        requires
            old(self).wf(),
        ensures
            final(self).wf(),
            r is Err ==> *final(self) == *old(self),
            r is Ok <==> old(self).spec_is_owner(admin),
            r is Ok ==> {
                &&& final(self).spec_relayer_type(relayer) == RelayerType::Unregistered
                &&& forall|a: Address|
                    addr_key(a) != addr_key(relayer) ==> final(self).spec_relayer_type(a) == old(
                        self,
                    ).spec_relayer_type(a)
                &&& *final(self) == (Self { relayers: final(self).relayers, ..*old(self) })
            },
    {
        let owner_check = self.require_owner(&admin);
        if let Err(e) = owner_check {
            return Err(e);
        }
        let k = addr_key33(&relayer);
        self.relayers.set(k, RelayerType::Unregistered);
        Ok(())
    }

    /// Register a messenger adapter under a numeric id.
    pub fn set_msger_adapter(&mut self, admin: Address, messenger_id: u8, adapter: Address) -> (r:
        Result<(), Error>)
        requires
            old(self).wf(),
        ensures
            final(self).wf(),
            r is Err ==> *final(self) == *old(self),
            r is Ok <==> old(self).spec_is_owner(admin),
            r is Ok ==> {
                &&& final(self).spec_adapter(messenger_id) == Some(adapter)
                &&& forall|m: u8|
                    m != messenger_id ==> final(self).spec_adapter(m) == old(self).spec_adapter(m)
                &&& *final(self) == (Self { adapters: final(self).adapters, ..*old(self) })
            },
    {
        let owner_check = self.require_owner(&admin);
        if let Err(e) = owner_check {
            return Err(e);
        }
        let k = [messenger_id];
        proof {
            broadcast use vstd::array::group_array_axioms;

            assert(k@ =~= seq![messenger_id]);
            assert forall|m: u8| m != messenger_id implies seq![m] != seq![messenger_id] by {
                assert(seq![m][0] == m);
            }
        }
        self.adapters.set(k, adapter);
        Ok(())
    }

    /// Register the trusted remote contract for a chain name.
    pub fn set_trusted_contract(&mut self, admin: Address, chain_name: String, contract_address:
        String) -> (r: Result<(), Error>)
        requires
            old(self).wf(),
        ensures
            final(self).wf(),
            r is Err ==> *final(self) == *old(self),
            r is Ok <==> old(self).spec_is_owner(admin),
            r is Ok ==> {
                &&& final(self).spec_trusted(chain_name@) == Some(contract_address@)
                &&& forall|n: Seq<char>|
                    n != chain_name@ ==> final(self).spec_trusted(n) == old(self).spec_trusted(n)
                &&& *final(self) == (Self { trusted: final(self).trusted, ..*old(self) })
            },
    {
        let owner_check = self.require_owner(&admin);
        if let Err(e) = owner_check {
            return Err(e);
        }
        self.trusted.set(chain_name, contract_address);
        Ok(())
    }

    /// Register the name of a chain id.
    pub fn set_chain_id_to_name(&mut self, admin: Address, chain_id: u64, chain_name: String) -> (r:
        Result<(), Error>)
        requires
            old(self).wf(),
        ensures
            final(self).wf(),
            r is Err ==> *final(self) == *old(self),
            r is Ok <==> old(self).spec_is_owner(admin),
            r is Ok ==> {
                &&& final(self).spec_chain_name(chain_id) == Some(chain_name@)
                &&& forall|c: u64|
                    c != chain_id ==> final(self).spec_chain_name(c) == old(self).spec_chain_name(c)
                &&& *final(self) == (Self { chain_names: final(self).chain_names, ..*old(self) })
            },
    {
        let owner_check = self.require_owner(&admin);
        if let Err(e) = owner_check {
            return Err(e);
        }
        self.chain_names.set(chain_id, chain_name);
        Ok(())
    }

    /// Set the fallback relayer.
    pub fn set_rozo_relayer(&mut self, admin: Address, relayer: Address) -> (r: Result<(), Error>)
        requires
            old(self).wf(),
        ensures
            final(self).wf(),
            r is Err ==> *final(self) == *old(self),
            r is Ok <==> old(self).spec_is_owner(admin),
            r is Ok ==> *final(self) == (Self { rozo_relayer: Some(relayer), ..*old(self) }),
    {
        let owner_check = self.require_owner(&admin);
        if let Err(e) = owner_check {
            return Err(e);
        }
        self.rozo_relayer = Some(relayer);
        Ok(())
    }

    /// Set the fallback threshold in seconds; 0 disables the fallback
    /// rule entirely.
    pub fn set_rozo_threshold(&mut self, admin: Address, threshold: u64) -> (r: Result<(), Error>)
        requires
            old(self).wf(),
        ensures
            final(self).wf(),
            r is Err ==> *final(self) == *old(self),
            r is Ok <==> old(self).spec_is_owner(admin),
            r is Ok ==> *final(self) == (Self { rozo_threshold: threshold, ..*old(self) }),
    {
        let owner_check = self.require_owner(&admin);
        if let Err(e) = owner_check {
            return Err(e);
        }
        self.rozo_threshold = threshold;
        Ok(())
    }

    /// The intent record a successful creation stores.
    pub open spec fn spec_new_intent(sender: Address, params: CreateIntentParams, now: u64) -> Intent {
        Intent {
            intent_id: params.intent_id,
            sender,
            refund_address: params.refund_address,
            source_token: params.source_token,
            source_amount: params.source_amount,
            destination_chain_id: params.destination_chain_id,
            destination_token: params.destination_token,
            receiver: params.receiver,
            receiver_is_account: params.receiver_is_account,
            destination_amount: params.destination_amount,
            deadline: params.deadline,
            created_at: now,
            status: IntentStatus::Pending,
            relayer: params.relayer,
        }
    }

    /// Create an intent: validate the amounts, the deadline and the
    /// freshness of the id, store the record as `Pending`, and order the
    /// escrow of the source amount from the sender into custody. The
    /// escrow must happen atomically with the state write. Creating a
    /// second intent under an existing id fails with
    /// `IntentAlreadyExists` and leaves the store untouched.
    pub fn create_intent(&mut self, now: u64, sender: Address, params: CreateIntentParams) -> (r:
        Result<Transfer, Error>)
        requires
            old(self).wf(),
        ensures
            final(self).wf(),
            r is Err ==> *final(self) == *old(self),
            r == Err::<Transfer, Error>(Error::InvalidAmount) <==> (params.source_amount <= 0
                || params.destination_amount <= 0),
            r == Err::<Transfer, Error>(Error::InvalidDeadline) <==> (params.source_amount > 0
                && params.destination_amount > 0 && params.deadline <= now),
            r == Err::<Transfer, Error>(Error::IntentAlreadyExists) <==> (params.source_amount > 0
                && params.destination_amount > 0 && params.deadline > now && old(self).spec_intent(
                params.intent_id@,
            ) is Some),
            r is Ok <==> (params.source_amount > 0 && params.destination_amount > 0
                && params.deadline > now && old(self).spec_intent(params.intent_id@) is None),
            r matches Ok(t) ==> {
                &&& final(self).spec_intent(params.intent_id@) == Some(
                    Self::spec_new_intent(sender, params, now),
                )
                &&& forall|k: Seq<u8>|
                    k != params.intent_id@ ==> final(self).spec_intent(k) == old(self).spec_intent(
                        k,
                    )
                &&& *final(self) == (Self { intents: final(self).intents, ..*old(self) })
                &&& t == (Transfer {
                    token: params.source_token,
                    from: Party::Addr(sender),
                    to: Party::Custody,
                    amount: params.source_amount,
                })
            },
    {
        if params.source_amount <= 0 || params.destination_amount <= 0 {
            return Err(Error::InvalidAmount);
        }
        if params.deadline <= now {
            return Err(Error::InvalidDeadline);
        }
        if self.intents.has(&params.intent_id) {
            return Err(Error::IntentAlreadyExists);
        }
        let intent = Intent {
            intent_id: params.intent_id,
            sender,
            refund_address: params.refund_address,
            source_token: params.source_token,
            source_amount: params.source_amount,
            destination_chain_id: params.destination_chain_id,
            destination_token: params.destination_token,
            receiver: params.receiver,
            receiver_is_account: params.receiver_is_account,
            destination_amount: params.destination_amount,
            deadline: params.deadline,
            created_at: now,
            status: IntentStatus::Pending,
            relayer: params.relayer,
        };
        self.intents.set(params.intent_id, intent);
        proof {
            assert forall|k: Seq<u8>|
                ((#[trigger] self.intents.spec_get(k)) matches Some(i) ==> i.intent_id@ == k
                    && i.source_amount > 0 && i.destination_amount > 0) by {
                if k != params.intent_id@ {
                    assert(self.intents.spec_get(k) == old(self).intents.spec_get(k));
                }
            }
        }
        Ok(
            Transfer {
                token: params.source_token,
                from: Party::Addr(sender),
                to: Party::Custody,
                amount: params.source_amount,
            },
        )
    }

    /// Refund an expired intent: only while `Pending`, only once the
    /// deadline has passed, and only to the sender or the designated
    /// refund address. Moves the intent to `Refunded` and orders the
    /// full escrowed amount back to the refund address.
    pub fn refund(&mut self, now: u64, caller: Address, intent_id: &[u8; 32]) -> (r: Result<
        Transfer,
        Error,
    >)
        requires
            old(self).wf(),
        ensures
            final(self).wf(),
            r is Err ==> *final(self) == *old(self),
            r == Err::<Transfer, Error>(Error::IntentNotFound) <==> old(self).spec_intent(
                intent_id@,
            ) is None,
            old(self).spec_intent(intent_id@) matches Some(i) ==> {
                &&& (r == Err::<Transfer, Error>(Error::InvalidStatus) <==> i.status
                    != IntentStatus::Pending)
                &&& (r == Err::<Transfer, Error>(Error::IntentNotExpired) <==> i.status
                    == IntentStatus::Pending && now < i.deadline)
                &&& (r == Err::<Transfer, Error>(Error::NotAuthorized) <==> i.status
                    == IntentStatus::Pending && now >= i.deadline && caller != i.sender && caller
                    != i.refund_address)
                &&& (r is Ok <==> i.status == IntentStatus::Pending && now >= i.deadline && (caller
                    == i.sender || caller == i.refund_address))
                &&& (r matches Ok(t) ==> {
                    &&& t == (Transfer {
                        token: i.source_token,
                        from: Party::Custody,
                        to: Party::Addr(i.refund_address),
                        amount: i.source_amount,
                    })
                    &&& final(self).spec_intent(intent_id@) == Some(
                        Intent { status: IntentStatus::Refunded, ..i },
                    )
                    &&& forall|k: Seq<u8>|
                        k != intent_id@ ==> final(self).spec_intent(k) == old(self).spec_intent(k)
                    &&& *final(self) == (Self { intents: final(self).intents, ..*old(self) })
                })
            },
    {
        let opt = self.intents.get(intent_id);
        let i = match opt {
            None => {
                return Err(Error::IntentNotFound);
            },
            Some(i) => i,
        };
        if i.status != IntentStatus::Pending {
            return Err(Error::InvalidStatus);
        }
        if now < i.deadline {
            return Err(Error::IntentNotExpired);
        }
        if caller != i.sender && caller != i.refund_address {
            return Err(Error::NotAuthorized);
        }
        let updated = Intent { status: IntentStatus::Refunded, ..i };
        self.intents.set(*intent_id, updated);
        proof {
            Self::lemma_intent_update_wf(*old(self), *self, intent_id@, updated);
        }
        Ok(
            Transfer {
                token: i.source_token,
                from: Party::Custody,
                to: Party::Addr(i.refund_address),
                amount: i.source_amount,
            },
        )
    }

    /// An intents-store update that replaces the record under `id` with
    /// one keeping the id and positive amounts preserves well-formedness.
    proof fn lemma_intent_update_wf(pre: Self, post: Self, id: Seq<u8>, updated: Intent)
        requires
            pre.wf(),
            updated.intent_id@ == id,
            updated.source_amount > 0,
            updated.destination_amount > 0,
            post.fee_bps == pre.fee_bps,
            post.intents.spec_get(id) == Some(updated),
            forall|k: Seq<u8>| k != id ==> post.intents.spec_get(k) == pre.intents.spec_get(k),
        ensures
            post.wf(),
    {
        assert forall|k: Seq<u8>|
            ((#[trigger] post.intents.spec_get(k)) matches Some(i) ==> i.intent_id@ == k
                && i.source_amount > 0 && i.destination_amount > 0) by {
            if k != id {
                assert(post.intents.spec_get(k) == pre.intents.spec_get(k));
            }
        }
    }

    /// Administrative force-refund: the owner may refund any intent that
    /// is not already `Filled` or `Refunded`, regardless of deadline.
    /// This is the exceptional, audited escape hatch outside the normal
    /// state machine.
    pub fn admin_refund(&mut self, admin: Address, intent_id: &[u8; 32]) -> (r: Result<
        Transfer,
        Error,
    >)
        requires
            old(self).wf(),
        ensures
            final(self).wf(),
            r is Err ==> *final(self) == *old(self),
            !old(self).spec_is_owner(admin) ==> r is Err,
            old(self).spec_is_owner(admin) ==> {
                &&& (r == Err::<Transfer, Error>(Error::IntentNotFound) <==> old(self).spec_intent(
                    intent_id@,
                ) is None)
                &&& (old(self).spec_intent(intent_id@) matches Some(i) ==> {
                    &&& (r == Err::<Transfer, Error>(Error::InvalidStatus) <==> i.status
                        == IntentStatus::Filled || i.status == IntentStatus::Refunded)
                    &&& (r is Ok <==> i.status == IntentStatus::Pending || i.status
                        == IntentStatus::Failed)
                    &&& (r matches Ok(t) ==> {
                        &&& t == (Transfer {
                            token: i.source_token,
                            from: Party::Custody,
                            to: Party::Addr(i.refund_address),
                            amount: i.source_amount,
                        })
                        &&& final(self).spec_intent(intent_id@) == Some(
                            Intent { status: IntentStatus::Refunded, ..i },
                        )
                        &&& forall|k: Seq<u8>|
                            k != intent_id@ ==> final(self).spec_intent(k) == old(
                                self,
                            ).spec_intent(k)
                        &&& *final(self) == (Self { intents: final(self).intents, ..*old(self) })
                    })
                })
            },
    {
        let owner_check = self.require_owner(&admin);
        if let Err(e) = owner_check {
            return Err(e);
        }
        let opt = self.intents.get(intent_id);
        let i = match opt {
            None => {
                return Err(Error::IntentNotFound);
            },
            Some(i) => i,
        };
        if i.status == IntentStatus::Filled || i.status == IntentStatus::Refunded {
            return Err(Error::InvalidStatus);
        }
        let updated = Intent { status: IntentStatus::Refunded, ..i };
        self.intents.set(*intent_id, updated);
        proof {
            Self::lemma_intent_update_wf(*old(self), *self, intent_id@, updated);
        }
        Ok(
            Transfer {
                token: i.source_token,
                from: Party::Custody,
                to: Party::Addr(i.refund_address),
                amount: i.source_amount,
            },
        )
    }

    /// Administrative override of an intent's status, outside the normal
    /// state machine; requires an audit event on the host side.
    pub fn set_intent_status(&mut self, admin: Address, intent_id: &[u8; 32], status: IntentStatus)
        -> (r: Result<(), Error>)
        requires
            old(self).wf(),
        ensures
            final(self).wf(),
            r is Err ==> *final(self) == *old(self),
            !old(self).spec_is_owner(admin) ==> r is Err,
            old(self).spec_is_owner(admin) ==> {
                &&& (r == Err::<(), Error>(Error::IntentNotFound) <==> old(self).spec_intent(
                    intent_id@,
                ) is None)
                &&& (old(self).spec_intent(intent_id@) matches Some(i) ==> r is Ok
                    && final(self).spec_intent(intent_id@) == Some(Intent { status, ..i }) && (forall|k: Seq<u8>|
                    k != intent_id@ ==> final(self).spec_intent(k) == old(self).spec_intent(k))
                    && *final(self) == (Self { intents: final(self).intents, ..*old(self) }))
            },
    {
        let owner_check = self.require_owner(&admin);
        if let Err(e) = owner_check {
            return Err(e);
        }
        let opt = self.intents.get(intent_id);
        let i = match opt {
            None => {
                return Err(Error::IntentNotFound);
            },
            Some(i) => i,
        };
        let updated = Intent { status, ..i };
        self.intents.set(*intent_id, updated);
        proof {
            Self::lemma_intent_update_wf(*old(self), *self, intent_id@, updated);
        }
        Ok(())
    }

    /// Administrative override of an intent's assigned relayer, outside
    /// the normal state machine.
    pub fn set_intent_relayer(&mut self, admin: Address, intent_id: &[u8; 32], relayer: [u8; 32])
        -> (r: Result<(), Error>)
        requires
            old(self).wf(),
        ensures
            final(self).wf(),
            r is Err ==> *final(self) == *old(self),
            !old(self).spec_is_owner(admin) ==> r is Err,
            old(self).spec_is_owner(admin) ==> {
                &&& (r == Err::<(), Error>(Error::IntentNotFound) <==> old(self).spec_intent(
                    intent_id@,
                ) is None)
                &&& (old(self).spec_intent(intent_id@) matches Some(i) ==> r is Ok
                    && final(self).spec_intent(intent_id@) == Some(Intent { relayer, ..i }) && (forall|k: Seq<u8>|
                    k != intent_id@ ==> final(self).spec_intent(k) == old(self).spec_intent(k))
                    && *final(self) == (Self { intents: final(self).intents, ..*old(self) }))
            },
    {
        let owner_check = self.require_owner(&admin);
        if let Err(e) = owner_check {
            return Err(e);
        }
        let opt = self.intents.get(intent_id);
        let i = match opt {
            None => {
                return Err(Error::IntentNotFound);
            },
            Some(i) => i,
        };
        let updated = Intent { relayer, ..i };
        self.intents.set(*intent_id, updated);
        proof {
            Self::lemma_intent_update_wf(*old(self), *self, intent_id@, updated);
        }
        Ok(())
    }

    /// Withdraw the whole accumulated fee total of one token to the fee
    /// recipient, resetting the total to zero.
    pub fn withdraw_fees(&mut self, admin: Address, token: Address) -> (r: Result<Transfer, Error>)
        requires
            old(self).wf(),
        ensures
            final(self).wf(),
            r is Err ==> *final(self) == *old(self),
            !old(self).spec_is_owner(admin) ==> r is Err,
            old(self).spec_is_owner(admin) && old(self).fee_recipient is None ==> r == Err::<
                Transfer,
                Error,
            >(Error::NotInitialized),
            old(self).spec_is_owner(admin) && old(self).fee_recipient is Some ==> {
                &&& (r == Err::<Transfer, Error>(Error::InvalidAmount) <==> old(
                    self,
                ).spec_accum_fees(token) <= 0)
                &&& (r is Ok <==> old(self).spec_accum_fees(token) > 0)
                &&& (r matches Ok(t) ==> {
                    &&& t == (Transfer {
                        token,
                        from: Party::Custody,
                        to: Party::Addr(old(self).fee_recipient->0),
                        amount: old(self).spec_accum_fees(token),
                    })
                    &&& final(self).spec_accum_fees(token) == 0
                    &&& forall|a: Address|
                        addr_key(a) != addr_key(token) ==> final(self).spec_accum_fees(a) == old(
                            self,
                        ).spec_accum_fees(a)
                    &&& *final(self) == (Self { fees: final(self).fees, ..*old(self) })
                })
            },
    {
        let owner_check = self.require_owner(&admin);
        if let Err(e) = owner_check {
            return Err(e);
        }
        let recipient = match &self.fee_recipient {
            None => {
                return Err(Error::NotInitialized);
            },
            Some(a) => *a,
        };
        let k = addr_key33(&token);
        let amount = match self.fees.get(&k) {
            Some(v) => v,
            None => 0,
        };
        if amount <= 0 {
            return Err(Error::InvalidAmount);
        }
        self.fees.set(k, 0);
        Ok(Transfer { token, from: Party::Custody, to: Party::Addr(recipient), amount })
    }

    /// The canonical fill-hash of a snapshot.
    pub open spec fn spec_fill_hash_of(d: IntentData) -> Seq<u8> {
        sha256_of(spec_preimage(d))
    }

    /// The hash-stable snapshot reconstructed from a stored intent, with
    /// this chain's own id as the source chain id.
    pub open spec fn spec_data_of(i: Intent, chain_id: u64) -> IntentData {
        IntentData {
            intent_id: i.intent_id,
            sender: i.sender.key,
            refund_address: i.refund_address.key,
            source_token: i.source_token.key,
            source_amount: i.source_amount,
            source_chain_id: chain_id,
            destination_chain_id: i.destination_chain_id,
            destination_token: i.destination_token,
            receiver: i.receiver,
            destination_amount: i.destination_amount,
            deadline: i.deadline,
            created_at: i.created_at,
            relayer: i.relayer,
            receiver_is_account: i.receiver_is_account,
        }
    }

    /// The time-gated fallback rule: the caller is the configured
    /// fallback relayer, the threshold is enabled, and at least that many
    /// seconds have elapsed since the intent was created. A threshold of
    /// 0 disables the rule entirely.
    pub open spec fn spec_is_fallback(self, caller: Address, created_at: u64, now: u64) -> bool {
        &&& self.rozo_relayer == Some(caller)
        &&& self.rozo_threshold != 0
        &&& created_at + self.rozo_threshold <= now
    }

    /// Whether `caller` may fill the intent snapshot `d` at time `now`:
    /// an unassigned (all-zero) relayer field admits anyone, an assigned
    /// one admits exactly the assignee and, past the threshold, the
    /// fallback relayer.
    pub open spec fn spec_fill_authorized(self, caller: Address, d: IntentData, now: u64) -> bool {
        ||| d.relayer@ == zero_key()
        ||| d.relayer@ == caller.key@
        ||| self.spec_is_fallback(caller, d.created_at, now)
    }

    fn is_rozo_fallback(&self, caller: &Address, created_at: u64, now: u64) -> (r: bool)
        ensures
            r == self.spec_is_fallback(*caller, created_at, now),
    {
        let rr = match &self.rozo_relayer {
            None => {
                return false;
            },
            Some(rr) => *rr,
        };
        if *caller != rr {
            return false;
        }
        if self.rozo_threshold == 0 {
            return false;
        }
        match created_at.checked_add(self.rozo_threshold) {
            Some(t) => now >= t,
            None => false,
        }
    }

    /// The first check a fill attempt fails, if any: caller not a
    /// relayer, wrong destination chain, deadline passed, caller not
    /// authorized for an assigned intent, fill-hash already recorded,
    /// unknown messenger, unknown source chain, or no trusted remote
    /// contract for it.
    pub open spec fn spec_fill_error(
        self,
        now: u64,
        relayer: Address,
        d: IntentData,
        messenger_id: u8,
    ) -> Option<Error> {
        if self.spec_relayer_type(relayer) == RelayerType::Unregistered {
            Some(Error::NotRelayer)
        } else if d.destination_chain_id != self.chain_id {
            Some(Error::WrongChain)
        } else if now >= d.deadline {
            Some(Error::IntentExpired)
        } else if !self.spec_fill_authorized(relayer, d, now) {
            Some(Error::NotAssignedRelayer)
        } else if self.spec_fill(Self::spec_fill_hash_of(d)) is Some {
            Some(Error::AlreadyFilled)
        } else if self.spec_adapter(messenger_id) is None {
            Some(Error::InvalidMessenger)
        } else {
            match self.spec_chain_name(d.source_chain_id) {
                None => Some(Error::ChainNotFound),
                Some(n) => if self.spec_trusted(n) is None {
                    Some(Error::UntrustedSource)
                } else {
                    None
                },
            }
        }
    }

    /// Fill an intent on the destination chain: authorize the relayer,
    /// guard against a double fill by the fill-hash, record the fill,
    /// and order both the payment to the receiver and the cross-chain
    /// notification through the chosen adapter. The payment and the
    /// record must commit atomically; a second attempt with the same
    /// fill-hash fails with `AlreadyFilled` and changes nothing.
    pub fn fill_and_notify(
        &mut self,
        now: u64,
        relayer: Address,
        intent_data: IntentData,
        repayment_address: [u8; 32],
        messenger_id: u8,
    ) -> (r: Result<FillOutcome, Error>)
        requires
            old(self).wf(),
        ensures
            final(self).wf(),
            r is Err ==> *final(self) == *old(self),
            r matches Err(e) ==> Some(e) == old(self).spec_fill_error(
                now,
                relayer,
                intent_data,
                messenger_id,
            ),
            r is Ok <==> old(self).spec_fill_error(now, relayer, intent_data, messenger_id)
                is None,
            r matches Ok(out) ==> {
                &&& out.fill_hash@ == Self::spec_fill_hash_of(intent_data)
                &&& final(self).spec_fill(Self::spec_fill_hash_of(intent_data)) == Some(
                    (FillRecord { relayer, repayment_address }),
                )
                &&& forall|k: Seq<u8>|
                    k != Self::spec_fill_hash_of(intent_data) ==> final(self).spec_fill(k) == old(
                        self,
                    ).spec_fill(k)
                &&& final(self).outbound@.len() == old(self).outbound@.len() + 1
                &&& final(self).outbound@.subrange(0, old(self).outbound@.len() as int) == old(
                    self,
                ).outbound@
                &&& final(self).outbound@.last().payload@ == out.message.payload@
                &&& final(self).outbound@.last().destination_chain@
                    == out.message.destination_chain@
                &&& final(self).outbound@.last().destination_address@
                    == out.message.destination_address@
                &&& *final(self) == (Self {
                    fills: final(self).fills,
                    outbound: final(self).outbound,
                    ..*old(self)
                })
                &&& out.transfer == (Transfer {
                    token: (Address { key: intent_data.destination_token, is_account: false }),
                    from: Party::Addr(relayer),
                    to: Party::Addr(
                        (Address {
                            key: intent_data.receiver,
                            is_account: intent_data.receiver_is_account,
                        }),
                    ),
                    amount: intent_data.destination_amount,
                })
                &&& Some(out.adapter) == old(self).spec_adapter(messenger_id)
                &&& out.notify_chain_id == intent_data.source_chain_id
                &&& out.message.payload@ == spec_notify_payload(
                    intent_data.intent_id@,
                    Self::spec_fill_hash_of(intent_data),
                    repayment_address@,
                    relayer.key@,
                    intent_data.destination_amount,
                )
                &&& Some(out.message.destination_chain@) == old(self).spec_chain_name(
                    intent_data.source_chain_id,
                )
                &&& Some(out.message.destination_address@) == old(self).spec_trusted(
                    out.message.destination_chain@,
                )
            },
    {
        let rt = self.get_relayer_type(&relayer);
        if rt == RelayerType::Unregistered {
            return Err(Error::NotRelayer);
        }
        if intent_data.destination_chain_id != self.chain_id {
            return Err(Error::WrongChain);
        }
        if now >= intent_data.deadline {
            return Err(Error::IntentExpired);
        }
        let open_intent = is_zero_key(&intent_data.relayer);
        if !open_intent {
            let is_assigned = crate::types::b32_eq(&intent_data.relayer, &relayer.key);
            let fallback = self.is_rozo_fallback(&relayer, intent_data.created_at, now);
            if !is_assigned && !fallback {
                return Err(Error::NotAssignedRelayer);
            }
        }
        let fill_hash = compute_fill_hash(&intent_data);
        if self.fills.has(&fill_hash) {
            return Err(Error::AlreadyFilled);
        }
        let adapter = match self.get_msger_adapter(messenger_id) {
            None => {
                return Err(Error::InvalidMessenger);
            },
            Some(a) => a,
        };
        let source_chain = match self.chain_names.get(intent_data.source_chain_id) {
            None => {
                return Err(Error::ChainNotFound);
            },
            Some(n) => n,
        };
        let destination_address = match self.trusted.get(&source_chain) {
            None => {
                return Err(Error::UntrustedSource);
            },
            Some(t) => t,
        };
        let payload = encode_notify_payload(
            &intent_data.intent_id,
            &fill_hash,
            &repayment_address,
            &relayer.key,
            intent_data.destination_amount,
        );
        let payload_returned = encode_notify_payload(
            &intent_data.intent_id,
            &fill_hash,
            &repayment_address,
            &relayer.key,
            intent_data.destination_amount,
        );
        self.fills.set(fill_hash, FillRecord { relayer, repayment_address });
        self.outbound.push(
            OutboundMessage {
                destination_chain: source_chain.clone(),
                destination_address: destination_address.clone(),
                payload,
            },
        );
        Ok(
            FillOutcome {
                fill_hash,
                transfer: Transfer {
                    token: Address { key: intent_data.destination_token, is_account: false },
                    from: Party::Addr(relayer),
                    to: Party::Addr(
                        Address {
                            key: intent_data.receiver,
                            is_account: intent_data.receiver_is_account,
                        },
                    ),
                    amount: intent_data.destination_amount,
                },
                adapter,
                notify_chain_id: intent_data.source_chain_id,
                message: OutboundMessage {
                    destination_chain: source_chain,
                    destination_address,
                    payload: payload_returned,
                },
            },
        )
    }

    /// The first check a retry fails, if any: no fill record under the
    /// recomputed hash, a caller other than the original filler, an
    /// unknown messenger, an unknown source chain, or no trusted remote
    /// contract for it.
    pub open spec fn spec_retry_error(
        self,
        relayer: Address,
        d: IntentData,
        messenger_id: u8,
    ) -> Option<Error> {
        match self.spec_fill(Self::spec_fill_hash_of(d)) {
            None => Some(Error::IntentNotFound),
            Some(rec) => if rec.relayer != relayer {
                Some(Error::NotAssignedRelayer)
            } else if self.spec_adapter(messenger_id) is None {
                Some(Error::InvalidMessenger)
            } else {
                match self.spec_chain_name(d.source_chain_id) {
                    None => Some(Error::ChainNotFound),
                    Some(n) => if self.spec_trusted(n) is None {
                        Some(Error::UntrustedSource)
                    } else {
                        None
                    },
                }
            },
        }
    }

    /// Re-dispatch the notification for a fill already performed, through
    /// a possibly different adapter. Only the original filler may retry;
    /// the payload is recomputed from the stored record and the same
    /// snapshot, so the monetary terms cannot change between retries. No
    /// transfer is performed again.
    pub fn retry_notify(&mut self, relayer: Address, intent_data: IntentData, messenger_id: u8)
        -> (r: Result<RetryOutcome, Error>)
        requires
            old(self).wf(),
        ensures
            final(self).wf(),
            r is Err ==> *final(self) == *old(self),
            r matches Err(e) ==> Some(e) == old(self).spec_retry_error(
                relayer,
                intent_data,
                messenger_id,
            ),
            r is Ok <==> old(self).spec_retry_error(relayer, intent_data, messenger_id) is None,
            r matches Ok(out) ==> {
                &&& out.fill_hash@ == Self::spec_fill_hash_of(intent_data)
                &&& final(self).outbound@.len() == old(self).outbound@.len() + 1
                &&& final(self).outbound@.subrange(0, old(self).outbound@.len() as int) == old(
                    self,
                ).outbound@
                &&& final(self).outbound@.last().payload@ == out.message.payload@
                &&& *final(self) == (Self { outbound: final(self).outbound, ..*old(self) })
                &&& Some(out.adapter) == old(self).spec_adapter(messenger_id)
                &&& out.notify_chain_id == intent_data.source_chain_id
                &&& (old(self).spec_fill(Self::spec_fill_hash_of(intent_data)) matches Some(rec)
                    ==> out.message.payload@ == spec_notify_payload(
                    intent_data.intent_id@,
                    Self::spec_fill_hash_of(intent_data),
                    rec.repayment_address@,
                    relayer.key@,
                    intent_data.destination_amount,
                ))
                &&& Some(out.message.destination_chain@) == old(self).spec_chain_name(
                    intent_data.source_chain_id,
                )
                &&& Some(out.message.destination_address@) == old(self).spec_trusted(
                    out.message.destination_chain@,
                )
            },
    {
        let fill_hash = compute_fill_hash(&intent_data);
        let record = match self.fills.get(&fill_hash) {
            None => {
                return Err(Error::IntentNotFound);
            },
            Some(rec) => rec,
        };
        if record.relayer != relayer {
            return Err(Error::NotAssignedRelayer);
        }
        let adapter = match self.get_msger_adapter(messenger_id) {
            None => {
                return Err(Error::InvalidMessenger);
            },
            Some(a) => a,
        };
        let source_chain = match self.chain_names.get(intent_data.source_chain_id) {
            None => {
                return Err(Error::ChainNotFound);
            },
            Some(n) => n,
        };
        let destination_address = match self.trusted.get(&source_chain) {
            None => {
                return Err(Error::UntrustedSource);
            },
            Some(t) => t,
        };
        let payload = encode_notify_payload(
            &intent_data.intent_id,
            &fill_hash,
            &record.repayment_address,
            &relayer.key,
            intent_data.destination_amount,
        );
        let payload_returned = encode_notify_payload(
            &intent_data.intent_id,
            &fill_hash,
            &record.repayment_address,
            &relayer.key,
            intent_data.destination_amount,
        );
        self.outbound.push(
            OutboundMessage {
                destination_chain: source_chain.clone(),
                destination_address: destination_address.clone(),
                payload,
            },
        );
        Ok(
            RetryOutcome {
                fill_hash,
                adapter,
                notify_chain_id: intent_data.source_chain_id,
                message: OutboundMessage {
                    destination_chain: source_chain,
                    destination_address,
                    payload: payload_returned,
                },
            },
        )
    }

    /// Everything the fill-verification engine guarantees of one call:
    /// how the result and the state after relate to the state before and
    /// the claimed values. Verification failures (wrong hash or
    /// underpayment) are recorded outcomes moving the intent to
    /// `Failed`, not aborts; every error leaves the state unchanged.
    pub open spec fn spec_complete_post(
        pre: Self,
        post: Self,
        intent_id: Seq<u8>,
        fill_hash: Seq<u8>,
        repayment_address: Seq<u8>,
        amount_paid: i128,
        r: Result<NotifyOutcome, Error>,
    ) -> bool {
        match pre.spec_intent(intent_id) {
            None => r == Err::<NotifyOutcome, Error>(Error::IntentNotFound) && post == pre,
            Some(i) => if i.status != IntentStatus::Pending {
                r == Err::<NotifyOutcome, Error>(Error::InvalidStatus) && post == pre
            } else if fill_hash != Self::spec_fill_hash_of(Self::spec_data_of(i, pre.chain_id))
                || amount_paid < i.destination_amount {
                &&& r matches Ok(NotifyOutcome::Rejected { expected_hash, received_hash })
                    && expected_hash@ == Self::spec_fill_hash_of(Self::spec_data_of(i, pre.chain_id))
                    && received_hash@ == fill_hash
                &&& post.spec_intent(intent_id) == Some(Intent { status: IntentStatus::Failed, ..i })
                &&& forall|k: Seq<u8>|
                    k != intent_id ==> post.spec_intent(k) == pre.spec_intent(k)
                &&& post == (Self { intents: post.intents, ..pre })
            } else if pre.spec_accum_fees(i.source_token) + spec_fee(
                i.source_amount as int,
                pre.fee_bps as int,
            ) > i128::MAX {
                r == Err::<NotifyOutcome, Error>(Error::InvalidAmount) && post == pre
            } else {
                &&& r matches Ok(NotifyOutcome::Settled { payout, fee }) && {
                    &&& payout.token == i.source_token
                    &&& payout.from == Party::Custody
                    &&& payout.to matches Party::Addr(a) && a.key@ == repayment_address
                        && a.is_account == false
                    &&& payout.amount == spec_payout(i.source_amount as int, pre.fee_bps as int)
                    &&& fee == spec_fee(i.source_amount as int, pre.fee_bps as int)
                }
                &&& post.spec_intent(intent_id) == Some(Intent { status: IntentStatus::Filled, ..i })
                &&& forall|k: Seq<u8>|
                    k != intent_id ==> post.spec_intent(k) == pre.spec_intent(k)
                &&& post.spec_accum_fees(i.source_token) == pre.spec_accum_fees(i.source_token)
                    + spec_fee(i.source_amount as int, pre.fee_bps as int)
                &&& forall|t: Address|
                    addr_key(t) != addr_key(i.source_token) ==> post.spec_accum_fees(t)
                        == pre.spec_accum_fees(t)
                &&& post == (Self { intents: post.intents, fees: post.fees, ..pre })
            },
        }
    }

    /// The only path from `Pending` to `Filled` or `Failed`: recompute
    /// the canonical fill-hash from the stored intent, compare it with
    /// the claimed one and the paid amount with the owed one, and either
    /// settle (pay the relayer the escrow less the fee, accumulate the
    /// fee) or record the failure with both hashes kept for audit.
    pub fn complete_fill(
        &mut self,
        intent_id: &[u8; 32],
        fill_hash: &[u8; 32],
        repayment_address: &[u8; 32],
        relayer: [u8; 32],
        amount_paid: i128,
    ) -> (r: Result<NotifyOutcome, Error>)
        requires
            old(self).wf(),
        ensures
            final(self).wf(),
            Self::spec_complete_post(
                *old(self),
                *final(self),
                intent_id@,
                fill_hash@,
                repayment_address@,
                amount_paid,
                r,
            ),
    {
        let i = match self.intents.get(intent_id) {
            None => {
                return Err(Error::IntentNotFound);
            },
            Some(i) => i,
        };
        if i.status != IntentStatus::Pending {
            return Err(Error::InvalidStatus);
        }
        let expected_data = IntentData {
            intent_id: i.intent_id,
            sender: i.sender.key,
            refund_address: i.refund_address.key,
            source_token: i.source_token.key,
            source_amount: i.source_amount,
            source_chain_id: self.chain_id,
            destination_chain_id: i.destination_chain_id,
            destination_token: i.destination_token,
            receiver: i.receiver,
            destination_amount: i.destination_amount,
            deadline: i.deadline,
            created_at: i.created_at,
            relayer: i.relayer,
            receiver_is_account: i.receiver_is_account,
        };
        let expected_hash = compute_fill_hash(&expected_data);
        proof {
            assert(expected_data == Self::spec_data_of(i, self.chain_id));
        }
        let hash_ok = crate::types::b32_eq(fill_hash, &expected_hash);
        if !hash_ok || amount_paid < i.destination_amount {
            let updated = Intent { status: IntentStatus::Failed, ..i };
            self.intents.set(*intent_id, updated);
            proof {
                Self::lemma_intent_update_wf(*old(self), *self, intent_id@, updated);
            }
            return Ok(NotifyOutcome::Rejected { expected_hash, received_hash: *fill_hash });
        }
        let (fee, payout) = compute_fee(i.source_amount, self.fee_bps);
        let k = addr_key33(&i.source_token);
        let current = match self.fees.get(&k) {
            Some(v) => v,
            None => 0,
        };
        if current > i128::MAX - fee {
            return Err(Error::InvalidAmount);
        }
        let updated = Intent { status: IntentStatus::Filled, ..i };
        self.intents.set(*intent_id, updated);
        proof {
            Self::lemma_intent_update_wf(*old(self), *self, intent_id@, updated);
        }
        self.fees.set(k, current + fee);
        Ok(
            NotifyOutcome::Settled {
                payout: Transfer {
                    token: i.source_token,
                    from: Party::Custody,
                    to: Party::Addr(Address { key: *repayment_address, is_account: false }),
                    amount: payout,
                },
                fee,
            },
        )
    }

    /// Entry point for the registered messenger adapter: only the
    /// adapter registered under `messenger_id` may call, the payload must
    /// be exactly 160 bytes, and the decoded claim is handed to the
    /// fill-verification engine.
    pub fn notify(
        &mut self,
        caller: Address,
        messenger_id: u8,
        source_chain_id: u64,
        message_data: &Vec<u8>,
    ) -> (r: Result<NotifyOutcome, Error>)
        requires
            old(self).wf(),
        ensures
            final(self).wf(),
            r is Err ==> *final(self) == *old(self),
            r == Err::<NotifyOutcome, Error>(Error::InvalidMessenger) <==> old(self).spec_adapter(
                messenger_id,
            ) is None,
            old(self).spec_adapter(messenger_id) matches Some(a) ==> {
                &&& (r == Err::<NotifyOutcome, Error>(Error::NotMessenger) <==> caller != a)
                &&& (caller == a ==> (r == Err::<NotifyOutcome, Error>(Error::InvalidPayload) <==>
                    message_data@.len() != 160))
                &&& (caller == a && message_data@.len() == 160 ==> Self::spec_complete_post(
                    *old(self),
                    *final(self),
                    message_data@.subrange(0, 32),
                    message_data@.subrange(32, 64),
                    message_data@.subrange(64, 96),
                    crate::wire::spec_i128_from_be(message_data@.subrange(144, 160)),
                    r,
                ))
            },
    {
        let adapter = match self.get_msger_adapter(messenger_id) {
            None => {
                return Err(Error::InvalidMessenger);
            },
            Some(a) => a,
        };
        if caller != adapter {
            return Err(Error::NotMessenger);
        }
        let message = match decode_notify_payload(message_data) {
            Err(e) => {
                return Err(e);
            },
            Ok(m) => m,
        };
        self.complete_fill(
            &message.intent_id,
            &message.fill_hash,
            &message.repayment_address,
            message.relayer,
            message.amount,
        )
    }

    /// The double-fill guard: once a fill record exists under the
    /// recomputed hash of a snapshot, no further fill attempt on that
    /// snapshot can pass the checks, whoever makes it and whenever.
    pub proof fn lemma_second_fill_rejected(
        s: Self,
        now: u64,
        relayer: Address,
        d: IntentData,
        messenger_id: u8,
    )
        requires
            s.spec_fill(Self::spec_fill_hash_of(d)) is Some,
        ensures
            s.spec_fill_error(now, relayer, d, messenger_id) is Some,
    {
    }

    /// The liveness window of the fallback rule: for an intent assigned
    /// to someone else, the configured fallback relayer with an enabled
    /// threshold is authorized to fill exactly from `created_at`
    /// plus the threshold onward.
    pub proof fn lemma_fallback_window(s: Self, fallback: Address, d: IntentData, now: u64)
        requires
            s.rozo_relayer == Some(fallback),
            s.rozo_threshold > 0,
            d.relayer@ != zero_key(),
            d.relayer@ != fallback.key@,
        ensures
            s.spec_fill_authorized(fallback, d, now) <==> d.created_at + s.rozo_threshold <= now,
    {
    }

    /// The stored intent under `intent_id`.
    pub fn get_intent(&self, intent_id: &[u8; 32]) -> (r: Result<Intent, Error>)
        ensures
            match r {
                Ok(i) => self.spec_intent(intent_id@) == Some(i),
                Err(e) => self.spec_intent(intent_id@) is None && e == Error::IntentNotFound,
            },
    {
        match self.intents.get(intent_id) {
            Some(i) => Ok(i),
            None => Err(Error::IntentNotFound),
        }
    }

    /// Whether an intent is stored under `intent_id`.
    pub fn has_intent(&self, intent_id: &[u8; 32]) -> (r: bool)
        ensures
            r == (self.spec_intent(intent_id@) is Some),
    {
        self.intents.has(intent_id)
    }

    /// Whether a fill is recorded under `fill_hash`.
    pub fn has_fill_record(&self, fill_hash: &[u8; 32]) -> (r: bool)
        ensures
            r == (self.spec_fill(fill_hash@) is Some),
    {
        self.fills.has(fill_hash)
    }

    /// The registered class of an address.
    pub fn get_relayer_type(&self, address: &Address) -> (r: RelayerType)
        ensures
            r == self.spec_relayer_type(*address),
    {
        let k = addr_key33(address);
        match self.relayers.get(&k) {
            Some(t) => t,
            None => RelayerType::Unregistered,
        }
    }

    /// Whether an address is a registered relayer of any class.
    pub fn is_relayer(&self, address: &Address) -> (r: bool)
        ensures
            r == (self.spec_relayer_type(*address) != RelayerType::Unregistered),
    {
        self.get_relayer_type(address) != RelayerType::Unregistered
    }

    /// The protocol fee in basis points.
    pub fn get_protocol_fee(&self) -> (r: u32)
        ensures
            r == self.fee_bps,
    {
        self.fee_bps
    }

    /// This chain's own id.
    pub fn get_chain_id(&self) -> (r: u64)
        ensures
            r == self.chain_id,
    {
        self.chain_id
    }

    /// The configured fee recipient.
    pub fn get_fee_rcpt(&self) -> (r: Result<Address, Error>)
        ensures
            match r {
                Ok(a) => self.fee_recipient == Some(a),
                Err(e) => self.fee_recipient is None && e == Error::NotInitialized,
            },
    {
        match &self.fee_recipient {
            Some(a) => Ok(*a),
            None => Err(Error::NotInitialized),
        }
    }

    /// Fees accumulated for a token.
    pub fn get_accum_fees(&self, token: &Address) -> (r: i128)
        ensures
            r == self.spec_accum_fees(*token),
    {
        let k = addr_key33(token);
        match self.fees.get(&k) {
            Some(v) => v,
            None => 0,
        }
    }

    /// The configured fallback relayer.
    pub fn get_rozo_relayer(&self) -> (r: Option<Address>)
        ensures
            r == self.rozo_relayer,
    {
        self.rozo_relayer
    }

    /// The configured fallback threshold in seconds.
    pub fn get_rozo_threshold(&self) -> (r: u64)
        ensures
            r == self.rozo_threshold,
    {
        self.rozo_threshold
    }

    /// The registered adapter under a messenger id.
    pub fn get_msger_adapter(&self, messenger_id: u8) -> (r: Option<Address>)
        ensures
            r == self.spec_adapter(messenger_id),
    {
        let k = [messenger_id];
        proof {
            broadcast use vstd::array::group_array_axioms;

            assert(k@ =~= seq![messenger_id]);
        }
        self.adapters.get(&k)
    }

    /// The fill record under a fill-hash.
    pub fn get_fill_record(&self, fill_hash: &[u8; 32]) -> (r: Option<FillRecord>)
        ensures
            r == self.spec_fill(fill_hash@),
    {
        self.fills.get(fill_hash)
    }

    /// The log of outbound messages handed to the host so far.
    pub fn get_outbound_messages(&self) -> (r: &Vec<OutboundMessage>)
        ensures
            r == self.outbound,
    {
        &self.outbound
    }
}

} // verus!
