//! A minimal single-destination payment forwarder: the early protocol
//! variant kept alongside the settlement engine. It forwards one
//! stablecoin to a fixed destination configured once at initialization.

use vstd::prelude::*;

use crate::types::{Address, Party, Transfer};

verus! {

/// Error codes of the payment forwarder.
#[derive(Clone, Copy, Debug, PartialEq, Eq, Structural)]
pub enum Error {
    AlreadyInitialized,
    NotInitialized,
    ZeroAmount,
    InsufficientBalance,
}

/// A payment accepted for forwarding, for the host to publish.
#[derive(Clone, Debug, PartialEq, Eq)]
pub struct PaymentEvent {
    pub from: Address,
    pub destination: Address,
    pub amount: i128,
    pub memo: String,
}

/// A recovery sweep of stray tokens, for the host to publish.
#[derive(Clone, Copy, Debug, PartialEq, Eq)]
pub struct FlushEvent {
    pub token: Address,
    pub destination: Address,
    pub amount: i128,
}

/// The canonical key of the one supported stablecoin contract.
pub open spec fn spec_usdc_key() -> Seq<u8> {
    seq![
        173u8, 239u8, 206u8, 89u8, 174u8, 229u8, 41u8, 104u8, 247u8, 96u8, 97u8, 212u8, 148u8,
        194u8, 82u8, 91u8, 117u8, 101u8, 159u8, 164u8, 41u8, 106u8, 101u8, 244u8, 153u8, 239u8,
        41u8, 229u8, 100u8, 119u8, 228u8, 150u8,
    ]
}

fn usdc_address() -> (a: Address)
    ensures
        a.key@ == spec_usdc_key(),
        !a.is_account,
{
    broadcast use vstd::array::group_array_axioms;

    let key: [u8; 32] = [
        173u8, 239u8, 206u8, 89u8, 174u8, 229u8, 41u8, 104u8, 247u8, 96u8, 97u8, 212u8, 148u8,
        194u8, 82u8, 91u8, 117u8, 101u8, 159u8, 164u8, 41u8, 106u8, 101u8, 244u8, 153u8, 239u8,
        41u8, 229u8, 100u8, 119u8, 228u8, 150u8,
    ];
    proof {
        assert(key@ =~= spec_usdc_key());
    }
    Address { key, is_account: false }
}

/// The payment forwarder's whole state.
pub struct Payment {
    pub initialized: bool,
    pub destination: Option<Address>,
    pub usdc: Option<Address>,
}

impl Payment {
    /// Once initialized, both the destination and the token are set.
    pub open spec fn wf(self) -> bool {
        self.initialized ==> self.destination is Some && self.usdc is Some
    }

    /// A fresh, unconfigured forwarder.
    pub fn new() -> (r: Self)
        ensures
            r.wf(),
            !r.initialized,
            r.destination is None,
            r.usdc is None,
    {
        Payment { initialized: false, destination: None, usdc: None }
    }

    /// Configure the destination, once. The supported token is fixed.
    pub fn init(&mut self, destination: Address) -> (r: Result<(), Error>)
        requires
            old(self).wf(),
        ensures
            final(self).wf(),
            r is Err <==> old(self).initialized,
            r is Err ==> r == Err::<(), Error>(Error::AlreadyInitialized) && *final(self) == *old(
                self,
            ),
            r is Ok ==> {
                &&& final(self).initialized
                &&& final(self).destination == Some(destination)
                &&& final(self).usdc matches Some(u) && u.key@ == spec_usdc_key() && !u.is_account
            },
    {
        if self.initialized {
            return Err(Error::AlreadyInitialized);
        }
        self.destination = Some(destination);
        self.usdc = Some(usdc_address());
        self.initialized = true;
        Ok(())
    }

    /// Accept a positive payment from `from` and order its forwarding to
    /// the configured destination in the supported token.
    pub fn pay(&self, from: Address, amount: i128, memo: String) -> (r: Result<
        (Transfer, PaymentEvent),
        Error,
    >)
        requires
            self.wf(),
        ensures
            r == Err::<(Transfer, PaymentEvent), Error>(Error::NotInitialized) <==> !self.initialized,
            self.initialized ==> (r == Err::<(Transfer, PaymentEvent), Error>(Error::ZeroAmount)
                <==> amount <= 0),
            r is Ok <==> self.initialized && amount > 0,
            r matches Ok(o) ==> {
                &&& self.usdc matches Some(u) && o.0 == (Transfer {
                    token: u,
                    from: Party::Addr(from),
                    to: Party::Addr(self.destination->0),
                    amount,
                })
                &&& o.1 == (PaymentEvent {
                    from,
                    destination: self.destination->0,
                    amount,
                    memo,
                })
            },
    {
        if !self.initialized {
            return Err(Error::NotInitialized);
        }
        if amount <= 0 {
            return Err(Error::ZeroAmount);
        }
        let destination = match &self.destination {
            Some(d) => *d,
            None => {
                return Err(Error::NotInitialized);
            },
        };
        let usdc = match &self.usdc {
            Some(u) => *u,
            None => {
                return Err(Error::NotInitialized);
            },
        };
        let transfer = Transfer {
            token: usdc,
            from: Party::Addr(from),
            to: Party::Addr(destination),
            amount,
        };
        let event = PaymentEvent { from, destination, amount, memo };
        Ok((transfer, event))
    }

    /// Sweep a positive amount of any token from custody to the
    /// configured destination, recovering tokens sent here by mistake.
    pub fn flush(&self, token_contract: Address, amount: i128) -> (r: Result<
        (Transfer, FlushEvent),
        Error,
    >)
        requires
            self.wf(),
        ensures
            r == Err::<(Transfer, FlushEvent), Error>(Error::NotInitialized) <==> !self.initialized,
            self.initialized ==> (r == Err::<(Transfer, FlushEvent), Error>(Error::ZeroAmount) <==>
                amount <= 0),
            r is Ok <==> self.initialized && amount > 0,
            r matches Ok(o) ==> {
                &&& o.0 == (Transfer {
                    token: token_contract,
                    from: Party::Custody,
                    to: Party::Addr(self.destination->0),
                    amount,
                })
                &&& o.1 == (FlushEvent {
                    token: token_contract,
                    destination: self.destination->0,
                    amount,
                })
            },
    {
        if !self.initialized {
            return Err(Error::NotInitialized);
        }
        if amount <= 0 {
            return Err(Error::ZeroAmount);
        }
        let destination = match &self.destination {
            Some(d) => *d,
            None => {
                return Err(Error::NotInitialized);
            },
        };
        let transfer = Transfer {
            token: token_contract,
            from: Party::Custody,
            to: Party::Addr(destination),
            amount,
        };
        let event = FlushEvent { token: token_contract, destination, amount };
        Ok((transfer, event))
    }

    /// The configured destination.
    pub fn get_destination(&self) -> (r: Address)
        requires
            self.wf(),
            self.initialized,
        ensures
            Some(r) == self.destination,
    {
        match &self.destination {
            Some(d) => *d,
            None => {
                proof {
                    assert(false);
                }
                Address { key: [0u8; 32], is_account: false }
            },
        }
    }

    /// The supported token.
    pub fn get_usdc(&self) -> (r: Address)
        requires
            self.wf(),
            self.initialized,
        ensures
            Some(r) == self.usdc,
    {
        match &self.usdc {
            Some(u) => *u,
            None => {
                proof {
                    assert(false);
                }
                Address { key: [0u8; 32], is_account: false }
            },
        }
    }
}

} // verus!
