//! An intent-based cross-chain settlement engine.
//!
//! A sender escrows funds on a source chain by creating an *intent*; a
//! relayer pays the receiver on the destination chain and proves it by a
//! fill-hash; the source chain verifies the proof and pays the relayer.
//! All state lives in an explicit contract value, so every transition is a
//! plain function from state and inputs to new state, errors and outward
//! actions (token transfers, outbound messages), which a host shell performs.

pub mod addr;
pub mod engine;
pub mod errors;
pub mod fee;
pub mod fill_hash;
pub mod payment;
pub mod store;
pub mod types;
pub mod wire;
