//! Error codes of the settlement engine.

use vstd::prelude::*;

verus! {

/// Everything that can make an engine call abort with no state change.
///
/// Verification failures (a hash mismatch, an underpayment) are *not* here:
/// they are recorded outcomes, not aborts, and surface as an intent moving
/// to `IntentStatus::Failed`.
#[derive(Clone, Copy, Debug, PartialEq, Eq, Structural)]
pub enum Error {
    // Initialization
    AlreadyInitialized,
    NotInitialized,
    // Authorization
    NotOwner,
    NotRelayer,
    NotMessenger,
    NotAuthorized,
    // Intent state
    IntentAlreadyExists,
    IntentNotFound,
    InvalidStatus,
    IntentExpired,
    IntentNotExpired,
    // Validation
    InvalidAmount,
    InvalidDeadline,
    InvalidFee,
    InvalidPayload,
    // Cross-chain
    UntrustedSource,
    ChainNotFound,
    WrongChain,
    // Transfer
    TransferFailed,
    // Relayer
    NotAssignedRelayer,
    NotAuthorizedRelayer,
    AlreadyFilled,
    FillHashMismatch,
    InvalidMessenger,
}

} // verus!
