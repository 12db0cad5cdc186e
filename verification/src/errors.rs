//! The error taxonomy of the vesting engine.
//!
//! Every error is a terminal failure of a single operation: no partial
//! effects survive, and nothing is retried internally.

use vstd::prelude::*;

verus! {

/// Why a vesting operation was rejected.
#[derive(Clone, Copy, Debug, PartialEq, Eq, Structural)]
pub enum CustomErrorCodes {
    /// A claim was attempted before the grant's cliff instant.
    ClaimNotAvailableYet,
    /// The grant's vesting window has zero length (`start_time == end_time`).
    InvalidVestingTime,
    /// An arithmetic step would overflow its representation.
    CalculationOverflow,
    /// Nothing has newly vested since the last claim.
    NoTokensToClaim,
    /// A supplied address does not match the canonical derivation.
    AddressMismatch,
    /// The caller, grant, or configuration references do not match the
    /// stored relationships.
    AuthorizationFailure,
}

} // verus!
