//! The two persistent records of the vesting engine.
//!
//! A [`VestingAccount`] is the company-level configuration: one per issuing
//! company, created once and never mutated. An [`EmployeeAccount`] is one
//! beneficiary's grant under a configuration: its schedule is fixed at
//! creation and only `total_withdrawn` ever changes, through successful
//! claims.

use vstd::prelude::*;

use crate::pubkey::Pubkey;

verus! {

/// Company-level vesting configuration.
///
/// Owns a reference to the custodial treasury and the asset type. The
/// `company_name` is a bounded identifier that doubles as derivation seed
/// material, so it is effectively part of the configuration's identity.
/// The two bump values prove that the configuration's own address and the
/// treasury address were produced by the canonical derivation.
#[derive(Debug)]
pub struct VestingAccount {
    /// The authority allowed to create grants under this configuration.
    pub owner: Pubkey,
    /// The fungible asset being vested.
    pub mint: Pubkey,
    /// The custodial holding account, controlled by the derivation scheme
    /// itself rather than by any private key.
    pub treasury_token_account: Pubkey,
    /// Bounded identifier (at most 64 bytes), used as a derivation seed.
    pub company_name: Vec<u8>,
    /// Verification nonce of the treasury address derivation.
    pub treasury_bump: u8,
    /// Verification nonce of this configuration's own address derivation.
    pub bump: u8,
}

impl VestingAccount {
    /// Structural well-formedness: 32-byte addresses and a bounded name.
    pub open spec fn valid(&self) -> bool {
        &&& self.owner.valid()
        &&& self.mint.valid()
        &&& self.treasury_token_account.valid()
        &&& self.company_name@.len() <= 64
    }
}

/// One beneficiary's grant: the vesting schedule and withdrawal state.
#[derive(Debug)]
pub struct EmployeeAccount {
    /// The sole party entitled to claim.
    pub beneficiary: Pubkey,
    /// Instant (seconds) at which linear vesting starts.
    pub start_time: i64,
    /// Instant (seconds) at which the full amount is vested.
    pub end_time: i64,
    /// Earliest instant at which any claim is permitted.
    pub cliff_time: i64,
    /// Address of the vesting configuration this grant belongs to.
    pub vesting_account: Pubkey,
    /// Total entitlement, fixed at creation.
    pub total_amount: u64,
    /// Running withdrawal counter; monotonically non-decreasing and
    /// bounded above by `total_amount` for well-formed grants.
    pub total_withdrawn: u64,
    /// Verification nonce of this record's own address derivation.
    pub bump: u8,
}

impl EmployeeAccount {
    /// Structural well-formedness: 32-byte addresses.
    pub open spec fn valid(&self) -> bool {
        &&& self.beneficiary.valid()
        &&& self.vesting_account.valid()
    }

    /// The schedule invariant of a well-formed grant: a non-empty vesting
    /// window, a cliff no earlier than the start, and a withdrawal counter
    /// within the entitlement. Grant creation enforces the window; the
    /// cliff bound is the documented expectation on configurations.
    pub open spec fn well_formed(&self) -> bool {
        &&& self.start_time < self.end_time
        &&& self.start_time <= self.cliff_time
        &&& self.total_withdrawn <= self.total_amount
    }
}

} // verus!
