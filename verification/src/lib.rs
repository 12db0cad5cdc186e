//! A linear token-vesting engine.
//!
//! An issuing company locks a pool of fungible tokens in a custodial
//! treasury and grants individual beneficiaries time-based entitlement
//! schedules; beneficiaries withdraw their vested share over time, never
//! exceeding what has vested nor what remains unclaimed. The treasury is
//! controlled by a deterministically derived address rather than a private
//! key, so only this engine, reproducing the canonical derivation, can
//! authorize fund movement.

mod claim;
mod derivation;
mod errors;
mod instructions;
mod pubkey;
mod state;

pub use claim::claim_employee_tokens;
pub use claim::elapsed_wrapped;
pub use claim::lemma_claim_within_entitlement;
pub use claim::lemma_full_vesting;
pub use claim::lemma_repeat_claim_is_rejected;
pub use claim::sat_sub_i64;
pub use claim::spec_claim;
pub use claim::vested_amount;
pub use claim::vesting_window;
pub use claim::wrap_u64;
pub use derivation::derive_employee_address;
pub use derivation::derive_treasury_address;
pub use derivation::derive_vesting_address;
pub use derivation::derived_address;
pub use derivation::employee_seeds;
pub use derivation::employee_tag;
pub use derivation::seeds_view;
pub use derivation::treasury_seeds;
pub use derivation::treasury_tag;
pub use derivation::vesting_seeds;
pub use errors::CustomErrorCodes;
pub use instructions::claim_accounts_error;
pub use instructions::claim_tokens;
pub use instructions::create_account_for_employee;
pub use instructions::create_employee_account;
pub use instructions::create_vesting_account;
pub use pubkey::Pubkey;
pub use state::EmployeeAccount;
pub use state::VestingAccount;
