//! The three operations of the vesting engine.
//!
//! - [`create_vesting_account`] writes a new company-level configuration
//!   and derives its own and its treasury's canonical addresses.
//! - [`create_employee_account`] lets the configuration's owner grant a
//!   beneficiary a vesting schedule; [`create_account_for_employee`] is
//!   the record constructor it rests on.
//! - [`claim_tokens`] checks the caller's entitlement and every stored
//!   relationship and derivation nonce, then runs the claim algorithm and
//!   reports the amount the transfer subsystem must move.

use vstd::prelude::*;

use crate::claim::{claim_employee_tokens, spec_claim};
use crate::derivation::{
    derive_employee_address, derive_treasury_address, derive_vesting_address, derived_address,
    employee_seeds, treasury_seeds, vesting_seeds,
};
use crate::errors::CustomErrorCodes;
use crate::pubkey::Pubkey;
use crate::state::{EmployeeAccount, VestingAccount};

verus! {

/// Creates a company-level vesting configuration.
///
/// Derives the configuration's own address and the custodial treasury's
/// address from the company name, records both bump nonces, and returns
/// the new record together with its derived address. Fails with
/// `AddressMismatch` when the name exceeds the 64-byte bound or the
/// seeds admit no valid derivation.
pub fn create_vesting_account(owner: Pubkey, mint: Pubkey, company_name: Vec<u8>, program_id: &Pubkey) -> (r:
    Result<(VestingAccount, Pubkey), CustomErrorCodes>)
    requires
        owner.valid(),
        mint.valid(),
        program_id.valid(),
    ensures
        company_name@.len() > 64 ==> r == Err::<(VestingAccount, Pubkey), CustomErrorCodes>(
            CustomErrorCodes::AddressMismatch,
        ),
        company_name@.len() <= 64 ==> match (
            derived_address(vesting_seeds(company_name@), program_id@),
            derived_address(treasury_seeds(company_name@), program_id@),
        ) {
            (Some(own), Some(treasury)) => {
                &&& r matches Ok(p)
                &&& p.0.owner@ == owner@
                &&& p.0.mint@ == mint@
                &&& p.0.treasury_token_account@ == treasury.0
                &&& p.0.company_name@ == company_name@
                &&& p.0.treasury_bump == treasury.1
                &&& p.0.bump == own.1
                &&& p.0.valid()
                &&& p.1@ == own.0
                &&& p.1.valid()
            },
            _ => r == Err::<(VestingAccount, Pubkey), CustomErrorCodes>(
                CustomErrorCodes::AddressMismatch,
            ),
        },
{
    if company_name.len() > 64 {
        return Err(CustomErrorCodes::AddressMismatch);
    }
    let (own_address, bump) = match derive_vesting_address(&company_name, program_id) {
        Some(p) => p,
        None => {
            return Err(CustomErrorCodes::AddressMismatch);
        },
    };
    let (treasury_address, treasury_bump) = match derive_treasury_address(
        &company_name,
        program_id,
    ) {
        Some(p) => p,
        None => {
            return Err(CustomErrorCodes::AddressMismatch);
        },
    };
    let account = VestingAccount {
        owner,
        mint,
        treasury_token_account: treasury_address,
        company_name,
        treasury_bump,
        bump,
    };
    Ok((account, own_address))
}

/// Builds a beneficiary's grant record.
///
/// Enforces the schedule invariant `start_time < end_time` (a zero or
/// negative window could never vest and would poison every later claim);
/// the cliff is deliberately left unconstrained, matching the permissive
/// creation rules of the configuration surface. The withdrawal counter
/// starts at zero.
pub fn create_account_for_employee(
    beneficiary: Pubkey,
    vesting_account: Pubkey,
    start_time: i64,
    end_time: i64,
    total_amount: u64,
    cliff_time: i64,
    bump: u8,
) -> (r: Result<EmployeeAccount, CustomErrorCodes>)
    ensures
        start_time >= end_time ==> r == Err::<EmployeeAccount, CustomErrorCodes>(
            CustomErrorCodes::InvalidVestingTime,
        ),
        start_time < end_time ==> {
            &&& r matches Ok(g)
            &&& g.beneficiary@ == beneficiary@
            &&& g.start_time == start_time
            &&& g.end_time == end_time
            &&& g.cliff_time == cliff_time
            &&& g.vesting_account@ == vesting_account@
            &&& g.total_amount == total_amount
            &&& g.total_withdrawn == 0
            &&& g.bump == bump
        },
{
    if start_time >= end_time {
        return Err(CustomErrorCodes::InvalidVestingTime);
    }
    Ok(
        EmployeeAccount {
            beneficiary,
            start_time,
            end_time,
            cliff_time,
            vesting_account,
            total_amount,
            total_withdrawn: 0,
            bump,
        },
    )
}

/// Creates an employee grant under a vesting configuration.
///
/// Only the configuration's owner may create grants. The grant's own
/// canonical address and bump are derived from the beneficiary and the
/// configuration's address; the record and the derived address are
/// returned together.
pub fn create_employee_account(
    owner: &Pubkey,
    config: &VestingAccount,
    config_address: &Pubkey,
    beneficiary: Pubkey,
    start_time: i64,
    end_time: i64,
    total_amount: u64,
    cliff_time: i64,
    program_id: &Pubkey,
) -> (r: Result<(EmployeeAccount, Pubkey), CustomErrorCodes>)
    requires
        beneficiary.valid(),
        config_address.valid(),
        program_id.valid(),
    ensures
        owner@ != config.owner@ ==> r == Err::<(EmployeeAccount, Pubkey), CustomErrorCodes>(
            CustomErrorCodes::AuthorizationFailure,
        ),
        owner@ == config.owner@ && start_time >= end_time ==> r == Err::<
            (EmployeeAccount, Pubkey),
            CustomErrorCodes,
        >(CustomErrorCodes::InvalidVestingTime),
        owner@ == config.owner@ && start_time < end_time ==> match derived_address(
            employee_seeds(beneficiary@, config_address@),
            program_id@,
        ) {
            Some(derived) => {
                &&& r matches Ok(p)
                &&& p.0.beneficiary@ == beneficiary@
                &&& p.0.start_time == start_time
                &&& p.0.end_time == end_time
                &&& p.0.cliff_time == cliff_time
                &&& p.0.vesting_account@ == config_address@
                &&& p.0.total_amount == total_amount
                &&& p.0.total_withdrawn == 0
                &&& p.0.bump == derived.1
                &&& p.0.valid()
                &&& p.1@ == derived.0
                &&& p.1.valid()
            },
            None => r == Err::<(EmployeeAccount, Pubkey), CustomErrorCodes>(
                CustomErrorCodes::AddressMismatch,
            ),
        },
{
    if !owner.key_eq(&config.owner) {
        return Err(CustomErrorCodes::AuthorizationFailure);
    }
    if start_time >= end_time {
        return Err(CustomErrorCodes::InvalidVestingTime);
    }
    let (grant_address, bump) = match derive_employee_address(
        &beneficiary,
        config_address,
        program_id,
    ) {
        Some(p) => p,
        None => {
            return Err(CustomErrorCodes::AddressMismatch);
        },
    };
    let grant = match create_account_for_employee(
        beneficiary,
        config_address.clone_key(),
        start_time,
        end_time,
        total_amount,
        cliff_time,
        bump,
    ) {
        Ok(g) => g,
        Err(e) => {
            return Err(e);
        },
    };
    Ok((grant, grant_address))
}

/// The first authorization or provenance failure of a claim attempt, or
/// `None` when every stored relationship and derivation nonce checks out:
/// the caller must be the grant's beneficiary, the grant must reference
/// the given configuration, the configuration must reference the given
/// treasury and asset, and the grant, configuration and treasury
/// addresses must all match their canonical derivations.
pub open spec fn claim_accounts_error(
    caller: Pubkey,
    grant: EmployeeAccount,
    grant_address: Pubkey,
    config: VestingAccount,
    config_address: Pubkey,
    treasury: Pubkey,
    mint: Pubkey,
    program_id: Pubkey,
) -> Option<CustomErrorCodes> {
    if caller@ != grant.beneficiary@ {
        Some(CustomErrorCodes::AuthorizationFailure)
    } else if grant.vesting_account@ != config_address@ {
        Some(CustomErrorCodes::AuthorizationFailure)
    } else if config.treasury_token_account@ != treasury@ {
        Some(CustomErrorCodes::AuthorizationFailure)
    } else if config.mint@ != mint@ {
        Some(CustomErrorCodes::AuthorizationFailure)
    } else if derived_address(employee_seeds(grant.beneficiary@, grant.vesting_account@), program_id@)
        != Some((grant_address@, grant.bump)) {
        Some(CustomErrorCodes::AddressMismatch)
    } else if derived_address(vesting_seeds(config.company_name@), program_id@) != Some(
        (config_address@, config.bump),
    ) {
        Some(CustomErrorCodes::AddressMismatch)
    } else if derived_address(treasury_seeds(config.company_name@), program_id@) != Some(
        (treasury@, config.treasury_bump),
    ) {
        Some(CustomErrorCodes::AddressMismatch)
    } else {
        None
    }
}

/// A beneficiary's claim against a grant.
///
/// Verifies the caller's identity, every stored relationship between the
/// grant, the configuration, the treasury and the asset, and the
/// canonical derivation of all three addresses; then runs the claim
/// algorithm. On success the grant's withdrawal counter has grown by the
/// returned amount, which the external transfer subsystem must move from
/// the treasury to the beneficiary; on any failure the grant is
/// unchanged.
pub fn claim_tokens(
    caller: &Pubkey,
    grant: &mut EmployeeAccount,
    grant_address: &Pubkey,
    config: &VestingAccount,
    config_address: &Pubkey,
    treasury: &Pubkey,
    mint: &Pubkey,
    program_id: &Pubkey,
    now: i64,
) -> (r: Result<u64, CustomErrorCodes>)
    requires
        program_id.valid(),
    ensures
        match claim_accounts_error(
            *caller,
            *old(grant),
            *grant_address,
            *config,
            *config_address,
            *treasury,
            *mint,
            *program_id,
        ) {
            Some(e) => r == Err::<u64, CustomErrorCodes>(e) && *final(grant) == *old(grant),
            None => match spec_claim(*old(grant), now as int) {
                Ok(p) => r == Ok::<u64, CustomErrorCodes>(p.1) && *final(grant) == p.0,
                Err(e) => r == Err::<u64, CustomErrorCodes>(e) && *final(grant) == *old(grant),
            },
        },
        final(grant).total_withdrawn >= old(grant).total_withdrawn,
{
    if !caller.key_eq(&grant.beneficiary) {
        return Err(CustomErrorCodes::AuthorizationFailure);
    }
    if !grant.vesting_account.key_eq(config_address) {
        return Err(CustomErrorCodes::AuthorizationFailure);
    }
    if !config.treasury_token_account.key_eq(treasury) {
        return Err(CustomErrorCodes::AuthorizationFailure);
    }
    if !config.mint.key_eq(mint) {
        return Err(CustomErrorCodes::AuthorizationFailure);
    }
    let grant_ok: bool = match derive_employee_address(
        &grant.beneficiary,
        &grant.vesting_account,
        program_id,
    ) {
        Some(p) => p.0.key_eq(grant_address) && p.1 == grant.bump,
        None => false,
    };
    if !grant_ok {
        return Err(CustomErrorCodes::AddressMismatch);
    }
    let config_ok: bool = match derive_vesting_address(&config.company_name, program_id) {
        Some(p) => p.0.key_eq(config_address) && p.1 == config.bump,
        None => false,
    };
    if !config_ok {
        return Err(CustomErrorCodes::AddressMismatch);
    }
    let treasury_ok: bool = match derive_treasury_address(&config.company_name, program_id) {
        Some(p) => p.0.key_eq(treasury) && p.1 == config.treasury_bump,
        None => false,
    };
    if !treasury_ok {
        return Err(CustomErrorCodes::AddressMismatch);
    }
    claim_employee_tokens(grant, now)
}

} // verus!
