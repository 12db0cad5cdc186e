//! Deterministic address derivation.
//!
//! A derived address is computed from an ordered sequence of byte-string
//! seeds plus a program identity, together with a discriminating bump
//! nonce. The mapping is deterministic, so a third party can recompute it
//! to verify an account's provenance, and the program can exercise
//! authority over the derived account by re-presenting the same seeds —
//! no private key exists for it.
//!
//! Seed conventions of this engine:
//! - employee grant:          `{ "employee_vesting", beneficiary, vesting configuration address }`
//! - vesting configuration:   `{ company_name }`
//! - custodial treasury:      `{ "vesting_treasury", company_name }`

use vstd::prelude::*;

use crate::pubkey::{copy_bytes, Pubkey};

verus! {

/// The canonical derived address and bump nonce for the given seeds under
/// the given program identity, or `None` when the seeds admit no valid
/// derivation. The derivation is a hash of seeds and program identity: a
/// pure function of its arguments.
pub uninterp spec fn derived_address(seeds: Seq<Seq<u8>>, program_id: Seq<u8>) -> Option<
    (Seq<u8>, u8),
>;

/// The byte contents of a list of seeds.
pub open spec fn seeds_view(seeds: Seq<Vec<u8>>) -> Seq<Seq<u8>> {
    seeds.map_values(|s: Vec<u8>| s@)
}

/// The fixed tag that prefixes employee-grant seeds: `"employee_vesting"`.
pub open spec fn employee_tag() -> Seq<u8> {
    seq![
        101u8, 109u8, 112u8, 108u8, 111u8, 121u8, 101u8, 101u8, 95u8, 118u8, 101u8, 115u8, 116u8,
        105u8, 110u8, 103u8,
    ]
}

/// The fixed tag that prefixes treasury seeds: `"vesting_treasury"`.
pub open spec fn treasury_tag() -> Seq<u8> {
    seq![
        118u8, 101u8, 115u8, 116u8, 105u8, 110u8, 103u8, 95u8, 116u8, 114u8, 101u8, 97u8, 115u8,
        117u8, 114u8, 121u8,
    ]
}

/// Seeds locating an employee grant: fixed tag, beneficiary identity,
/// vesting configuration address.
pub open spec fn employee_seeds(beneficiary: Seq<u8>, vesting_account: Seq<u8>) -> Seq<Seq<u8>> {
    seq![employee_tag(), beneficiary, vesting_account]
}

/// Seeds locating a vesting configuration: the company name alone.
pub open spec fn vesting_seeds(company_name: Seq<u8>) -> Seq<Seq<u8>> {
    seq![company_name]
}

/// Seeds locating a custodial treasury: fixed tag, company name.
pub open spec fn treasury_seeds(company_name: Seq<u8>) -> Seq<Seq<u8>> {
    seq![treasury_tag(), company_name]
}

/// Relies on `Pubkey::try_find_program_address` of the Solana SDK
/// (re-exported by anchor_lang): it returns the canonical program-derived
/// address — 32 bytes — and its bump nonce, a deterministic function of
/// the seeds and the program identity, or `None` when no bump yields a
/// valid address (over-long or too many seeds, or the statistically
/// improbable exhaustion of bump values).
#[verifier::external_body]
pub(crate) fn find_derived(seeds: &Vec<Vec<u8>>, program_id: &Pubkey) -> (r: Option<(Pubkey, u8)>)
    requires
        program_id.valid(),
    ensures
        match r {
            Some(p) => derived_address(seeds_view(seeds@), program_id@) == Some((p.0@, p.1))
                && p.0.valid(),
            None => derived_address(seeds_view(seeds@), program_id@) is None,
        },
{
    let seed_slices: Vec<&[u8]> = seeds.iter().map(|s| s.as_slice()).collect();
    let pid = anchor_lang::prelude::Pubkey::try_from(program_id.bytes.as_slice())
        .expect("a well-formed program id holds 32 bytes");
    match anchor_lang::prelude::Pubkey::try_find_program_address(&seed_slices, &pid) {
        Some((address, bump)) => Some((Pubkey { bytes: address.to_bytes().to_vec() }, bump)),
        None => None,
    }
}

/// The fixed employee-grant seed tag as bytes.
fn employee_tag_vec() -> (r: Vec<u8>)
    ensures
        r@ == employee_tag(),
{
    let v: Vec<u8> = vec![101, 109, 112, 108, 111, 121, 101, 101, 95, 118, 101, 115, 116, 105, 110, 103];
    proof {
        assert(v@ =~= employee_tag());
    }
    v
}

/// The fixed treasury seed tag as bytes.
fn treasury_tag_vec() -> (r: Vec<u8>)
    ensures
        r@ == treasury_tag(),
{
    let v: Vec<u8> = vec![118, 101, 115, 116, 105, 110, 103, 95, 116, 114, 101, 97, 115, 117, 114, 121];
    proof {
        assert(v@ =~= treasury_tag());
    }
    v
}

/// The canonical address and bump of an employee grant record.
pub fn derive_employee_address(beneficiary: &Pubkey, vesting_account: &Pubkey, program_id: &Pubkey) -> (r:
    Option<(Pubkey, u8)>)
    requires
        program_id.valid(),
    ensures
        match r {
            Some(p) => derived_address(employee_seeds(beneficiary@, vesting_account@), program_id@)
                == Some((p.0@, p.1)) && p.0.valid(),
            None => derived_address(employee_seeds(beneficiary@, vesting_account@), program_id@)
                is None,
        },
{
    let mut seeds: Vec<Vec<u8>> = Vec::new();
    seeds.push(employee_tag_vec());
    seeds.push(beneficiary.to_bytes_vec());
    seeds.push(vesting_account.to_bytes_vec());
    proof {
        assert(seeds_view(seeds@) =~= employee_seeds(beneficiary@, vesting_account@));
    }
    find_derived(&seeds, program_id)
}

/// The canonical address and bump of a vesting configuration record.
pub fn derive_vesting_address(company_name: &Vec<u8>, program_id: &Pubkey) -> (r: Option<
    (Pubkey, u8),
>)
    requires
        program_id.valid(),
    ensures
        match r {
            Some(p) => derived_address(vesting_seeds(company_name@), program_id@) == Some(
                (p.0@, p.1),
            ) && p.0.valid(),
            None => derived_address(vesting_seeds(company_name@), program_id@) is None,
        },
{
    let mut seeds: Vec<Vec<u8>> = Vec::new();
    seeds.push(copy_bytes(company_name));
    proof {
        assert(seeds_view(seeds@) =~= vesting_seeds(company_name@));
    }
    find_derived(&seeds, program_id)
}

/// The canonical address and bump of a custodial treasury account.
pub fn derive_treasury_address(company_name: &Vec<u8>, program_id: &Pubkey) -> (r: Option<
    (Pubkey, u8),
>)
    requires
        program_id.valid(),
    ensures
        match r {
            Some(p) => derived_address(treasury_seeds(company_name@), program_id@) == Some(
                (p.0@, p.1),
            ) && p.0.valid(),
            None => derived_address(treasury_seeds(company_name@), program_id@) is None,
        },
{
    let mut seeds: Vec<Vec<u8>> = Vec::new();
    seeds.push(treasury_tag_vec());
    seeds.push(copy_bytes(company_name));
    proof {
        assert(seeds_view(seeds@) =~= treasury_seeds(company_name@));
    }
    find_derived(&seeds, program_id)
}

} // verus!
