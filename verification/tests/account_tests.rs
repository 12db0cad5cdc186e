use tokenvesting::{
    claim_tokens, create_account_for_employee, create_employee_account, create_vesting_account,
    derive_vesting_address, CustomErrorCodes, Pubkey,
};

fn key(fill: u8) -> Pubkey {
    Pubkey::new(vec![fill; 32]).expect("32 bytes")
}

fn program_id() -> Pubkey {
    key(9)
}

#[test]
fn pubkey_rejects_wrong_length() {
    assert!(Pubkey::new(vec![0u8; 31]).is_none());
    assert!(Pubkey::new(vec![0u8; 33]).is_none());
    assert!(Pubkey::new(vec![0u8; 32]).is_some());
}

#[test]
fn create_vesting_account_derives_addresses() {
    let pid = program_id();
    let name = b"pied piper".to_vec();
    let (config, config_address) =
        create_vesting_account(key(3), key(4), name.clone(), &pid).expect("valid name");

    assert!(config.owner.key_eq(&key(3)));
    assert!(config.mint.key_eq(&key(4)));
    assert_eq!(config.company_name, name);
    assert_eq!(config.treasury_token_account.bytes.len(), 32);
    assert_eq!(config_address.bytes.len(), 32);

    // The configuration address and bump are the canonical derivation.
    let (derived, bump) = derive_vesting_address(&name, &pid).expect("derivable");
    assert!(derived.key_eq(&config_address));
    assert_eq!(bump, config.bump);

    // A derived address is a hash, not an echo of any input.
    assert!(!config_address.key_eq(&pid));
    assert!(!config.treasury_token_account.key_eq(&config_address));
}

#[test]
fn distinct_names_derive_distinct_addresses() {
    let pid = program_id();
    let (_, addr_a) = create_vesting_account(key(3), key(4), b"hooli".to_vec(), &pid).unwrap();
    let (_, addr_b) = create_vesting_account(key(3), key(4), b"raviga".to_vec(), &pid).unwrap();
    assert!(!addr_a.key_eq(&addr_b));
}

#[test]
fn over_long_name_rejected() {
    let pid = program_id();
    let name = vec![b'x'; 65];
    let r = create_vesting_account(key(3), key(4), name, &pid);
    assert!(matches!(r, Err(CustomErrorCodes::AddressMismatch)));
}

#[test]
fn name_beyond_seed_limit_cannot_derive() {
    // 40 bytes is within the stored bound but beyond the 32-byte seed
    // limit of the derivation, so no address exists for it.
    let pid = program_id();
    let name = vec![b'y'; 40];
    let r = create_vesting_account(key(3), key(4), name, &pid);
    assert!(matches!(r, Err(CustomErrorCodes::AddressMismatch)));
}

#[test]
fn grant_requires_positive_window() {
    let r = create_account_for_employee(key(1), key(2), 100, 100, 1000, 0, 0);
    assert!(matches!(r, Err(CustomErrorCodes::InvalidVestingTime)));
    let r = create_account_for_employee(key(1), key(2), 200, 100, 1000, 0, 0);
    assert!(matches!(r, Err(CustomErrorCodes::InvalidVestingTime)));
}

#[test]
fn grant_starts_unwithdrawn() {
    let g = create_account_for_employee(key(1), key(2), 0, 1000, 777, 50, 3).expect("valid window");
    assert!(g.beneficiary.key_eq(&key(1)));
    assert!(g.vesting_account.key_eq(&key(2)));
    assert_eq!(g.start_time, 0);
    assert_eq!(g.end_time, 1000);
    assert_eq!(g.cliff_time, 50);
    assert_eq!(g.total_amount, 777);
    assert_eq!(g.total_withdrawn, 0);
    assert_eq!(g.bump, 3);
}

#[test]
fn only_owner_creates_grants() {
    let pid = program_id();
    let (config, config_address) =
        create_vesting_account(key(3), key(4), b"hooli".to_vec(), &pid).unwrap();
    let intruder = key(5);
    let r = create_employee_account(
        &intruder,
        &config,
        &config_address,
        key(1),
        0,
        1000,
        1000,
        0,
        &pid,
    );
    assert!(matches!(r, Err(CustomErrorCodes::AuthorizationFailure)));
}

#[test]
fn owner_grant_rejects_empty_window() {
    let pid = program_id();
    let (config, config_address) =
        create_vesting_account(key(3), key(4), b"hooli".to_vec(), &pid).unwrap();
    let r = create_employee_account(
        &key(3),
        &config,
        &config_address,
        key(1),
        500,
        500,
        1000,
        0,
        &pid,
    );
    assert!(matches!(r, Err(CustomErrorCodes::InvalidVestingTime)));
}

#[test]
fn claim_end_to_end() {
    let pid = program_id();
    let owner = key(3);
    let beneficiary = key(1);
    let (config, config_address) =
        create_vesting_account(owner.clone_key(), key(4), b"pied piper".to_vec(), &pid).unwrap();
    let (mut grant, grant_address) = create_employee_account(
        &owner,
        &config,
        &config_address,
        beneficiary.clone_key(),
        0,
        1000,
        1000,
        0,
        &pid,
    )
    .expect("grant created");

    let treasury = config.treasury_token_account.clone_key();
    let mint = config.mint.clone_key();

    let paid = claim_tokens(
        &beneficiary,
        &mut grant,
        &grant_address,
        &config,
        &config_address,
        &treasury,
        &mint,
        &pid,
        250,
    );
    assert_eq!(paid, Ok(250));
    assert_eq!(grant.total_withdrawn, 250);

    let paid = claim_tokens(
        &beneficiary,
        &mut grant,
        &grant_address,
        &config,
        &config_address,
        &treasury,
        &mint,
        &pid,
        2000,
    );
    assert_eq!(paid, Ok(750));
    assert_eq!(grant.total_withdrawn, 1000);
}

#[test]
fn claim_rejects_wrong_caller() {
    let pid = program_id();
    let owner = key(3);
    let (config, config_address) =
        create_vesting_account(owner.clone_key(), key(4), b"hooli".to_vec(), &pid).unwrap();
    let (mut grant, grant_address) = create_employee_account(
        &owner,
        &config,
        &config_address,
        key(1),
        0,
        1000,
        1000,
        0,
        &pid,
    )
    .unwrap();

    let treasury = config.treasury_token_account.clone_key();
    let mint = config.mint.clone_key();
    let intruder = key(5);

    let r = claim_tokens(
        &intruder,
        &mut grant,
        &grant_address,
        &config,
        &config_address,
        &treasury,
        &mint,
        &pid,
        500,
    );
    assert!(matches!(r, Err(CustomErrorCodes::AuthorizationFailure)));
    assert_eq!(grant.total_withdrawn, 0);
}

#[test]
fn claim_rejects_forged_bump() {
    let pid = program_id();
    let owner = key(3);
    let beneficiary = key(1);
    let (config, config_address) =
        create_vesting_account(owner.clone_key(), key(4), b"hooli".to_vec(), &pid).unwrap();
    let (mut grant, grant_address) = create_employee_account(
        &owner,
        &config,
        &config_address,
        beneficiary.clone_key(),
        0,
        1000,
        1000,
        0,
        &pid,
    )
    .unwrap();

    grant.bump = grant.bump.wrapping_add(1);

    let treasury = config.treasury_token_account.clone_key();
    let mint = config.mint.clone_key();
    let r = claim_tokens(
        &beneficiary,
        &mut grant,
        &grant_address,
        &config,
        &config_address,
        &treasury,
        &mint,
        &pid,
        500,
    );
    assert!(matches!(r, Err(CustomErrorCodes::AddressMismatch)));
    assert_eq!(grant.total_withdrawn, 0);
}

#[test]
fn claim_rejects_wrong_treasury() {
    let pid = program_id();
    let owner = key(3);
    let beneficiary = key(1);
    let (config, config_address) =
        create_vesting_account(owner.clone_key(), key(4), b"hooli".to_vec(), &pid).unwrap();
    let (mut grant, grant_address) = create_employee_account(
        &owner,
        &config,
        &config_address,
        beneficiary.clone_key(),
        0,
        1000,
        1000,
        0,
        &pid,
    )
    .unwrap();

    let wrong_treasury = key(6);
    let mint = config.mint.clone_key();
    let r = claim_tokens(
        &beneficiary,
        &mut grant,
        &grant_address,
        &config,
        &config_address,
        &wrong_treasury,
        &mint,
        &pid,
        500,
    );
    assert!(matches!(r, Err(CustomErrorCodes::AuthorizationFailure)));
    assert_eq!(grant.total_withdrawn, 0);
}
