use tokenvesting::{claim_employee_tokens, CustomErrorCodes, EmployeeAccount, Pubkey};

fn key(fill: u8) -> Pubkey {
    Pubkey::new(vec![fill; 32]).expect("32 bytes")
}

fn grant(start_time: i64, end_time: i64, cliff_time: i64, total_amount: u64) -> EmployeeAccount {
    EmployeeAccount {
        beneficiary: key(1),
        start_time,
        end_time,
        cliff_time,
        vesting_account: key(2),
        total_amount,
        total_withdrawn: 0,
        bump: 0,
    }
}

#[test]
fn linear_vesting_scenario() {
    let mut g = grant(0, 1000, 0, 1000);

    assert_eq!(claim_employee_tokens(&mut g, 250), Ok(250));
    assert_eq!(g.total_withdrawn, 250);

    assert_eq!(claim_employee_tokens(&mut g, 500), Ok(250));
    assert_eq!(g.total_withdrawn, 500);

    assert_eq!(claim_employee_tokens(&mut g, 2000), Ok(500));
    assert_eq!(g.total_withdrawn, 1000);

    assert_eq!(
        claim_employee_tokens(&mut g, 3000),
        Err(CustomErrorCodes::NoTokensToClaim)
    );
    assert_eq!(g.total_withdrawn, 1000);
}

#[test]
fn claim_before_cliff_fails() {
    let mut g = grant(0, 1000, 600, 1000);
    assert_eq!(
        claim_employee_tokens(&mut g, 599),
        Err(CustomErrorCodes::ClaimNotAvailableYet)
    );
    assert_eq!(g.total_withdrawn, 0);
}

#[test]
fn claim_at_cliff_succeeds() {
    let mut g = grant(0, 1000, 600, 1000);
    assert_eq!(claim_employee_tokens(&mut g, 600), Ok(600));
    assert_eq!(g.total_withdrawn, 600);
}

#[test]
fn zero_window_rejected() {
    let mut g = grant(500, 500, 0, 1000);
    assert_eq!(
        claim_employee_tokens(&mut g, 700),
        Err(CustomErrorCodes::InvalidVestingTime)
    );
    assert_eq!(g.total_withdrawn, 0);
}

#[test]
fn reversed_window_rejected() {
    // A window that ends before it starts can only come from a forged
    // record; the claim gate rejects it like a zero-length window.
    let mut g = grant(1000, 0, 0, 1000);
    assert_eq!(
        claim_employee_tokens(&mut g, 500),
        Err(CustomErrorCodes::InvalidVestingTime)
    );
    assert_eq!(g.total_withdrawn, 0);
}

#[test]
fn repeat_claim_rejected() {
    let mut g = grant(0, 1000, 0, 1000);
    assert_eq!(claim_employee_tokens(&mut g, 400), Ok(400));
    assert_eq!(
        claim_employee_tokens(&mut g, 400),
        Err(CustomErrorCodes::NoTokensToClaim)
    );
    assert_eq!(g.total_withdrawn, 400);
}

#[test]
fn overflow_guard() {
    let mut g = grant(0, 1000, 0, u64::MAX);
    assert_eq!(
        claim_employee_tokens(&mut g, 500),
        Err(CustomErrorCodes::CalculationOverflow)
    );
    assert_eq!(g.total_withdrawn, 0);
}

#[test]
fn fully_vested_at_end() {
    let mut g = grant(0, 1000, 0, 12345);
    assert_eq!(claim_employee_tokens(&mut g, 1000), Ok(12345));
    assert_eq!(g.total_withdrawn, 12345);
}

#[test]
fn fully_vested_after_partial_claim() {
    let mut g = grant(0, 1000, 0, 1000);
    assert_eq!(claim_employee_tokens(&mut g, 300), Ok(300));
    assert_eq!(claim_employee_tokens(&mut g, 5000), Ok(700));
    assert_eq!(g.total_withdrawn, 1000);
}

#[test]
fn vesting_division_truncates() {
    let mut g = grant(0, 3, 0, 10);
    assert_eq!(claim_employee_tokens(&mut g, 1), Ok(3));
    assert_eq!(g.total_withdrawn, 3);
}

#[test]
fn negative_instants_vest_linearly() {
    let mut g = grant(-1000, 1000, -1000, 1000);
    assert_eq!(claim_employee_tokens(&mut g, 0), Ok(500));
    assert_eq!(g.total_withdrawn, 500);
}

#[test]
fn nothing_vested_at_start() {
    let mut g = grant(0, 1000, 0, 1000);
    assert_eq!(
        claim_employee_tokens(&mut g, 0),
        Err(CustomErrorCodes::NoTokensToClaim)
    );
    assert_eq!(g.total_withdrawn, 0);
}
