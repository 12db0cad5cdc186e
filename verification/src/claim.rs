//! The claim algorithm: linear-vesting math and withdrawal bookkeeping.
//!
//! [`claim_employee_tokens`] computes how much of a grant has vested at a
//! given instant, enforces the cliff gate and the monotonic withdrawal
//! counter, and reports the amount the external transfer subsystem must
//! move. It either succeeds and bumps `total_withdrawn`, or fails with a
//! terminal error and leaves the grant untouched.
//!
//! The arithmetic mirrors the on-ledger semantics exactly: instants are
//! signed 64-bit seconds, differences saturate at the signed bounds, and
//! the saturated differences are then reinterpreted as unsigned 64-bit
//! values (two's complement) before the multiplication, which fails with
//! [`CustomErrorCodes::CalculationOverflow`] rather than wrapping.

use vstd::arithmetic::div_mod::{lemma_div_is_ordered, lemma_div_multiples_vanish};
use vstd::arithmetic::mul::{lemma_mul_inequality, lemma_mul_is_commutative};
use vstd::prelude::*;

use crate::errors::CustomErrorCodes;
use crate::state::EmployeeAccount;

verus! {

/// Difference `a - b` clamped to the signed 64-bit range.
pub open spec fn sat_sub_i64(a: int, b: int) -> int {
    if a - b > i64::MAX {
        i64::MAX as int
    } else if a - b < i64::MIN {
        i64::MIN as int
    } else {
        a - b
    }
}

/// The value a signed 64-bit quantity denotes when reinterpreted as
/// unsigned (two's complement): negative values gain `2^64`.
pub open spec fn wrap_u64(x: int) -> int {
    if x >= 0 {
        x
    } else {
        x + 0x1_0000_0000_0000_0000
    }
}

/// Length of the grant's vesting window, `end_time - start_time`,
/// saturated below at zero — the window is never negative — and above
/// at the signed 64-bit bound.
pub open spec fn vesting_window(g: EmployeeAccount) -> int {
    if sat_sub_i64(g.end_time as int, g.start_time as int) < 0 {
        0
    } else {
        sat_sub_i64(g.end_time as int, g.start_time as int)
    }
}

/// Seconds elapsed since the schedule's start, saturated, then
/// reinterpreted as unsigned.
pub open spec fn elapsed_wrapped(g: EmployeeAccount, now: int) -> int {
    wrap_u64(sat_sub_i64(now, g.start_time as int))
}

/// The cumulative entitlement unlocked at instant `now`, or `None` when
/// the widened multiplication would overflow. Meaningful only when
/// `vesting_window(g) != 0`.
pub open spec fn vested_amount(g: EmployeeAccount, now: int) -> Option<u64> {
    if now >= g.end_time {
        Some(g.total_amount)
    } else {
        let product = (g.total_amount as int) * elapsed_wrapped(g, now);
        if product > u64::MAX {
            None
        } else {
            Some((product / vesting_window(g)) as u64)
        }
    }
}

/// The full outcome of one claim against grant `g` at instant `now`:
/// either the updated grant and the amount to transfer, or the terminal
/// error, in the order the algorithm checks them.
pub open spec fn spec_claim(g: EmployeeAccount, now: int) -> Result<
    (EmployeeAccount, u64),
    CustomErrorCodes,
> {
    if now < g.cliff_time {
        Err(CustomErrorCodes::ClaimNotAvailableYet)
    } else if vesting_window(g) == 0 {
        Err(CustomErrorCodes::InvalidVestingTime)
    } else {
        match vested_amount(g, now) {
            None => Err(CustomErrorCodes::CalculationOverflow),
            Some(vested) => {
                let amount = if g.total_withdrawn <= vested {
                    vested - g.total_withdrawn
                } else {
                    0
                };
                if amount == 0 {
                    Err(CustomErrorCodes::NoTokensToClaim)
                } else if g.total_withdrawn + amount > u64::MAX {
                    Err(CustomErrorCodes::CalculationOverflow)
                } else {
                    Ok(
                        (
                            EmployeeAccount {
                                total_withdrawn: (g.total_withdrawn + amount) as u64,
                                ..g
                            },
                            amount as u64,
                        ),
                    )
                }
            },
        }
    }
}

/// Difference `a - b` saturated at the signed 64-bit bounds.
fn sat_sub(a: i64, b: i64) -> (r: i64)
    ensures
        r as int == sat_sub_i64(a as int, b as int),
{
    match a.checked_sub(b) {
        Some(v) => v,
        None => if b >= 0 {
            i64::MIN
        } else {
            i64::MAX
        },
    }
}

/// Reinterpretation of a signed 64-bit value as unsigned (two's
/// complement).
fn wrap_to_u64(x: i64) -> (r: u64)
    ensures
        r as int == wrap_u64(x as int),
{
    if x >= 0 {
        x as u64
    } else {
        ((x as i128) + 0x1_0000_0000_0000_0000_i128) as u64
    }
}

/// One claim against a grant at instant `now`.
///
/// On success, returns the amount the treasury must transfer to the
/// beneficiary and adds it to the grant's withdrawal counter; on failure,
/// returns the terminal error and leaves the grant unchanged. The
/// postconditions state the outcome exactly, via [`spec_claim`], and in
/// addition single out the guarantees callers rely on: the counter never
/// decreases, no claim lands before the cliff, a zero-length window is
/// always rejected, and an overflowing entitlement product is an error,
/// never a wrapped value.
pub fn claim_employee_tokens(grant: &mut EmployeeAccount, now: i64) -> (r: Result<
    u64,
    CustomErrorCodes,
>)
    ensures
        ({
            match spec_claim(*old(grant), now as int) {
                Ok(p) => r == Ok::<u64, CustomErrorCodes>(p.1) && *final(grant) == p.0,
                Err(e) => r == Err::<u64, CustomErrorCodes>(e) && *final(grant) == *old(grant),
            }
        }),
        final(grant).total_withdrawn >= old(grant).total_withdrawn,
        now < old(grant).cliff_time ==> r == Err::<u64, CustomErrorCodes>(
            CustomErrorCodes::ClaimNotAvailableYet,
        ) && *final(grant) == *old(grant),
        now >= old(grant).cliff_time && old(grant).end_time <= old(grant).start_time ==> r == Err::<
            u64,
            CustomErrorCodes,
        >(CustomErrorCodes::InvalidVestingTime) && *final(grant) == *old(grant),
        now >= old(grant).cliff_time && vesting_window(*old(grant)) != 0 && now < old(
            grant,
        ).end_time && (old(grant).total_amount as int) * elapsed_wrapped(*old(grant), now as int)
            > u64::MAX ==> r == Err::<u64, CustomErrorCodes>(CustomErrorCodes::CalculationOverflow)
            && *final(grant) == *old(grant),
{
    if now < grant.cliff_time {
        return Err(CustomErrorCodes::ClaimNotAvailableYet);
    }
    let time_since_start: i64 = sat_sub(now, grant.start_time);
    let total_vesting_time: i64 = sat_sub(grant.end_time, grant.start_time);
    if total_vesting_time <= 0 {
        return Err(CustomErrorCodes::InvalidVestingTime);
    }
    let vested: u64 = if now >= grant.end_time {
        grant.total_amount
    } else {
        let elapsed: u64 = wrap_to_u64(time_since_start);
        let window: u64 = total_vesting_time as u64;
        match grant.total_amount.checked_mul(elapsed) {
            Some(product) => product / window,
            None => {
                return Err(CustomErrorCodes::CalculationOverflow);
            },
        }
    };
    let amount_to_withdraw: u64 = vested.saturating_sub(grant.total_withdrawn);
    if amount_to_withdraw == 0 {
        return Err(CustomErrorCodes::NoTokensToClaim);
    }
    match grant.total_withdrawn.checked_add(amount_to_withdraw) {
        Some(total) => {
            grant.total_withdrawn = total;
            Ok(amount_to_withdraw)
        },
        None => Err(CustomErrorCodes::CalculationOverflow),
    }
}

/// For a well-formed grant, a successful claim keeps the withdrawal
/// counter within the total entitlement, pays out exactly the counter's
/// increase, and preserves well-formedness.
pub proof fn lemma_claim_within_entitlement(g: EmployeeAccount, now: int)
    requires
        g.well_formed(),
    ensures
        match spec_claim(g, now) {
            Ok(p) => {
                &&& p.0.well_formed()
                &&& p.0.total_withdrawn <= g.total_amount
                &&& p.0.total_withdrawn >= g.total_withdrawn
                &&& p.1 == p.0.total_withdrawn - g.total_withdrawn
            },
            Err(_) => true,
        },
{
    if now >= g.cliff_time && vesting_window(g) != 0 && now < g.end_time {
        let total = g.total_amount as int;
        let elapsed = elapsed_wrapped(g, now);
        let window = vesting_window(g);
        assert(0 < window);
        assert(elapsed <= window);
        if total * elapsed <= u64::MAX {
            lemma_mul_inequality(elapsed, window, total);
            lemma_mul_is_commutative(total, elapsed);
            lemma_mul_is_commutative(total, window);
            lemma_div_is_ordered(total * elapsed, window * total, window);
            lemma_div_multiples_vanish(total, window);
            assert((total * elapsed) / window <= total);
        }
    }
}

/// Claiming at or after `end_time` settles the grant: afterwards the
/// cumulative withdrawal equals the total entitlement, whether this claim
/// paid out the remainder or nothing was left and it failed with
/// `NoTokensToClaim`.
pub proof fn lemma_full_vesting(g: EmployeeAccount, now: int)
    requires
        g.start_time < g.end_time,
        g.total_withdrawn <= g.total_amount,
        now >= g.end_time,
        now >= g.cliff_time,
    ensures
        match spec_claim(g, now) {
            Ok(p) => p.0.total_withdrawn == g.total_amount && p.1 == g.total_amount
                - g.total_withdrawn,
            Err(e) => e == CustomErrorCodes::NoTokensToClaim && g.total_withdrawn
                == g.total_amount,
        },
{
}

/// Repeating a just-completed claim at the same instant finds nothing
/// newly vested: it fails with `NoTokensToClaim` and changes no state.
pub proof fn lemma_repeat_claim_is_rejected(g: EmployeeAccount, now: int)
    ensures
        spec_claim(g, now) matches Ok(p) ==> spec_claim(p.0, now) == Err::<
            (EmployeeAccount, u64),
            CustomErrorCodes,
        >(CustomErrorCodes::NoTokensToClaim),
{
    match spec_claim(g, now) {
        Ok(p) => {
            assert(vested_amount(p.0, now) == vested_amount(g, now));
        },
        Err(_) => {},
    }
}

} // verus!
