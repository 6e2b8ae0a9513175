//! Scaling of whole token units to the mint's base units.

use vstd::prelude::*;
use crate::error::ProgramError;

verus! {

/// Decimal places of the mint that `create_token` creates.
pub const MINT_DECIMALS: u8 = 9;

/// Ten to the power `exp`.
pub open spec fn pow10(exp: nat) -> nat
    decreases exp,
{
    if exp == 0 {
        1
    } else {
        10 * pow10((exp - 1) as nat)
    }
}

/// `amount` whole tokens in base units of a mint with `decimals` places.
pub open spec fn scaled(amount: u64, decimals: u8) -> nat {
    amount as nat * pow10(decimals as nat)
}

/// Powers of ten are positive and grow with the exponent.
pub proof fn pow10_monotonic(low: nat, high: nat)
    requires
        low <= high,
    ensures
        1 <= pow10(low) <= pow10(high),
    decreases high,
{
    if high == 0 {
    } else if low == high {
        pow10_monotonic(0, (high - 1) as nat);
    } else {
        pow10_monotonic(low, (high - 1) as nat);
    }
}

/// Converts `amount` whole tokens to base units: `amount * 10^decimals`.
///
/// Fails with `ArithmeticOverflow` exactly when the product exceeds
/// `u64::MAX`; it never wraps.
pub fn scale_amount(amount: u64, decimals: u8) -> (r: Result<u64, ProgramError>)
    ensures
        scaled(amount, decimals) <= u64::MAX ==> r == Ok::<u64, ProgramError>(
            scaled(amount, decimals) as u64,
        ),
        scaled(amount, decimals) > u64::MAX ==> r == Err::<u64, ProgramError>(
            ProgramError::ArithmeticOverflow,
        ),
{
    if amount == 0 {
        assert(scaled(amount, decimals) == 0) by (nonlinear_arith)
            requires
                amount == 0,
                scaled(amount, decimals) == amount as nat * pow10(decimals as nat),
        ;
        return Ok(0);
    }
    let mut factor: u64 = 1;
    let mut done: u8 = 0;
    while done < decimals
        invariant
            done <= decimals,
            amount >= 1,
            factor == pow10(done as nat),
        decreases decimals - done,
    {
        match factor.checked_mul(10) {
            Some(next) => {
                factor = next;
                done = done + 1;
            },
            None => {
                proof {
                    pow10_monotonic((done + 1) as nat, decimals as nat);
                    assert(amount as nat * pow10(decimals as nat) >= pow10(decimals as nat))
                        by (nonlinear_arith)
                        requires
                            amount >= 1,
                    ;
                }
                return Err(ProgramError::ArithmeticOverflow);
            },
        }
    }
    match amount.checked_mul(factor) {
        Some(product) => Ok(product),
        None => Err(ProgramError::ArithmeticOverflow),
    }
}

} // verus!
