//! The slippage adjustment that is applied to a cost bound before it is encoded.

use vstd::prelude::*;
use crate::errors::ErrorCode;

verus! {

/// The amount after the tolerance has been added, as a mathematical integer:
/// `amount + amount * slippage * 10 / 1000`, the quotient rounded down.
pub open spec fn slippage_adjusted(amount: int, slippage: int) -> int {
    amount + (amount * slippage * 10) / 1000
}

/// What `apply_slippage` returns.
pub open spec fn apply_slippage_spec(amount: u64, slippage: i64) -> Result<u64, ErrorCode> {
    if slippage < 0 {
        Err(ErrorCode::InvalidSlippage)
    } else if slippage_adjusted(amount as int, slippage as int) > u64::MAX {
        Err(ErrorCode::Overflow)
    } else {
        Ok(slippage_adjusted(amount as int, slippage as int) as u64)
    }
}

/// Adds the tolerance to `amount`, computing in 128 bits and narrowing the sum to 64.
pub fn apply_slippage(amount: u64, slippage: i64) -> (r: Result<u64, ErrorCode>)
    ensures
        r == apply_slippage_spec(amount, slippage),
{
    if slippage < 0 {
        return Err(ErrorCode::InvalidSlippage);
    }
    let base: u128 = amount as u128;
    let tolerance: u128 = slippage as u128;
    assert(base * tolerance <= 0xffff_ffff_ffff_ffff * 0x7fff_ffff_ffff_ffff) by (nonlinear_arith)
        requires
            0 <= base <= 0xffff_ffff_ffff_ffff,
            0 <= tolerance <= 0x7fff_ffff_ffff_ffff,
    ;
    let product: u128 = base * tolerance;
    let scaled: u128 = match product.checked_mul(10) {
        Some(v) => v,
        None => {
            return Err(ErrorCode::Overflow);
        },
    };
    let extra: u128 = scaled / 1000;
    let total: u128 = match base.checked_add(extra) {
        Some(v) => v,
        None => {
            return Err(ErrorCode::Overflow);
        },
    };
    if total > u64::MAX as u128 {
        return Err(ErrorCode::Overflow);
    }
    Ok(total as u64)
}

/// A tolerance of zero leaves every amount as it is.
pub proof fn lemma_zero_slippage(amount: u64)
    ensures
        slippage_adjusted(amount as int, 0) == amount,
        apply_slippage_spec(amount, 0) == Ok::<u64, ErrorCode>(amount),
{
    assert(amount * 0 * 10 == 0) by (nonlinear_arith);
}

/// A tolerance of 500 adds five times the amount: `amount * 500 * 10 / 1000`.
pub proof fn lemma_slippage_500(amount: u64)
    ensures
        slippage_adjusted(amount as int, 500) == amount + amount * 500 * 10 / 1000,
        slippage_adjusted(amount as int, 500) == 6 * amount,
        6 * amount <= u64::MAX ==> apply_slippage_spec(amount, 500) == Ok::<u64, ErrorCode>(
            (6 * amount) as u64,
        ),
        6 * amount > u64::MAX ==> apply_slippage_spec(amount, 500) == Err::<u64, ErrorCode>(
            ErrorCode::Overflow,
        ),
{
    assert(amount * 500 * 10 == 5000 * amount) by (nonlinear_arith);
}

/// A negative tolerance is refused whatever the amount.
pub proof fn lemma_negative_slippage(amount: u64, slippage: i64)
    requires
        slippage < 0,
    ensures
        apply_slippage_spec(amount, slippage) == Err::<u64, ErrorCode>(ErrorCode::InvalidSlippage),
{
}

/// A larger tolerance never gives a smaller amount, and no tolerance gives less than
/// the amount itself.
pub proof fn lemma_slippage_monotonic(amount: u64, smaller: i64, larger: i64)
    requires
        0 <= smaller <= larger,
    ensures
        amount <= slippage_adjusted(amount as int, smaller as int) <= slippage_adjusted(
            amount as int,
            larger as int,
        ),
{
    assert(0 <= amount * smaller * 10 <= amount * larger * 10) by (nonlinear_arith)
        requires
            0 <= amount,
            0 <= smaller <= larger,
    ;
}

/// With a tolerance of at least 1 an amount within a hundredth of the largest 64-bit
/// value overflows: the result is `Overflow`, never a wrapped amount.
pub proof fn lemma_overflow_near_max(amount: u64, slippage: i64)
    requires
        slippage >= 1,
        amount + amount / 100 > u64::MAX,
    ensures
        apply_slippage_spec(amount, slippage) == Err::<u64, ErrorCode>(ErrorCode::Overflow),
{
    lemma_slippage_monotonic(amount, 1, slippage);
    assert(amount * 1 * 10 == 10 * amount) by (nonlinear_arith);
}

} // verus!
